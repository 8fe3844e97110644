use vrpg::ability_scores::{AbilityScoreType, AbilityScores};
use vrpg::audio_buffer::{AudioChunk, AudioFormat, AudioQueue};
use vrpg::condition::{ConditionApplication, ConditionManager, ConditionType, Timestamp};
use vrpg::cr_xp::ChallengeRating;
use vrpg::damage::{Damage, DamageRequest, DamageResolver, DamageType};
use vrpg::error::RulesError;
use vrpg::gpu::GpuConfig;
use vrpg::interjections::InterjectionState;
use vrpg::metrics::{LatencyTimer, MetricsCollector, PipelineMetrics};
use vrpg::phonemizer::{espeak_voice, phonemize, phonemize_ipa, EspeakRun};
use vrpg::prebuffer_manager::{BufferLevel, PreBufferManager, PreBufferState};
use vrpg::spells::SpellSlots;
use vrpg::tts_error::TtsError;
use vrpg::weapons::{WeaponCategory, WeaponDatabase, WeaponType};

fn poisoned_for(rounds: Option<u32>, permanent: bool) -> ConditionApplication {
    ConditionApplication { condition_type: ConditionType::Poisoned, duration_rounds: rounds, permanent }
}

#[test]
fn test_condition_expiration() {
    let mut manager = ConditionManager::new();
    let start = Timestamp { seconds: 1_700_000_000, nanos: 0 };
    manager.apply_at(&poisoned_for(Some(1), false), start);
    assert!(manager.has(ConditionType::Poisoned));

    // One round is six seconds: still on before six, gone at six and after.
    manager.expire_at(Timestamp { seconds: start.seconds + 5, nanos: 999_999_999 });
    assert!(manager.has(ConditionType::Poisoned));
    manager.expire_at(Timestamp { seconds: start.seconds + 7, nanos: 0 });
    assert!(!manager.has(ConditionType::Poisoned));
}

#[test]
fn condition_permanent_and_open_ended_never_expire() {
    let mut manager = ConditionManager::new();
    let start = Timestamp { seconds: 1_000, nanos: 5 };
    manager.apply_at(&poisoned_for(Some(1), true), start);
    manager.apply_at(
        &ConditionApplication { condition_type: ConditionType::Prone, duration_rounds: None, permanent: false },
        start,
    );
    assert_eq!(manager.get_all()[0].expires_at, None);
    manager.expire_at(Timestamp { seconds: 1_000_000, nanos: 0 });
    assert_eq!(manager.get_all().len(), 2);
}

#[test]
fn condition_apply_replaces_same_type() {
    let mut manager = ConditionManager::new();
    let t0 = Timestamp { seconds: 100, nanos: 0 };
    let t1 = Timestamp { seconds: 200, nanos: 0 };
    manager.apply_at(&poisoned_for(Some(2), false), t0);
    manager.apply_at(
        &ConditionApplication { condition_type: ConditionType::Stunned, duration_rounds: Some(1), permanent: false },
        t0,
    );
    manager.apply_at(&poisoned_for(Some(3), false), t1);
    let all = manager.get_all();
    assert_eq!(all.len(), 2);
    assert_eq!(all[0].condition_type, ConditionType::Stunned);
    assert_eq!(all[1].condition_type, ConditionType::Poisoned);
    assert_eq!(all[1].applied_at, t1);
    assert_eq!(all[1].expires_at, Some(Timestamp { seconds: 218, nanos: 0 }));

    manager.remove(ConditionType::Poisoned);
    assert!(!manager.has(ConditionType::Poisoned));
    assert!(manager.has(ConditionType::Stunned));
    manager.clear();
    assert!(manager.get_all().is_empty());
}

#[test]
fn condition_apply_reads_the_clock() {
    let mut manager = ConditionManager::default();
    manager.apply(&poisoned_for(Some(1), false));
    let c = manager.get_all()[0];
    // The clock reads some moment after September 2020.
    assert!(c.applied_at.seconds > 1_600_000_000);
    assert_eq!(c.expires_at.unwrap().seconds, c.applied_at.seconds + 6);
    // Expiring right away keeps a condition that lasts a round.
    manager.expire_conditions();
    assert!(manager.has(ConditionType::Poisoned));
}

#[test]
fn test_should_start_playback() {
    let config = GpuConfig {
        max_parallel_streams: 1,
        vram_limit_mb: 3072,
        utilization_target_percent: 50,
        prebuffer_ms: 1500,
        yield_between_chunks: true,
        cpu_fallback_enabled: true,
    };
    let manager = PreBufferManager::new(config);
    // An empty buffer is below the target; a buffer holding the pre-buffer
    // duration reaches it.
    let empty = BufferLevel { reaches_target: false, below_half_target: true };
    assert!(!manager.should_start_playback(empty));
    let full = BufferLevel { reaches_target: true, below_half_target: false };
    assert!(manager.should_start_playback(full));
}

#[test]
fn prebuffer_state_changes() {
    let empty = BufferLevel { reaches_target: false, below_half_target: true };
    let full = BufferLevel { reaches_target: true, below_half_target: false };
    let middle = BufferLevel { reaches_target: false, below_half_target: false };
    let config = GpuConfig {
        max_parallel_streams: 2,
        vram_limit_mb: 0,
        utilization_target_percent: 90,
        prebuffer_ms: 2500,
        yield_between_chunks: false,
        cpu_fallback_enabled: false,
    };
    let mut manager = PreBufferManager::new(config);
    assert_eq!(manager.config(), config);
    assert_eq!(manager.state(), PreBufferState::Filling);
    assert_eq!(manager.update_state(full), PreBufferState::Ready);
    assert_eq!(manager.update_state(empty), PreBufferState::Filling);
    manager.set_state(PreBufferState::Playing);
    assert!(!manager.should_start_playback(full));
    assert_eq!(manager.update_state(middle), PreBufferState::Playing);
    assert!(manager.should_pause_playback(empty));
    assert_eq!(manager.update_state(empty), PreBufferState::Paused);
    assert!(!manager.should_pause_playback(empty));
    assert_eq!(manager.update_state(middle), PreBufferState::Paused);
    assert_eq!(manager.update_state(full), PreBufferState::Ready);
    assert_eq!(manager.state(), PreBufferState::Ready);
}

#[test]
fn metrics_collector_totals() {
    let mut collector = MetricsCollector::new();
    collector.record_request(PipelineMetrics {
        total_latency_ms: 100,
        xtts_latency_ms: 30,
        audio_duration_ms: 500,
        cache_hit: false,
    });
    collector.record_request(PipelineMetrics {
        total_latency_ms: 200,
        xtts_latency_ms: 50,
        audio_duration_ms: 1000,
        cache_hit: true,
    });
    collector.record_error();
    assert_eq!(collector.total_requests, 2);
    assert_eq!(collector.total_latency_ms, 300);
    assert_eq!(collector.xtts_total_ms, 80);
    assert_eq!(collector.cache_hits, 1);
    assert_eq!(collector.errors, 1);
    collector.reset();
    assert_eq!(collector, MetricsCollector::default());
}

#[test]
fn test_latency_timer() {
    let timer = LatencyTimer::start();
    let begin = std::time::Instant::now();
    while begin.elapsed() < std::time::Duration::from_millis(10) {}

    let elapsed = timer.elapsed_ms();
    assert!(elapsed >= 10);
    assert!(timer.elapsed() >= std::time::Duration::from_millis(10));
}

#[test]
fn phonemize_fallback_ids() {
    assert_eq!(phonemize("Hi", "en", &EspeakRun::Unavailable).unwrap(), vec![44, 12, 0]);
    assert_eq!(phonemize("ab", "pt", &EspeakRun::Unavailable).unwrap(), vec![10, 21, 0]);
    assert_eq!(phonemize("", "en", &EspeakRun::Unavailable).unwrap(), vec![10, 11, 12]);
    assert_eq!(phonemize("Cat y", "en", &EspeakRun::Unavailable).unwrap(), vec![34, 10, 32, 0, 50, 0]);
}

#[test]
fn phonemize_fallback_ipa() {
    let v = phonemize_ipa("Cat y", "en", &EspeakRun::Unavailable).unwrap();
    assert_eq!(v, vec!["k", "a", "t", " ", "j", " "]);
    let v = phonemize_ipa("", "en", &EspeakRun::Unavailable).unwrap();
    assert_eq!(v, vec!["ə", "a", "i"]);
}

#[test]
fn phonemize_espeak_output() {
    // "həˈloʊ" loses its stress mark and is not in the table: its codes
    // 104 + 601 + 108 + 111 + 650 = 1574 give 574 + 100.
    let ids = phonemize("hello", "en", &EspeakRun::Output("həˈloʊ\n".to_string())).unwrap();
    assert_eq!(ids, vec![674]);
    let ids = phonemize("x", "en", &EspeakRun::Output("p ʃ".to_string())).unwrap();
    assert_eq!(ids, vec![30, 42]);

    let v = phonemize_ipa("hello world", "en", &EspeakRun::Output("həˈləʊ wɜːld".to_string())).unwrap();
    assert_eq!(v, vec!["h", "ə", "l", "əʊ", " ", "w", "ɜ", "l", "d"]);
    let v = phonemize_ipa("church", "en", &EspeakRun::Output("tʃˈɜːtʃ".to_string())).unwrap();
    assert_eq!(v, vec!["tʃ", "ɜ", "tʃ"]);
}

#[test]
fn phonemize_errors() {
    match phonemize("x", "en", &EspeakRun::Failed("espeak-ng exited with 1".to_string())) {
        Err(TtsError::Synthesis(m)) => assert_eq!(m, "espeak-ng exited with 1"),
        other => panic!("unexpected {:?}", other),
    }
    match phonemize("x", "en", &EspeakRun::Output("   ".to_string())) {
        Err(TtsError::Synthesis(m)) => assert_eq!(m, "No phonemes generated"),
        other => panic!("unexpected {:?}", other),
    }
    match phonemize_ipa("x", "en", &EspeakRun::Output("123".to_string())) {
        Err(TtsError::Synthesis(m)) => assert_eq!(m, "No phonemes extracted"),
        other => panic!("unexpected {:?}", other),
    }
    assert_eq!(espeak_voice("pt-BR"), "pt-br");
    assert_eq!(espeak_voice("pt"), "pt-br");
    assert_eq!(espeak_voice("en"), "en-gb");
}

#[test]
fn rules_error_texts() {
    assert_eq!(RulesError::DiceParse("bad".to_string()).text(), "Dice parsing error: bad");
    assert_eq!(RulesError::Calculation("overflow".to_string()).text(), "Calculation error: overflow");
    assert_eq!(RulesError::InvalidInput("nope".to_string()).text(), "Invalid input: nope");
}

#[test]
fn law_score_written_is_read() {
    let mut s = AbilityScores::new(10, 11, 12, 13, 14, 15);
    s.set_score(AbilityScoreType::Wisdom, 18).unwrap();
    assert_eq!(s.get_score(AbilityScoreType::Wisdom), 18);
    assert_eq!(s.get_score(AbilityScoreType::Charisma), 15);
    assert!(s.set_score(AbilityScoreType::Wisdom, 31).is_err());
    assert_eq!(s.get_score(AbilityScoreType::Wisdom), 18);
}

#[test]
fn law_modifier_steps() {
    let mut last = -100;
    for score in 1u8..=30 {
        let s = AbilityScores::new(score, 10, 10, 10, 10, 10);
        let m = s.get_modifier(AbilityScoreType::Strength);
        assert!(m >= last);
        last = m;
    }
    let s = AbilityScores::new(9, 11, 10, 10, 10, 10);
    assert_eq!(s.get_modifier(AbilityScoreType::Strength), -1);
    assert_eq!(s.get_modifier(AbilityScoreType::Dexterity), 0);
}

#[test]
fn law_ratings_order_xp_and_round_trip() {
    let labels = ["0", "1/8", "1/4", "1/2", "1", "2", "5", "10", "20", "30"];
    let mut last_xp = 0;
    let mut last_prof = 0;
    for (i, label) in labels.iter().enumerate() {
        let cr = ChallengeRating::from_str(label).unwrap();
        assert_eq!(cr.to_string(), *label);
        let xp = cr.to_xp();
        if i > 0 {
            assert!(xp > last_xp);
        }
        assert!(cr.to_proficiency_bonus() >= last_prof);
        last_xp = xp;
        last_prof = cr.to_proficiency_bonus();
    }
    assert_eq!(ChallengeRating::from_str("30").unwrap().to_xp(), 155000);
}

#[test]
fn law_damage_defenses() {
    let resolver = DamageResolver::new();
    let hit = |d: i32, t: DamageType| Damage { amount: d, damage_type: t };
    let r = resolver.resolve(&DamageRequest {
        damage: vec![hit(9, DamageType::Fire), hit(9, DamageType::Cold), hit(9, DamageType::Acid), hit(9, DamageType::Poison)],
        resistances: vec![DamageType::Fire, DamageType::Acid, DamageType::Poison],
        vulnerabilities: vec![DamageType::Cold, DamageType::Acid, DamageType::Poison],
        immunities: vec![DamageType::Poison],
    });
    let amounts: Vec<i32> = r.final_damage.iter().map(|d| d.amount).collect();
    assert_eq!(amounts, vec![4, 18, 9, 0]);
    assert_eq!(r.total, 31);
    let r = DamageResolver::default().resolve(&DamageRequest {
        damage: vec![hit(-7, DamageType::Fire)],
        resistances: vec![DamageType::Fire],
        vulnerabilities: vec![],
        immunities: vec![],
    });
    assert_eq!(r.total, -3);
}

#[test]
fn law_slots_use_restore_rest() {
    let mut slots = SpellSlots::for_full_caster(9).unwrap();
    assert_eq!(slots.max_level(), 5);
    let before = (slots.available(3), slots.total_used());
    slots.use_slot(3).unwrap();
    assert_eq!(slots.available(3), before.0 - 1);
    assert_eq!(slots.total_used(), before.1 + 1);
    slots.restore_slot(3).unwrap();
    assert_eq!((slots.available(3), slots.total_used()), before);
    // Restoring with nothing spent changes nothing.
    assert!(slots.restore_slot(3).is_ok());
    assert_eq!((slots.available(3), slots.total_used()), before);
    assert!(slots.use_slot(6).is_err());
    slots.use_slot(1).unwrap();
    slots.use_slot(5).unwrap();
    slots.restore_all();
    assert_eq!(slots.total_used(), 0);
    assert_eq!(slots.total_slots(), 4 + 3 + 3 + 3 + 1);
    let mut last = 0;
    for level in 1u8..=20 {
        let t = SpellSlots::for_full_caster(level).unwrap().total_slots();
        assert!(t >= last);
        last = t;
    }
}

#[test]
fn law_weapon_groups_partition() {
    let all = WeaponDatabase::all_weapons();
    let groups = [
        (WeaponDatabase::simple_melee(), WeaponCategory::Simple, WeaponType::Melee),
        (WeaponDatabase::simple_ranged(), WeaponCategory::Simple, WeaponType::Ranged),
        (WeaponDatabase::martial_melee(), WeaponCategory::Martial, WeaponType::Melee),
        (WeaponDatabase::martial_ranged(), WeaponCategory::Martial, WeaponType::Ranged),
    ];
    let mut count = 0;
    for (group, category, kind) in groups.iter() {
        for w in group {
            assert_eq!(w.category, *category);
            assert_eq!(w.weapon_type, *kind);
        }
        count += group.len();
    }
    assert_eq!(count, all.len());
    for w in &all {
        assert!(w.uses_strength() != w.uses_dexterity());
    }
}

#[test]
fn law_interjection_window_and_counts() {
    let mut state = InterjectionState::new(2);
    state.record_use("a");
    state.record_use("b");
    state.record_use("a");
    state.record_use("c");
    assert_eq!(state.recent_ids.len(), 2);
    assert_eq!(state.recent_ids.back().unwrap(), "c");
    assert_eq!(*state.use_counts.get("a").unwrap(), 2);
    assert_eq!(*state.use_counts.get("b").unwrap(), 1);
    assert_eq!(state.total_uses(), 4);

    // With "a" and "c" recent, only "d" is fresh; then "a" is the only one.
    let available = vec!["a".to_string(), "c".to_string(), "d".to_string()];
    assert_eq!(state.select_interjection(&available).unwrap(), "d");
    assert_eq!(state.select_interjection(&available).unwrap(), "a");
    assert_eq!(*state.use_counts.get("a").unwrap(), 3);
    assert_eq!(state.total_uses(), 6);
    // When every one is recent, any may come back.
    let recent_only = vec!["d".to_string(), "a".to_string()];
    let picked = state.select_interjection(&recent_only).unwrap();
    assert!(recent_only.contains(&picked));
    assert!(state.select_interjection(&[]).is_none());
}

#[test]
fn test_buffer_push_pop() {
    let mut buffer: AudioQueue<f32> = AudioQueue::new();

    let chunk = AudioChunk {
        samples: vec![0.1; 2400], // 0.1 seconds at 24kHz
        sample_rate: 24000,
        channels: 1,
    };

    buffer.push_back(chunk.clone());
    assert_eq!(buffer.chunk_count(), 1);

    let samples = buffer.pop_block(2400, 0.0);
    assert_eq!(samples.len(), 2400);
    assert!(buffer.is_empty());
}

#[test]
fn test_buffer_underrun() {
    let mut buffer: AudioQueue<i16> = AudioQueue::new();

    // Try to pop from empty buffer
    let samples = buffer.pop_block(2400, 0);
    assert_eq!(samples.len(), 2400);
    // Should be silence (zeros)
    assert!(samples.iter().all(|&s| s == 0));
}

#[test]
fn audio_queue_keeps_order_across_chunks() {
    let mut q: AudioQueue<i16> = AudioQueue::new();
    q.push_back(AudioChunk { samples: vec![1, 2, 3], sample_rate: 24000, channels: 1 });
    q.push_back(AudioChunk { samples: vec![], sample_rate: 24000, channels: 1 });
    q.push_back(AudioChunk { samples: vec![4, 5], sample_rate: 16000, channels: 1 });
    assert_eq!(q.pop_block(2, -1), vec![1, 2]);
    assert_eq!(q.chunk_count(), 3);
    assert_eq!(q.chunk(0).samples, vec![3]);
    assert_eq!(q.pop_block(2, -1), vec![3, 4]);
    assert_eq!(q.chunk(0).sample_rate, 16000);
    assert_eq!(q.pop_block(4, -1), vec![5, -1, -1, -1]);
    assert!(q.is_empty());
    q.push_back(AudioChunk { samples: vec![7], sample_rate: 24000, channels: 1 });
    q.clear();
    assert_eq!(q.pop_block(1, 0), vec![0]);
    assert_ne!(AudioFormat::Float32, AudioFormat::Int16);
}

#[test]
fn test_metrics_collector() {
    let mut collector = MetricsCollector::new();
    collector.record_request(PipelineMetrics {
        total_latency_ms: 100,
        xtts_latency_ms: 30,
        audio_duration_ms: 500,
        cache_hit: false,
    });
    collector.record_request(PipelineMetrics {
        total_latency_ms: 200,
        xtts_latency_ms: 50,
        audio_duration_ms: 1000,
        cache_hit: true,
    });
    assert_eq!(collector.total_requests, 2);
    // The average latency (150 ms) and the cache hit rate (0.5), from the
    // integer totals the library keeps.
    assert_eq!(collector.total_latency_ms as f64 / collector.total_requests as f64, 150.0);
    assert_eq!(collector.cache_hits as f64 / collector.total_requests as f64, 0.5);
}
