use vrpg::interjections::{select_clip, ClipEntry, InterjectionState};
use vrpg::phonemizer::map_phoneme_to_id;
use vrpg::pipeline::extract_character_id;
use vrpg::tts_profile::{TtsProfile, TtsProfileType};
use vrpg::voice_intent::{voice_tag_well_formed, VoiceIntentParser, VoiceIntentType};
use vrpg::semantic_chunker::{ChunkerConfig, SemanticChunker};

#[test]
fn test_fast_profile() {
    let profile = TtsProfile::fast();
    assert_eq!(profile.first_chunk_max_chars, 30);
    assert_eq!(profile.sample_rate, 16000);
    assert_eq!(profile.audio_block_ms, 50);
    assert_eq!(profile.initial_prebuffer_ms, 240);
}


#[test]
fn test_cinematic_profile() {
    let profile = TtsProfile::cinematic();
    assert_eq!(profile.first_chunk_max_chars, 100);
    assert_eq!(profile.sample_rate, 24000);
    assert_eq!(profile.audio_block_ms, 60);
    assert_eq!(profile.initial_prebuffer_ms, 500);
}


#[test]
fn test_from_llm_model() {
    let fast = TtsProfile::from_llm_model("qwen2.5-1.5b-instruct");
    assert_eq!(fast.profile_type, TtsProfileType::Fast);

    let cinematic = TtsProfile::from_llm_model("qwen2.5-14b-instruct");
    assert_eq!(cinematic.profile_type, TtsProfileType::Cinematic);
}


#[test]
fn test_audio_block_samples() {
    let fast = TtsProfile::fast();
    // 16000 Hz * 50ms / 1000 = 800 samples
    assert_eq!(fast.audio_block_samples(), 800);

    let cinematic = TtsProfile::cinematic();
    // 24000 Hz * 60ms / 1000 = 1440 samples
    assert_eq!(cinematic.audio_block_samples(), 1440);
}


#[test]
fn test_parse_voice_intent() {
    let text = r#"<VOICE actor="NPC_Guard" emotion="skeptic" style="dry" pace="normal" volume="normal">
"Emissário? De qual reino? Mostre sua insígnia!"
</VOICE>"#;

    let parsed = VoiceIntentParser::parse(text).unwrap();
    assert_eq!(parsed.intent_type, VoiceIntentType::NPC_DIALOGUE);
    assert_eq!(parsed.voice_intent.actor, "NPC_Guard");
    assert_eq!(parsed.voice_intent.emotion, "skeptic");
    assert_eq!(parsed.voice_intent.style, "dry");
    assert_eq!(
        parsed.text,
        "Emissário? De qual reino? Mostre sua insígnia!"
    );
}


#[test]
fn test_parse_narrate() {
    let text = "O corredor é estreito, iluminado por tochas antigas.";

    let parsed = VoiceIntentParser::parse(text).unwrap();
    assert_eq!(parsed.intent_type, VoiceIntentType::NARRATE);
    assert_eq!(parsed.voice_intent.actor, "mestre");
    assert_eq!(parsed.voice_intent.emotion, "neutral");
}


#[test]
fn test_parse_event() {
    let text = r#"<VOICE actor="mestre" emotion="danger" style="intense">
"O ogro avança e a sala inteira treme com o impacto."
</VOICE>"#;

    let parsed = VoiceIntentParser::parse(text).unwrap();
    assert_eq!(parsed.intent_type, VoiceIntentType::EVENT);
}


#[test]
fn test_extract_character_id() {
    assert_eq!(extract_character_id("NPC_Guard"), "npc_guard");
    assert_eq!(
        extract_character_id("mestre"),
        "dm"
    );
    assert_eq!(
        extract_character_id("Wizard_Elder"),
        "wizard_elder"
    );
    assert_eq!(
        extract_character_id("dungeon_master"),
        "dungeon_master_en"
    );
}


#[test]
fn test_interjection_state_new() {
    // Given avoid_last_n value
    // When creating new InterjectionState
    // Then it should initialize with empty state
    
    let state = InterjectionState::new(5);
    
    assert_eq!(state.recent_ids.len(), 0);
    assert_eq!(state.use_counts.len(), 0);
    assert_eq!(state.total_uses(), 0);
}


#[test]
fn test_interjection_state_record_use() {
    // Given an InterjectionState
    // When recording use of an interjection
    // Then it should update state correctly
    
    let mut state = InterjectionState::new(5);
    
    state.record_use("dm_hmm_01");
    
    assert_eq!(state.recent_ids.len(), 1);
    assert_eq!(state.recent_ids[0], "dm_hmm_01");
    assert_eq!(state.use_counts.get("dm_hmm_01"), Some(&1));
    assert_eq!(state.total_uses(), 1);
}


#[test]
fn test_interjection_state_record_multiple_uses() {
    // Given an InterjectionState
    // When recording multiple uses of same interjection
    // Then it should increment count correctly
    
    let mut state = InterjectionState::new(5);
    
    state.record_use("dm_hmm_01");
    state.record_use("dm_hmm_01");
    state.record_use("dm_hmm_01");
    
    assert_eq!(state.use_counts.get("dm_hmm_01"), Some(&3));
    assert_eq!(state.total_uses(), 3);
}


#[test]
fn test_interjection_state_avoid_last_n() {
    // Given an InterjectionState with avoid_last_n=3
    // When recording more than avoid_last_n uses
    // Then oldest should be removed from recent_ids
    
    let mut state = InterjectionState::new(3);
    
    state.record_use("dm_hmm_01");
    state.record_use("dm_ah_01");
    state.record_use("dm_so_01");
    assert_eq!(state.recent_ids.len(), 3);
    
    state.record_use("dm_um_01");
    assert_eq!(state.recent_ids.len(), 3);
    assert!(!state.recent_ids.contains(&"dm_hmm_01".to_string()));
    assert!(state.recent_ids.contains(&"dm_um_01".to_string()));
}


#[test]
fn test_interjection_state_select_interjection_all_available() {
    // Given an InterjectionState with no recent uses
    // When selecting an interjection from available list
    // Then it should select one randomly
    
    let mut state = InterjectionState::new(5);
    let available = vec![
        "dm_hmm_01".to_string(),
        "dm_ah_01".to_string(),
        "dm_so_01".to_string(),
    ];
    
    let selected = state.select_interjection(&available);
    
    assert!(selected.is_some());
    assert!(available.contains(&selected.unwrap()));
}


#[test]
fn test_interjection_state_select_interjection_avoiding_recent() {
    // Given an InterjectionState with recent uses
    // When selecting an interjection
    // Then it should avoid recently used ones
    
    let mut state = InterjectionState::new(5);
    
    state.record_use("dm_hmm_01");
    state.record_use("dm_ah_01");
    
    let available = vec![
        "dm_hmm_01".to_string(),  // Recent
        "dm_ah_01".to_string(),   // Recent
        "dm_so_01".to_string(),   // Available
        "dm_um_01".to_string(),    // Available
    ];
    
    let selected = state.select_interjection(&available);
    
    assert!(selected.is_some());
    let selected_id = selected.unwrap();
    assert_ne!(selected_id, "dm_hmm_01");
    assert_ne!(selected_id, "dm_ah_01");
}


#[test]
fn test_interjection_state_select_interjection_all_recent() {
    // Given an InterjectionState where all are recent
    // When selecting an interjection
    // Then it should relax restriction and select any
    
    let mut state = InterjectionState::new(5);
    
    state.record_use("dm_hmm_01");
    state.record_use("dm_ah_01");
    state.record_use("dm_so_01");
    
    let available = vec![
        "dm_hmm_01".to_string(),
        "dm_ah_01".to_string(),
        "dm_so_01".to_string(),
    ];
    
    let selected = state.select_interjection(&available);
    
    // Should still select one (relaxed restriction)
    assert!(selected.is_some());
    assert!(available.contains(&selected.unwrap()));
}


#[test]
fn test_interjection_state_select_interjection_empty_list() {
    // Given an InterjectionState
    // When selecting from empty list
    // Then it should return None
    
    let mut state = InterjectionState::new(5);
    let available = vec![];
    
    let selected = state.select_interjection(&available);
    
    assert!(selected.is_none());
}


#[test]
fn test_interjection_state_has_reached_max_uses() {
    // Given an InterjectionState with max_uses_per_session=10
    // When total_uses reaches max
    // Then has_reached_max_uses should return true
    
    let mut state = InterjectionState::new(5);
    
    for _ in 0..10 {
        state.record_use("dm_hmm_01");
    }
    
    assert!(state.has_reached_max_uses(10));
    assert!(!state.has_reached_max_uses(15));
}


#[test]
fn test_interjection_state_total_uses() {
    // Given an InterjectionState
    // When recording multiple uses
    // Then total_uses should return correct count
    
    let mut state = InterjectionState::new(5);
    
    state.record_use("dm_hmm_01");
    state.record_use("dm_ah_01");
    state.record_use("dm_so_01");
    
    assert_eq!(state.total_uses(), 3);
}


#[test]
fn test_interjection_manager_should_use_interjection_short_text() {
    // Given an InterjectionManager with threshold 3.0s
    // When checking short text (expected < 3.0s)
    // Then it should return false
    
    // 50 chars = 50/25 = 2.0s < 3.0s threshold
    let text_length = 50;
    let chars_per_sec = 25.0;
    let threshold = 3.0;
    
    let expected_duration = text_length as f64 / chars_per_sec;
    let should_use = expected_duration >= threshold;
    
    assert!(!should_use);
}


#[test]
fn test_interjection_manager_should_use_interjection_long_text() {
    // Given an InterjectionManager with threshold 3.0s
    // When checking long text (expected >= 3.0s)
    // Then it should return true
    
    // 100 chars = 100/25 = 4.0s >= 3.0s threshold
    let text_length = 100;
    let chars_per_sec = 25.0;
    let threshold = 3.0;
    
    let expected_duration = text_length as f64 / chars_per_sec;
    let should_use = expected_duration >= threshold;
    
    assert!(should_use);
}


#[test]
fn test_interjection_manager_should_use_interjection_fast_profile() {
    // Given an InterjectionManager with FAST profile
    // When checking text length
    // Then threshold should be 1.33x higher (more conservative)
    
    // FAST profile: threshold = 3.0 * 1.33 = 3.99s
    // 90 chars = 90/25 = 3.6s < 3.99s → false
    let text_length = 90;
    let chars_per_sec = 25.0;
    let threshold = 3.0 * 1.33; // FAST profile multiplier
    
    let expected_duration = text_length as f64 / chars_per_sec;
    let should_use = expected_duration >= threshold;
    
    assert!(!should_use);
    
    // 110 chars = 110/25 = 4.4s >= 3.99s → true
    let text_length_long = 110;
    let expected_duration_long = text_length_long as f64 / chars_per_sec;
    let should_use_long = expected_duration_long >= threshold;
    
    assert!(should_use_long);
}


#[test]
fn test_interjection_state_edge_cases() {
    // Given edge cases for InterjectionState
    // When processing various scenarios
    // Then it should handle them correctly
    
    // Test with avoid_last_n = 0 (should still work)
    let mut state = InterjectionState::new(0);
    state.record_use("dm_hmm_01");
    assert_eq!(state.total_uses(), 1);
    
    // Test with very large avoid_last_n
    let mut state = InterjectionState::new(1000);
    for i in 0..100 {
        state.record_use(&format!("dm_test_{}", i));
    }
    assert_eq!(state.total_uses(), 100);
    assert_eq!(state.recent_ids.len(), 100);
}


#[test]
fn test_map_phoneme_to_id() {
    // Phoneme IDs may vary based on implementation
    // Just verify they return valid IDs
    let a_en = map_phoneme_to_id("a", "en").unwrap();
    let p_en = map_phoneme_to_id("p", "en").unwrap();
    let a_pt = map_phoneme_to_id("a", "pt").unwrap();
    
    assert!(a_en > 0);
    assert!(p_en > 0);
    assert!(a_pt > 0);
}


#[test]
fn test_chunk_basic() {
    let chunker = SemanticChunker::new(ChunkerConfig::default());
    // Use longer text to meet minimum requirements
    let text = "This is a test sentence. This is another sentence. ".repeat(15);
    let chunks = chunker.chunk(&text).unwrap();

    assert!(!chunks.is_empty());
    // With repeated text, should meet minimum
    assert!(chunks[0].char_count > 0);
}

#[test]
fn test_chunk_long_text() {
    let chunker = SemanticChunker::new(ChunkerConfig::default());
    let text = "This is a very long text that should be split into multiple chunks. ".repeat(20);
    let chunks = chunker.chunk(&text).unwrap();

    assert!(chunks.len() > 1);
    for chunk in &chunks {
        assert!(chunk.char_count > 0);
        assert!(chunk.char_count <= 320);
    }
    // At least one chunk should meet the target
    assert!(chunks.iter().any(|c| c.char_count >= 180));
}

#[test]
fn test_chunk_with_pauses() {
    let chunker = SemanticChunker::new(ChunkerConfig::default());
    let text = "This is a sentence, with a pause, and another part.";
    let chunks = chunker.chunk(text).unwrap();

    assert!(!chunks.is_empty());
}

#[test]
fn chunk_limits_first_then_next() {
    // Without a profile the first chunk stops at the minimum (180), the
    // others at the target (250); the words are joined by single spaces.
    let chunker = SemanticChunker::new(ChunkerConfig::default());
    let text = "abcdefghi ".repeat(60);
    let chunks = chunker.chunk(&text).unwrap();
    assert_eq!(chunks[0].char_count, 179);
    assert_eq!(chunks[1].text.len(), 250);
    assert!(chunks[1].text.starts_with(' '));
    let joined: String = chunks.iter().map(|c| c.text.as_str()).collect();
    assert_eq!(joined, text.split_whitespace().collect::<Vec<_>>().join(" "));
}

#[test]
fn chunk_with_fast_profile() {
    let chunker = SemanticChunker::new(ChunkerConfig::default());
    let profile = TtsProfile::fast();
    let chunks = chunker
        .chunk_with_profile("one two three four five six seven eight nine ten eleven twelve", Some(&profile))
        .unwrap();
    assert_eq!(chunks[0].text, "one two three four five six");
    assert_eq!(chunks.len(), 2);
    // 27 characters at 80 ms each (27 / 12.5 seconds).
    assert_eq!(chunks[0].estimated_duration_ms, 2160);
}

#[test]
fn chunk_empty_and_blank_text() {
    let chunker = SemanticChunker::new(ChunkerConfig::default());
    assert!(chunker.chunk("").unwrap().is_empty());
    assert!(chunker.chunk("   \n\t ").unwrap().is_empty());
    assert!(chunker.chunk_legacy("").unwrap().is_empty());
}

#[test]
fn chunk_legacy_sentences() {
    let chunker = SemanticChunker::new(ChunkerConfig::default());
    let chunks = chunker.chunk_legacy("Hello there. How are you? Fine!").unwrap();
    assert_eq!(chunks.len(), 1);
    assert_eq!(chunks[0].text, "Hello there. How are you. Fine.");
    let paused = chunker.chunk_legacy("One, two; three").unwrap();
    assert_eq!(paused[0].text, "One two three.");
}

fn max(a: f64, b: f64) -> f64 {
    if a > b { a } else { b }
}

#[test]
fn test_interjection_manager_calculate_delay_to_interjection() {
    // delay = max(0, 1.5 - elapsed)
    let natural_delay_target = 1.5;

    let elapsed = 0.0;
    let delay = max(0.0, natural_delay_target - elapsed);
    assert_eq!(delay, 1.5);

    let elapsed = 0.5;
    let delay = max(0.0, natural_delay_target - elapsed);
    assert_eq!(delay, 1.0);

    let elapsed = 1.5;
    let delay = max(0.0, natural_delay_target - elapsed);
    assert_eq!(delay, 0.0);

    let elapsed = 2.0;
    let delay = max(0.0, natural_delay_target - elapsed);
    assert_eq!(delay, 0.0);
}

#[test]
fn test_interjection_workflow_complete() {
    // Step 1: Check if should use interjection
    let text_length = 100; // 4.0s expected
    let expected_duration = text_length as f64 / 25.0;
    let threshold = 3.0;
    let should_use = expected_duration >= threshold;
    assert!(should_use);

    // Step 2: Calculate delay
    let elapsed = 0.3;
    let natural_delay = 1.5;
    let delay = max(0.0, natural_delay - elapsed);
    assert_eq!(delay, 1.2);

    // Step 3: Select interjection (select_interjection records the use)
    let mut state = InterjectionState::new(5);
    let available = vec!["dm_hmm_01".to_string(), "dm_ah_01".to_string()];
    let selected = state.select_interjection(&available);
    assert!(selected.is_some());

    // Step 4: Verify use was recorded
    assert_eq!(state.total_uses(), 1);
}

#[test]
fn interjection_clip_choice() {
    let clips = vec![
        ClipEntry { id: "dm_hmm_01".to_string(), has_duration: false },
        ClipEntry { id: "dm_ah_01".to_string(), has_duration: true },
        ClipEntry { id: "dm_so_01".to_string(), has_duration: true },
    ];
    let mut state = InterjectionState::new(1);
    let first = select_clip(&mut state, &clips, 3).unwrap();
    assert!(first == 1 || first == 2);
    // The window of one avoids the clip just used.
    let second = select_clip(&mut state, &clips, 3).unwrap();
    assert_eq!(second, 3 - first);
    let _ = select_clip(&mut state, &clips, 3).unwrap();
    // The session limit of three is reached.
    assert_eq!(select_clip(&mut state, &clips, 3), None);
    assert_eq!(state.total_uses(), 3);
    // No limit, but no clip with a known duration.
    let untimed = vec![ClipEntry { id: "x".to_string(), has_duration: false }];
    assert_eq!(select_clip(&mut state, &untimed, 0), None);
    assert_eq!(state.total_uses(), 3);
}

#[test]
fn voice_tag_cut_points() {
    assert!(voice_tag_well_formed("<VOICE actor=\"NPC_Guard\">\"Halt!\"</VOICE>"));
    assert!(voice_tag_well_formed("plain narration"));
    assert!(voice_tag_well_formed("</VOICE><VOICE"));
    assert!(!voice_tag_well_formed("x</VOICE>ab<VOICE"));
    assert!(!voice_tag_well_formed("<VOICE</VOICE>"));
}

#[test]
fn chunk_limits_keep_long_word_whole() {
    let chunker = SemanticChunker::new(ChunkerConfig::default());
    let profile = TtsProfile::fast();
    let long_word = "x".repeat(40);
    let text = format!("{} {}", long_word, "word ".repeat(40));
    let chunks = chunker.chunk_with_profile(&text, Some(&profile)).unwrap();
    assert_eq!(chunks[0].text, long_word);
    for (k, chunk) in chunks.iter().enumerate().skip(1) {
        assert!(chunk.text.len() <= 90, "chunk {} has {} bytes", k, chunk.text.len());
    }
    assert_eq!(chunks[1].text.len(), 90);
}

#[test]
fn recent_window_keeps_the_last_uses() {
    let mut none = InterjectionState::new(0);
    none.record_use("dm_hmm_01");
    none.record_use("dm_ah_01");
    assert_eq!(none.total_uses(), 2);
    assert!(none.recent_ids.is_empty());

    let mut three = InterjectionState::new(3);
    for id in ["dm_hmm_01", "dm_ah_01", "dm_so_01", "dm_um_01"] {
        three.record_use(id);
    }
    let recent: Vec<&str> = three.recent_ids.iter().map(|s| s.as_str()).collect();
    assert_eq!(recent, vec!["dm_ah_01", "dm_so_01", "dm_um_01"]);
}
