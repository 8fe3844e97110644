use vrpg::pipeline::{get_character_info, list_loaded_characters, voice_for_actor};
use vrpg::streaming::{prebuffer_chunk_count, streaming_profile, StreamingRequest};
use vrpg::tts_profile::{TtsProfile, TtsProfileType};
use vrpg::voice_profiles::{character_id_for_recording, CharacterType, VoiceProfile, VoiceProfileManager};
use vrpg::xtts::map_voice_to_speaker;
use vrpg::tts_api::{health, voices};

fn profile(id: &str, name: &str) -> VoiceProfile {
    VoiceProfile {
        character_id: id.to_string(),
        name: name.to_string(),
        character_type: CharacterType::NPC,
        xtts_embedding_path: None,
        default_emotion: "neutral".to_string(),
        default_style: "neutral".to_string(),
        supported_emotions: vec!["neutral".to_string()],
        supported_styles: vec!["neutral".to_string()],
    }
}

#[test]
fn test_voice_profile_manager() {
    let mut manager = VoiceProfileManager::new("test_models");

    manager.load_profile(profile("test_character", "Test Character")).unwrap();
    let loaded = manager.get_profile("test_character");
    assert!(loaded.is_some());
    assert_eq!(loaded.unwrap().name, "Test Character");
}

#[test]
fn voice_profile_replaced_by_id() {
    let mut manager = VoiceProfileManager::new("voices");
    manager.load_profile(profile("guard", "Guard")).unwrap();
    manager.load_profile(profile("wizard", "Wizard")).unwrap();
    manager.load_profile(profile("guard", "Old Guard")).unwrap();
    assert_eq!(manager.list_profiles().len(), 2);
    assert_eq!(manager.get_profile("guard").unwrap().name, "Old Guard");
    assert_eq!(manager.get_profile("wizard").unwrap().name, "Wizard");
    assert!(manager.get_profile("king").is_none());
    assert_eq!(list_loaded_characters(&manager), vec!["guard".to_string(), "wizard".to_string()]);
}

#[test]
fn voice_default_profiles() {
    let mut manager = VoiceProfileManager::new("models");
    manager.load_default_profiles().unwrap();
    let dm = manager.get_profile("dm").unwrap();
    assert_eq!(dm.name, "Mestre");
    assert_eq!(dm.character_type, CharacterType::DungeonMaster);
    assert!(dm.xtts_embedding_path.is_none());
    assert_eq!(dm.supported_emotions, vec!["neutral", "calm", "authoritative", "dramatic"]);
    let path = manager.get_xtts_embedding_path("lax_barros").unwrap();
    assert!(path.starts_with("models"));
    assert!(path.ends_with("narrator_default_xtts_reference_clean.wav"));
    assert!(manager.get_xtts_embedding_path("dm").is_none());
}

#[test]
fn voice_recordings_discovered() {
    assert_eq!(character_id_for_recording("narrator_default_xtts_reference_clean"), "lax_barros");
    assert_eq!(character_id_for_recording("old_sage_xtts_reference"), "old_sage");
    assert_eq!(character_id_for_recording("goblin"), "goblin");

    let mut manager = VoiceProfileManager::new("models");
    manager.load_defaults_with("models/narrator.wav".to_string());
    manager.discover_recording("narrator_default_xtts_reference_clean", "emb/narrator.wav".to_string());
    manager.discover_recording("old_sage_xtts_reference", "emb/old_sage_xtts_reference.wav".to_string());
    assert_eq!(manager.list_profiles().len(), 3);
    assert_eq!(manager.get_xtts_embedding_path("lax_barros").unwrap(), "emb/narrator.wav");
    let sage = manager.get_profile("old_sage").unwrap();
    assert_eq!(sage.name, "old sage");
    assert_eq!(sage.character_type, CharacterType::NPC);
    assert_eq!(sage.supported_styles, vec!["neutral", "dry", "warm"]);
    assert_eq!(sage.xtts_embedding_path.as_deref(), Some("emb/old_sage_xtts_reference.wav"));
}

#[test]
fn pipeline_voice_choice() {
    let mut manager = VoiceProfileManager::new("models");
    manager.load_profile(profile("npc_guard", "Guard")).unwrap();
    assert_eq!(voice_for_actor(&manager, "NPC_Guard"), "npc_guard");
    assert_eq!(voice_for_actor(&manager, "Wizard_Elder"), "dm");
    assert_eq!(voice_for_actor(&manager, "mestre"), "dm");

    let (emotions, styles) = get_character_info(&manager, "npc_guard").unwrap();
    assert_eq!(emotions, vec!["neutral", "happy", "sad", "angry"]);
    assert_eq!(styles, vec!["normal", "whisper", "shout"]);
    assert!(get_character_info(&manager, "nobody").is_none());
}

#[test]
fn xtts_speaker_for_voice() {
    assert_eq!(map_voice_to_speaker("dm").as_deref(), Some("Ana Florence"));
    assert_eq!(map_voice_to_speaker("monster").as_deref(), Some("Ana Florence"));
    assert_eq!(map_voice_to_speaker("lax_barros"), None);
}

#[test]
fn streaming_profile_and_prebuffer() {
    let mut request = StreamingRequest {
        text: "Hello".to_string(),
        character_id: "dm".to_string(),
        language: "en".to_string(),
        profile: None,
        llm_model_name: Some("qwen2.5-1.5b-instruct".to_string()),
        user_speech_end_ts: None,
    };
    assert_eq!(streaming_profile(&request).profile_type, TtsProfileType::Fast);
    request.llm_model_name = None;
    assert_eq!(streaming_profile(&request).profile_type, TtsProfileType::Cinematic);
    request.profile = Some(TtsProfile::fast());
    request.llm_model_name = Some("qwen2.5-14b".to_string());
    assert_eq!(streaming_profile(&request), TtsProfile::fast());

    assert_eq!(prebuffer_chunk_count(10), 2);
    assert_eq!(prebuffer_chunk_count(2), 2);
    assert_eq!(prebuffer_chunk_count(1), 1);
    assert_eq!(prebuffer_chunk_count(0), 1);
}

#[test]
fn tts_health_and_voices() {
    let mut manager = VoiceProfileManager::new("models");
    manager.load_defaults_with("models/narrator.wav".to_string());
    let h = health(false, &manager);
    assert_eq!(h.status, "ok");
    assert_eq!(h.service, "tts-service");
    assert!(!h.model_loaded);
    assert_eq!(h.voices, vec!["dm".to_string(), "lax_barros".to_string()]);

    let v = voices(&manager);
    assert_eq!(v.len(), 2);
    assert_eq!(v[1].character_id, "lax_barros");
    assert_eq!(v[1].name, "lax_barros");
    assert_eq!(v[0].emotions, vec!["neutral", "happy", "sad", "angry"]);
    assert_eq!(v[0].styles, vec!["normal", "whisper", "shout"]);
}
