use vstd::prelude::*;
use crate::pipeline::{get_character_info, list_loaded_characters, offered_emotions, offered_styles};
use crate::voice_profiles::{lemma_loaded_has_profile, words, VoiceProfileManager};

verus! {

/// The speech service's health.
#[derive(Debug, Clone)]
pub struct HealthResponse {
    pub status: String,
    pub service: String,
    pub version: String,
    pub model_loaded: bool,
    /// The characters that have a voice.
    pub voices: Vec<String>,
}

/// A voice as listed.
#[derive(Debug, Clone)]
pub struct VoiceInfo {
    pub character_id: String,
    pub name: String,
    pub emotions: Vec<String>,
    pub styles: Vec<String>,
}

/// The service is up; it reports whether the model is loaded and the
/// characters that have a voice, in the order they were loaded.
pub fn health(model_loaded: bool, profiles: &VoiceProfileManager) -> (r: HealthResponse)
    ensures
        r.status@ == "ok"@,
        r.service@ == "tts-service"@,
        r.version@ == "1.0.0"@,
        r.model_loaded == model_loaded,
        r.voices@.len() == profiles@.len(),
        forall|i: int| 0 <= i < r.voices@.len() ==> (#[trigger] r.voices@[i])@ == profiles@[i].character_id,
{
    HealthResponse {
        status: String::from_str("ok"),
        service: String::from_str("tts-service"),
        version: String::from_str("1.0.0"),
        model_loaded,
        voices: list_loaded_characters(profiles),
    }
}

/// Every loaded voice, named by its character, with the emotions and
/// styles offered.
pub fn voices(profiles: &VoiceProfileManager) -> (r: Vec<VoiceInfo>)
    ensures
        r@.len() == profiles@.len(),
        forall|i: int| 0 <= i < r@.len() ==> {
            &&& (#[trigger] r@[i]).character_id@ == profiles@[i].character_id
            &&& r@[i].name@ == profiles@[i].character_id
            &&& words(r@[i].emotions@) == offered_emotions()
            &&& words(r@[i].styles@) == offered_styles()
        },
{
    let ids = list_loaded_characters(profiles);
    let mut out: Vec<VoiceInfo> = Vec::new();
    let mut i: usize = 0;
    while i < ids.len()
        invariant
            i <= ids@.len() == profiles@.len(),
            forall|k: int| 0 <= k < ids@.len() ==> (#[trigger] ids@[k])@ == profiles@[k].character_id,
            out@.len() == i,
            forall|k: int| 0 <= k < i ==> {
                &&& (#[trigger] out@[k]).character_id@ == profiles@[k].character_id
                &&& out@[k].name@ == profiles@[k].character_id
                &&& words(out@[k].emotions@) == offered_emotions()
                &&& words(out@[k].styles@) == offered_styles()
            },
        decreases ids@.len() - i,
    {
        let id = &ids[i];
        proof { lemma_loaded_has_profile(profiles@, i as int); }
        match get_character_info(profiles, id.as_str()) {
            Some((emotions, styles)) => {
                out.push(VoiceInfo { character_id: id.clone(), name: id.clone(), emotions, styles });
            },
            None => {
                assert(false);
            },
        }
        i = i + 1;
    }
    out
}

} // verus!
