use vstd::prelude::*;
use crate::text::same_text;

verus! {

/// The voices that have a speaker of the synthesis model.
pub open spec fn has_speaker(voice_id: Seq<char>) -> bool {
    voice_id == "dm"@ || voice_id == "npc_male"@ || voice_id == "npc_female"@ || voice_id == "monster"@
}

/// The model speaker a voice is rendered with: "Ana Florence" for the known
/// voices, none (the model's default speaker) for the others.
pub fn map_voice_to_speaker(voice_id: &str) -> (r: Option<String>)
    ensures
        has_speaker(voice_id@) ==> (r matches Some(s) && s@ == "Ana Florence"@),
        !has_speaker(voice_id@) ==> r is None,
{
    if same_text(voice_id, "dm") || same_text(voice_id, "npc_male") || same_text(voice_id, "npc_female")
        || same_text(voice_id, "monster") {
        Some(String::from_str("Ana Florence"))
    } else {
        None
    }
}

} // verus!
