use vstd::prelude::*;
use std::time::Instant;
use crate::text::{chars_of, find_from, infix_from, lowercase, same_text, string_of, to_lowercase};
use crate::voice_profiles::{sheet_of, sheet_with_id, sheets_of, words, VoiceProfileManager, VoiceSheet};

verus! {

/// A request to speak text.
#[derive(Debug, Clone)]
pub struct PipelineRequest {
    /// Text from the language model, possibly with voice tags.
    pub text: String,
    /// "pt" or "en".
    pub language: String,
    /// When the user stopped speaking.
    pub user_speech_end_ts: Option<Instant>,
    /// The language model that wrote the text.
    pub llm_model_name: Option<String>,
}

/// `s` with every occurrence of `from` replaced by `to`, left to right
/// (`str::replace`).
pub open spec fn replace_all(s: Seq<char>, from: Seq<char>, to: Seq<char>) -> Seq<char>
    decreases s.len(),
{
    if from.len() == 0 {
        s
    } else {
        match infix_from(s, from, 0) {
            None => s,
            Some(i) => {
                if 0 <= i && i + from.len() <= s.len() {
                    s.take(i) + to + replace_all(s.skip(i + from.len()), from, to)
                } else {
                    s
                }
            },
        }
    }
}

proof fn lemma_infix_bounds(h: Seq<char>, n: Seq<char>, i: int)
    ensures
        infix_from(h, n, i) matches Some(k) ==> i <= k && k + n.len() <= h.len(),
    decreases h.len() + 1 - i,
{
    if !(i < 0 || i + n.len() > h.len()) && h.subrange(i, i + n.len()) != n {
        lemma_infix_bounds(h, n, i + 1);
    }
}

/// Replaces every `from` in `s` by `to`.
pub(crate) fn replace_chars(s: &[char], from: &[char], to: &[char]) -> (r: Vec<char>)
    requires
        from@.len() > 0,
    ensures
        r@ == replace_all(s@, from@, to@),
{
    let mut out: Vec<char> = Vec::new();
    let mut pos: usize = 0;
    let n = s.len();
    assert(s@.skip(0) == s@);
    assert(out@ + replace_all(s@, from@, to@) == replace_all(s@, from@, to@));
    loop
        invariant
            pos <= n == s@.len(),
            from@.len() > 0,
            out@ + replace_all(s@.skip(pos as int), from@, to@) == replace_all(s@, from@, to@),
        decreases n - pos,
    {
        let rest = crate::text::sub_chars(s, pos, n);
        assert(rest@ == s@.skip(pos as int));
        proof { lemma_infix_bounds(rest@, from@, 0); }
        match find_from(rest.as_slice(), from, 0) {
            None => {
                let ghost before = out@;
                let mut k: usize = 0;
                while k < rest.len()
                    invariant
                        k <= rest@.len(),
                        out@ == before + rest@.take(k as int),
                    decreases rest@.len() - k,
                {
                    out.push(rest[k]);
                    k = k + 1;
                    assert(out@ == before + rest@.take(k as int));
                }
                assert(rest@.take(rest@.len() as int) == rest@);
                return out;
            },
            Some(i) => {
                let ghost before = out@;
                let mut k: usize = 0;
                while k < i
                    invariant
                        k <= i <= rest@.len(),
                        out@ == before + rest@.take(k as int),
                    decreases i - k,
                {
                    out.push(rest[k]);
                    k = k + 1;
                    assert(out@ == before + rest@.take(k as int));
                }
                let ghost mid = out@;
                let mut t: usize = 0;
                while t < to.len()
                    invariant
                        t <= to@.len(),
                        out@ == mid + to@.take(t as int),
                    decreases to@.len() - t,
                {
                    out.push(to[t]);
                    t = t + 1;
                    assert(out@ == mid + to@.take(t as int));
                }
                assert(to@.take(to@.len() as int) == to@);
                assert(rest@.skip(i + from@.len()) == s@.skip(pos + i + from@.len()));
                assert(out@ + replace_all(s@.skip(pos + i + from@.len()), from@, to@)
                    == before + replace_all(rest@, from@, to@));
                pos = pos + i + from.len();
            },
        }
    }
}

/// The voice a character is spoken with: "dm" for the game master,
/// "dungeon_master_en" for the dungeon master, otherwise the actor
/// lower-cased (with any remaining "NPC_" and "PLAYER_" written in lower
/// case).
pub open spec fn character_id(actor: Seq<char>) -> Seq<char> {
    if actor == "mestre"@ || actor == "dm"@ {
        "dm"@
    } else if actor == "dungeon_master"@ || actor == "dungeon_master_en"@ {
        "dungeon_master_en"@
    } else {
        replace_all(replace_all(lowercase(actor), "NPC_"@, "npc_"@), "PLAYER_"@, "player_"@)
    }
}

/// The voice a character is spoken with (see `character_id`).
pub fn extract_character_id(actor: &str) -> (id: String)
    ensures
        id@ == character_id(actor@),
{
    if same_text(actor, "mestre") || same_text(actor, "dm") {
        String::from_str("dm")
    } else if same_text(actor, "dungeon_master") || same_text(actor, "dungeon_master_en") {
        String::from_str("dungeon_master_en")
    } else {
        let lower = to_lowercase(actor);
        let cs = chars_of(lower.as_str());
        let npc_from = chars_of("NPC_");
        let npc_to = chars_of("npc_");
        let player_from = chars_of("PLAYER_");
        let player_to = chars_of("player_");
        proof {
            reveal_strlit("NPC_");
            reveal_strlit("PLAYER_");
        }
        let a = replace_chars(cs.as_slice(), npc_from.as_slice(), npc_to.as_slice());
        let b = replace_chars(a.as_slice(), player_from.as_slice(), player_to.as_slice());
        string_of(b.as_slice())
    }
}

/// The voice a character speaks with: its own when it has a profile, the
/// game master's ("dm") otherwise.
pub open spec fn voice_for(profiles: Seq<VoiceSheet>, id: Seq<char>) -> Seq<char> {
    if sheet_with_id(profiles, id) is Some { id } else { "dm"@ }
}

/// The voice the actor of a text speaks with (see `voice_for` and
/// `character_id`).
pub fn voice_for_actor(profiles: &VoiceProfileManager, actor: &str) -> (v: String)
    ensures
        v@ == voice_for(profiles@, character_id(actor@)),
{
    let id = extract_character_id(actor);
    match profiles.get_profile(id.as_str()) {
        Some(_) => id,
        None => String::from_str("dm"),
    }
}

/// The emotions and styles offered for every character that has a profile.
pub open spec fn offered_emotions() -> Seq<Seq<char>> {
    seq!["neutral"@, "happy"@, "sad"@, "angry"@]
}

pub open spec fn offered_styles() -> Seq<Seq<char>> {
    seq!["normal"@, "whisper"@, "shout"@]
}

/// The emotions and styles a character can be spoken with: the same for
/// every character that has a profile; none for the others.
pub fn get_character_info(profiles: &VoiceProfileManager, character_id: &str) -> (r: Option<(Vec<String>, Vec<String>)>)
    ensures
        sheet_with_id(profiles@, character_id@) is None ==> r is None,
        sheet_with_id(profiles@, character_id@) is Some ==> (r matches Some(lists)
            && words(lists.0@) == offered_emotions() && words(lists.1@) == offered_styles()),
{
    match profiles.get_profile(character_id) {
        None => None,
        Some(_) => {
            let mut e: Vec<String> = Vec::new();
            e.push(String::from_str("neutral"));
            e.push(String::from_str("happy"));
            e.push(String::from_str("sad"));
            e.push(String::from_str("angry"));
            let mut s: Vec<String> = Vec::new();
            s.push(String::from_str("normal"));
            s.push(String::from_str("whisper"));
            s.push(String::from_str("shout"));
            assert(words(e@) =~= offered_emotions());
            assert(words(s@) =~= offered_styles());
            Some((e, s))
        },
    }
}

/// The characters that have a profile, in the order they were loaded.
pub fn list_loaded_characters(profiles: &VoiceProfileManager) -> (r: Vec<String>)
    ensures
        r@.len() == profiles@.len(),
        forall|i: int| 0 <= i < r@.len() ==> (#[trigger] r@[i])@ == profiles@[i].character_id,
{
    let all = profiles.list_profiles();
    let mut out: Vec<String> = Vec::new();
    let mut i: usize = 0;
    while i < all.len()
        invariant
            i <= all@.len(),
            sheets_of(all@) == profiles@,
            out@.len() == i,
            forall|k: int| 0 <= k < i ==> (#[trigger] out@[k])@ == profiles@[k].character_id,
        decreases all@.len() - i,
    {
        assert(sheets_of(all@)[i as int] == sheet_of(all@[i as int]));
        out.push(all[i].character_id.clone());
        i = i + 1;
    }
    out
}

} // verus!
