use vstd::prelude::*;
use crate::pipeline::{replace_all, replace_chars};
use crate::text::{chars_of, same_text, string_of};
use crate::tts_error::TtsError;

verus! {

/// The kinds of characters that speak.
#[derive(Debug, Clone, Copy, PartialEq, Eq, Structural)]
pub enum CharacterType {
    DungeonMaster,
    NPC,
    Player,
    Monster,
}

/// The voice of one character.
#[derive(Debug, Clone)]
pub struct VoiceProfile {
    pub character_id: String,
    pub name: String,
    pub character_type: CharacterType,
    /// Where the reference recording of the voice is, if it has one.
    pub xtts_embedding_path: Option<String>,
    pub default_emotion: String,
    pub default_style: String,
    pub supported_emotions: Vec<String>,
    pub supported_styles: Vec<String>,
}

/// A voice profile as text.
#[verifier::ext_equal]
pub struct VoiceSheet {
    pub character_id: Seq<char>,
    pub name: Seq<char>,
    pub character_type: CharacterType,
    pub xtts_embedding_path: Option<Seq<char>>,
    pub default_emotion: Seq<char>,
    pub default_style: Seq<char>,
    pub supported_emotions: Seq<Seq<char>>,
    pub supported_styles: Seq<Seq<char>>,
}

/// The texts of a list of strings.
pub open spec fn words(v: Seq<String>) -> Seq<Seq<char>> {
    v.map_values(|s: String| s@)
}

/// The profile as text.
pub open spec fn sheet_of(p: VoiceProfile) -> VoiceSheet {
    VoiceSheet {
        character_id: p.character_id@,
        name: p.name@,
        character_type: p.character_type,
        xtts_embedding_path: match p.xtts_embedding_path {
            Some(s) => Some(s@),
            None => None,
        },
        default_emotion: p.default_emotion@,
        default_style: p.default_style@,
        supported_emotions: words(p.supported_emotions@),
        supported_styles: words(p.supported_styles@),
    }
}

/// The profiles as text.
pub open spec fn sheets_of(ps: Seq<VoiceProfile>) -> Seq<VoiceSheet> {
    ps.map_values(|p: VoiceProfile| sheet_of(p))
}

/// The position of the first profile of the character, or the length.
pub open spec fn first_with_id(ps: Seq<VoiceSheet>, id: Seq<char>) -> nat
    decreases ps.len(),
{
    if ps.len() == 0 {
        0
    } else if ps[0].character_id == id {
        0
    } else {
        1 + first_with_id(ps.drop_first(), id)
    }
}

/// The profile of the character.
pub open spec fn sheet_with_id(ps: Seq<VoiceSheet>, id: Seq<char>) -> Option<VoiceSheet> {
    let i = first_with_id(ps, id) as int;
    if i < ps.len() { Some(ps[i]) } else { None }
}

/// The profiles after loading `p`: it replaces the profile of the same
/// character, or joins the end.
pub open spec fn with_sheet(ps: Seq<VoiceSheet>, p: VoiceSheet) -> Seq<VoiceSheet> {
    let i = first_with_id(ps, p.character_id) as int;
    if i < ps.len() { ps.update(i, p) } else { ps.push(p) }
}

proof fn lemma_first_with_id(ps: Seq<VoiceSheet>, id: Seq<char>, i: int)
    requires
        0 <= i <= ps.len(),
        forall|j: int| 0 <= j < i ==> (#[trigger] ps[j]).character_id != id,
        i < ps.len() ==> ps[i].character_id == id,
    ensures
        first_with_id(ps, id) == i,
    decreases i,
{
    if i > 0 {
        assert forall|j: int| 0 <= j < i - 1 implies (#[trigger] ps.drop_first()[j]).character_id != id by {
            assert(ps.drop_first()[j] == ps[j + 1]);
        }
        lemma_first_with_id(ps.drop_first(), id, i - 1);
    }
}

/// The emotions and styles of the game master's voices.
pub open spec fn narrator_emotions() -> Seq<Seq<char>> {
    seq!["neutral"@, "calm"@, "authoritative"@, "dramatic"@]
}

pub open spec fn narrator_styles() -> Seq<Seq<char>> {
    seq!["neutral"@, "narrative"@, "dramatic"@]
}

/// The emotions and styles of a voice found by its recording.
pub open spec fn npc_emotions() -> Seq<Seq<char>> {
    seq!["neutral"@, "calm"@, "angry"@, "fear"@, "joy"@, "sad"@]
}

pub open spec fn npc_styles() -> Seq<Seq<char>> {
    seq!["neutral"@, "dry"@, "warm"@]
}

/// A game master's voice.
pub open spec fn narrator_sheet(id: Seq<char>, name: Seq<char>, path: Option<Seq<char>>) -> VoiceSheet {
    VoiceSheet {
        character_id: id,
        name,
        character_type: CharacterType::DungeonMaster,
        xtts_embedding_path: path,
        default_emotion: "neutral"@,
        default_style: "neutral"@,
        supported_emotions: narrator_emotions(),
        supported_styles: narrator_styles(),
    }
}

/// The voice of a character found by its recording: named by its id with
/// spaces for underscores.
pub open spec fn npc_sheet(id: Seq<char>, path: Seq<char>) -> VoiceSheet {
    VoiceSheet {
        character_id: id,
        name: replace_all(id, "_"@, " "@),
        character_type: CharacterType::NPC,
        xtts_embedding_path: Some(path),
        default_emotion: "neutral"@,
        default_style: "neutral"@,
        supported_emotions: npc_emotions(),
        supported_styles: npc_styles(),
    }
}

/// The character a recording belongs to, by its file name without the
/// extension: the reference suffixes dropped, and the old narrator name
/// read as "lax_barros".
pub open spec fn discovered_id(stem: Seq<char>) -> Seq<char> {
    let id = replace_all(replace_all(stem, "_xtts_reference_clean"@, ""@), "_xtts_reference"@, ""@);
    if id == "narrator_default"@ { "lax_barros"@ } else { id }
}

/// The profiles after finding the recording `path` of the file named
/// `stem`: the character's profile takes it, or a new voice is added.
pub open spec fn after_discovery(ps: Seq<VoiceSheet>, stem: Seq<char>, path: Seq<char>) -> Seq<VoiceSheet> {
    let id = discovered_id(stem);
    let i = first_with_id(ps, id) as int;
    if i < ps.len() {
        ps.update(i, VoiceSheet { xtts_embedding_path: Some(path), ..ps[i] })
    } else {
        ps.push(npc_sheet(id, path))
    }
}

/// Texts from literals.
fn strings(items: &[&str]) -> (v: Vec<String>)
    ensures
        v@.len() == items@.len(),
        forall|i: int| 0 <= i < items@.len() ==> (#[trigger] v@[i])@ == items@[i]@,
{
    let mut v: Vec<String> = Vec::new();
    let mut i: usize = 0;
    while i < items.len()
        invariant
            i <= items@.len(),
            v@.len() == i,
            forall|k: int| 0 <= k < i ==> (#[trigger] v@[k])@ == items@[k]@,
        decreases items@.len() - i,
    {
        v.push(String::from_str(items[i]));
        i = i + 1;
    }
    v
}

fn narrator_lists() -> (r: (Vec<String>, Vec<String>))
    ensures
        words(r.0@) == narrator_emotions(),
        words(r.1@) == narrator_styles(),
{
    let mut e: Vec<String> = Vec::new();
    e.push(String::from_str("neutral"));
    e.push(String::from_str("calm"));
    e.push(String::from_str("authoritative"));
    e.push(String::from_str("dramatic"));
    let mut s: Vec<String> = Vec::new();
    s.push(String::from_str("neutral"));
    s.push(String::from_str("narrative"));
    s.push(String::from_str("dramatic"));
    assert(words(e@) =~= narrator_emotions());
    assert(words(s@) =~= narrator_styles());
    (e, s)
}

fn npc_lists() -> (r: (Vec<String>, Vec<String>))
    ensures
        words(r.0@) == npc_emotions(),
        words(r.1@) == npc_styles(),
{
    let mut e: Vec<String> = Vec::new();
    e.push(String::from_str("neutral"));
    e.push(String::from_str("calm"));
    e.push(String::from_str("angry"));
    e.push(String::from_str("fear"));
    e.push(String::from_str("joy"));
    e.push(String::from_str("sad"));
    let mut s: Vec<String> = Vec::new();
    s.push(String::from_str("neutral"));
    s.push(String::from_str("dry"));
    s.push(String::from_str("warm"));
    assert(words(e@) =~= npc_emotions());
    assert(words(s@) =~= npc_styles());
    (e, s)
}

/// Replaces every `from` in `s` by `to`.
fn replaced(s: &str, from: &str, to: &str) -> (r: String)
    requires
        from@.len() > 0,
    ensures
        r@ == replace_all(s@, from@, to@),
{
    let sv = chars_of(s);
    let fv = chars_of(from);
    let tv = chars_of(to);
    let out = replace_chars(sv.as_slice(), fv.as_slice(), tv.as_slice());
    string_of(out.as_slice())
}

/// The character a recording belongs to (see `discovered_id`).
pub fn character_id_for_recording(stem: &str) -> (id: String)
    ensures
        id@ == discovered_id(stem@),
{
    proof {
        reveal_strlit("_xtts_reference_clean");
        reveal_strlit("_xtts_reference");
    }
    let a = replaced(stem, "_xtts_reference_clean", "");
    let b = replaced(a.as_str(), "_xtts_reference", "");
    if same_text(b.as_str(), "narrator_default") {
        String::from_str("lax_barros")
    } else {
        b
    }
}

/// Calls `std::path::Path::join` to place a file in a directory, and
/// writes the path as text (`to_string_lossy`).  The separator depends on
/// the platform, so nothing is stated of the result.
#[verifier::external_body]
fn join_path(base: &str, file: &str) -> String {
    std::path::Path::new(base).join(file).to_string_lossy().into_owned()
}

/// The voice profiles of the characters, one per character.
pub struct VoiceProfileManager {
    profiles: Vec<VoiceProfile>,
    base_path: String,
}

impl View for VoiceProfileManager {
    type V = Seq<VoiceSheet>;

    /// The profiles in the order they were first loaded.
    closed spec fn view(&self) -> Seq<VoiceSheet> {
        sheets_of(self.profiles@)
    }
}

impl VoiceProfileManager {
    /// The directory the voices' files are in.
    pub closed spec fn base(&self) -> Seq<char> {
        self.base_path@
    }

    /// No profiles, with the voices' files in `base_path`.
    pub fn new(base_path: &str) -> (m: Self)
        ensures
            m@.len() == 0,
            m.base() == base_path@,
    {
        VoiceProfileManager { profiles: Vec::new(), base_path: String::from_str(base_path) }
    }

    /// Loads a profile, replacing the character's previous one.
    pub fn load_profile(&mut self, profile: VoiceProfile) -> (res: Result<(), TtsError>)
        ensures
            res is Ok,
            final(self)@ == with_sheet(old(self)@, sheet_of(profile)),
            final(self).base() == old(self).base(),
    {
        let ghost id = profile.character_id@;
        let mut i: usize = 0;
        while i < self.profiles.len()
            invariant
                i <= self.profiles@.len(),
                self.profiles@ == old(self).profiles@,
                self.base_path == old(self).base_path,
                id == profile.character_id@,
                forall|j: int| 0 <= j < i ==> (#[trigger] sheets_of(self.profiles@)[j]).character_id != id,
            decreases self.profiles@.len() - i,
        {
            assert(sheets_of(self.profiles@)[i as int] == sheet_of(self.profiles@[i as int]));
            if same_text(self.profiles[i].character_id.as_str(), profile.character_id.as_str()) {
                proof { lemma_first_with_id(sheets_of(self.profiles@), id, i as int); }
                let ghost before = self.profiles@;
                self.profiles.set(i, profile);
                assert(sheets_of(self.profiles@) =~= sheets_of(before).update(i as int, sheet_of(profile)));
                return Ok(());
            }
            i = i + 1;
        }
        proof { lemma_first_with_id(sheets_of(self.profiles@), id, i as int); }
        let ghost before = self.profiles@;
        self.profiles.push(profile);
        assert(sheets_of(self.profiles@) =~= sheets_of(before).push(sheet_of(profile)));
        Ok(())
    }

    /// Where the character's profile is stored.
    fn position_of(&self, character_id: &str) -> (r: Option<usize>)
        ensures
            match r {
                None => first_with_id(self@, character_id@) == self@.len(),
                Some(i) => i < self@.len() && first_with_id(self@, character_id@) == i,
            },
    {
        let mut i: usize = 0;
        while i < self.profiles.len()
            invariant
                i <= self.profiles@.len(),
                forall|j: int| 0 <= j < i ==> (#[trigger] sheets_of(self.profiles@)[j]).character_id != character_id@,
            decreases self.profiles@.len() - i,
        {
            assert(sheets_of(self.profiles@)[i as int] == sheet_of(self.profiles@[i as int]));
            if same_text(self.profiles[i].character_id.as_str(), character_id) {
                proof { lemma_first_with_id(sheets_of(self.profiles@), character_id@, i as int); }
                return Some(i);
            }
            i = i + 1;
        }
        proof { lemma_first_with_id(sheets_of(self.profiles@), character_id@, i as int); }
        None
    }

    /// The character's profile.
    pub fn get_profile(&self, character_id: &str) -> (r: Option<&VoiceProfile>)
        ensures
            match sheet_with_id(self@, character_id@) {
                None => r is None,
                Some(s) => r matches Some(p) && sheet_of(*p) == s,
            },
    {
        match self.position_of(character_id) {
            None => None,
            Some(i) => Some(&self.profiles[i]),
        }
    }

    /// Every profile.
    pub fn list_profiles(&self) -> (r: &[VoiceProfile])
        ensures
            sheets_of(r@) == self@,
    {
        self.profiles.as_slice()
    }

    /// Where the character's reference recording is, if the character has
    /// a profile with one.
    pub fn get_xtts_embedding_path(&self, character_id: &str) -> (r: Option<String>)
        ensures
            match sheet_with_id(self@, character_id@) {
                None => r is None,
                Some(s) => match s.xtts_embedding_path {
                    None => r is None,
                    Some(p) => r matches Some(x) && x@ == p,
                },
            },
    {
        match self.position_of(character_id) {
            None => None,
            Some(i) => {
                assert(sheets_of(self.profiles@)[i as int] == sheet_of(self.profiles@[i as int]));
                match &self.profiles[i].xtts_embedding_path {
                    None => None,
                    Some(p) => Some(p.clone()),
                }
            },
        }
    }

    /// Loads the game master's two voices: "dm" ("Mestre"), the model's own
    /// voice, and "lax_barros" ("Lax Barros"), recorded at `narrator_path`.
    pub fn load_defaults_with(&mut self, narrator_path: String)
        ensures
            final(self)@ == with_sheet(with_sheet(old(self)@, narrator_sheet("dm"@, "Mestre"@, None)),
                narrator_sheet("lax_barros"@, "Lax Barros"@, Some(narrator_path@))),
            final(self).base() == old(self).base(),
    {
        let (e, s) = narrator_lists();
        let dm = VoiceProfile {
            character_id: String::from_str("dm"),
            name: String::from_str("Mestre"),
            character_type: CharacterType::DungeonMaster,
            xtts_embedding_path: None,
            default_emotion: String::from_str("neutral"),
            default_style: String::from_str("neutral"),
            supported_emotions: e,
            supported_styles: s,
        };
        assert(sheet_of(dm) =~~= narrator_sheet("dm"@, "Mestre"@, None));
        let _ = self.load_profile(dm);
        let (e2, s2) = narrator_lists();
        let lax = VoiceProfile {
            character_id: String::from_str("lax_barros"),
            name: String::from_str("Lax Barros"),
            character_type: CharacterType::DungeonMaster,
            xtts_embedding_path: Some(narrator_path),
            default_emotion: String::from_str("neutral"),
            default_style: String::from_str("neutral"),
            supported_emotions: e2,
            supported_styles: s2,
        };
        assert(sheet_of(lax) =~~= narrator_sheet("lax_barros"@, "Lax Barros"@, Some(narrator_path@)));
        let _ = self.load_profile(lax);
    }

    /// Loads the game master's two voices, the second recorded in the
    /// voices' directory (see `load_defaults_with`).  Finding further
    /// recordings is `discover_recording`'s part.
    pub fn load_default_profiles(&mut self) -> (res: Result<(), TtsError>)
        ensures
            res is Ok,
            exists|path: Seq<char>| #[trigger] final(self)@ == with_sheet(with_sheet(old(self)@,
                narrator_sheet("dm"@, "Mestre"@, None)), narrator_sheet("lax_barros"@, "Lax Barros"@, Some(path))),
            final(self).base() == old(self).base(),
    {
        let path = join_path(self.base_path.as_str(), "narrator_default_xtts_reference_clean.wav");
        self.load_defaults_with(path);
        Ok(())
    }

    /// Takes in the recording at `path` of the file named `stem` (without
    /// its extension): the character's profile gets it, or a new voice is
    /// added (see `after_discovery`).
    pub fn discover_recording(&mut self, stem: &str, path: String)
        ensures
            final(self)@ == after_discovery(old(self)@, stem@, path@),
            final(self).base() == old(self).base(),
    {
        let id = character_id_for_recording(stem);
        match self.position_of(id.as_str()) {
            Some(i) => {
                let ghost before = self.profiles@;
                let mut p = self.profiles.remove(i);
                p.xtts_embedding_path = Some(path);
                self.profiles.insert(i, p);
                assert(sheets_of(self.profiles@) =~= sheets_of(before).update(i as int,
                    VoiceSheet { xtts_embedding_path: Some(path@), ..sheets_of(before)[i as int] }));
            },
            None => {
                let (e, s) = npc_lists();
                proof { reveal_strlit("_"); }
                let name = replaced(id.as_str(), "_", " ");
                let p = VoiceProfile {
                    character_id: id,
                    name,
                    character_type: CharacterType::NPC,
                    xtts_embedding_path: Some(path),
                    default_emotion: String::from_str("neutral"),
                    default_style: String::from_str("neutral"),
                    supported_emotions: e,
                    supported_styles: s,
                };
                assert(sheet_of(p) =~~= npc_sheet(discovered_id(stem@), path@));
                let ghost before = self.profiles@;
                self.profiles.push(p);
                assert(sheets_of(self.profiles@) =~= sheets_of(before).push(sheet_of(p)));
            },
        }
    }
}

/// What loading gives back: after loading a profile, the character's
/// profile is the one loaded, and the other characters' are unchanged.
pub proof fn law_profile_read_after_write(ps: Seq<VoiceSheet>, p: VoiceSheet, other: Seq<char>)
    ensures
        sheet_with_id(with_sheet(ps, p), p.character_id) == Some(p),
        other != p.character_id ==> sheet_with_id(with_sheet(ps, p), other) == sheet_with_id(ps, other),
{
    let i = first_with_id(ps, p.character_id) as int;
    lemma_first_bound(ps, p.character_id);
    lemma_first_bound(ps, other);
    let qs = with_sheet(ps, p);
    assert forall|j: int| 0 <= j < i implies (#[trigger] qs[j]).character_id != p.character_id by {
        assert(qs[j] == ps[j]);
    }
    lemma_first_with_id(qs, p.character_id, i);
    let k = first_with_id(ps, other) as int;
    if other != p.character_id {
        assert forall|j: int| 0 <= j < k implies (#[trigger] qs[j]).character_id != other by {
            if j != i {
                assert(qs[j] == ps[j]);
            }
        }
        if k < ps.len() {
            assert(k != i);
            assert(qs[k] == ps[k]);
            lemma_first_with_id(qs, other, k);
        } else {
            assert forall|j: int| 0 <= j < qs.len() implies (#[trigger] qs[j]).character_id != other by {
                if j < ps.len() && j != i {
                    assert(qs[j] == ps[j]);
                }
            }
            lemma_first_with_id(qs, other, qs.len() as int);
        }
    }
}

proof fn lemma_first_bound(ps: Seq<VoiceSheet>, id: Seq<char>)
    ensures
        first_with_id(ps, id) <= ps.len(),
        first_with_id(ps, id) < ps.len() ==> ps[first_with_id(ps, id) as int].character_id == id,
        forall|j: int| 0 <= j < first_with_id(ps, id) ==> (#[trigger] ps[j]).character_id != id,
    decreases ps.len(),
{
    if ps.len() > 0 && ps[0].character_id != id {
        lemma_first_bound(ps.drop_first(), id);
        assert forall|j: int| 0 <= j < first_with_id(ps, id) implies (#[trigger] ps[j]).character_id != id by {
            if j > 0 {
                assert(ps[j] == ps.drop_first()[j - 1]);
            }
        }
    }
}

/// Every loaded character has a profile to find.
pub proof fn lemma_loaded_has_profile(ps: Seq<VoiceSheet>, i: int)
    requires
        0 <= i < ps.len(),
    ensures
        sheet_with_id(ps, ps[i].character_id) is Some,
{
    lemma_first_bound(ps, ps[i].character_id);
}

} // verus!
