use vstd::prelude::*;
use crate::text::{
    ascii_raised, ascii_text, chars_of, chars_start_with, find_char, find_from, find_infix, first_index, has_infix, lowercase, rfind_chars,
    rfind_infix, same_text, starts_with, string_of, sub_chars, text_contains, to_lowercase, to_uppercase, trim,
    trim_char, trim_char_chars, trim_chars, uppercase,
};
use crate::tts_error::TtsError;

verus! {

/// How a line is to be voiced.
#[derive(Debug, Clone)]
pub struct VoiceIntent {
    pub actor: String,
    pub emotion: String,
    pub style: String,
    /// "slow", "normal" or "fast".
    pub pace: Option<String>,
    /// "low", "normal" or "high".
    pub volume: Option<String>,
    pub context: Option<String>,
}

/// What kind of line is spoken.
#[allow(non_camel_case_types)]
#[derive(Debug, Clone, Copy, PartialEq, Eq, Structural)]
pub enum VoiceIntentType {
    NARRATE,
    NPC_DIALOGUE,
    PLAYER_DIALOGUE,
    EVENT,
    CONDITION_EXPIRE,
    SYSTEM,
}

/// A parsed line with how to voice it and its priority (higher first).
#[derive(Debug, Clone)]
pub struct ParsedVoiceIntent {
    pub intent_type: VoiceIntentType,
    pub text: String,
    pub voice_intent: VoiceIntent,
    pub priority: u8,
}

/// The type named by an upper-cased name.
pub open spec fn intent_type_named(s: Seq<char>) -> Option<VoiceIntentType> {
    if s == "NARRATE"@ {
        Some(VoiceIntentType::NARRATE)
    } else if s == "NPC_DIALOGUE"@ {
        Some(VoiceIntentType::NPC_DIALOGUE)
    } else if s == "PLAYER_DIALOGUE"@ {
        Some(VoiceIntentType::PLAYER_DIALOGUE)
    } else if s == "EVENT"@ {
        Some(VoiceIntentType::EVENT)
    } else if s == "CONDITION_EXPIRE"@ {
        Some(VoiceIntentType::CONDITION_EXPIRE)
    } else if s == "SYSTEM"@ {
        Some(VoiceIntentType::SYSTEM)
    } else {
        None
    }
}

impl VoiceIntentType {
    /// Reads a type name, letter case aside.
    pub fn from_str(s: &str) -> (res: Result<Self, TtsError>)
        ensures
            match intent_type_named(uppercase(s@)) {
                Some(t) => res == Ok::<VoiceIntentType, TtsError>(t),
                None => res matches Err(TtsError::Synthesis(m)) && m@ == "Unknown voice intent type: "@ + s@,
            },
            ascii_text(s@) ==> uppercase(s@) == ascii_raised(s@),
    {
        let upper = to_uppercase(s);
        let u = upper.as_str();
        if same_text(u, "NARRATE") {
            Ok(VoiceIntentType::NARRATE)
        } else if same_text(u, "NPC_DIALOGUE") {
            Ok(VoiceIntentType::NPC_DIALOGUE)
        } else if same_text(u, "PLAYER_DIALOGUE") {
            Ok(VoiceIntentType::PLAYER_DIALOGUE)
        } else if same_text(u, "EVENT") {
            Ok(VoiceIntentType::EVENT)
        } else if same_text(u, "CONDITION_EXPIRE") {
            Ok(VoiceIntentType::CONDITION_EXPIRE)
        } else if same_text(u, "SYSTEM") {
            Ok(VoiceIntentType::SYSTEM)
        } else {
            let mut m = String::from_str("Unknown voice intent type: ");
            m.append(s);
            Err(TtsError::Synthesis(m))
        }
    }
}

/// A parsed line as plain values.
#[verifier::ext_equal]
pub struct IntentSheet {
    pub intent_type: VoiceIntentType,
    pub text: Seq<char>,
    pub actor: Seq<char>,
    pub emotion: Seq<char>,
    pub style: Seq<char>,
    pub pace: Option<Seq<char>>,
    pub volume: Option<Seq<char>>,
    pub context: Option<Seq<char>>,
    pub priority: u8,
}

/// The view of an optional text.
pub open spec fn opt_text(o: Option<String>) -> Option<Seq<char>> {
    match o {
        Some(s) => Some(s@),
        None => None,
    }
}

impl View for ParsedVoiceIntent {
    type V = IntentSheet;

    open spec fn view(&self) -> IntentSheet {
        IntentSheet {
            intent_type: self.intent_type,
            text: self.text@,
            actor: self.voice_intent.actor@,
            emotion: self.voice_intent.emotion@,
            style: self.voice_intent.style@,
            pace: opt_text(self.voice_intent.pace),
            volume: opt_text(self.voice_intent.volume),
            context: opt_text(self.voice_intent.context),
            priority: self.priority,
        }
    }
}

/// The value up to the first `q` of `body`, trimmed, when there is such a
/// `q` and the value is not empty.
pub open spec fn quoted_value(body: Seq<char>, q: char) -> Option<Seq<char>> {
    let e = first_index(body, q) as int;
    if e < body.len() && trim(body.take(e)).len() > 0 { Some(trim(body.take(e))) } else { None }
}

/// The value that starts at position `vs` of the tag, after an optional
/// opening quote: up to a double quote, or else up to a single quote.
pub open spec fn value_at(text: Seq<char>, vs: int) -> Option<Seq<char>> {
    let rest = text.skip(vs);
    let body = if rest.len() > 0 && (rest[0] == '"' || rest[0] == '\'') { rest.skip(1) } else { rest };
    match quoted_value(body, '"') {
        Some(v) => Some(v),
        None => quoted_value(body, '\''),
    }
}

/// The value after the first `pattern` of the tag.
pub open spec fn value_after(text: Seq<char>, pattern: Seq<char>) -> Option<Seq<char>> {
    match find_infix(text, pattern) {
        None => None,
        Some(i) => value_at(text, i + pattern.len()),
    }
}

/// The value of attribute `name` in a tag: written `name="value"`, or else
/// `name = "value"` (single quotes too).
pub open spec fn attribute_value(text: Seq<char>, name: Seq<char>) -> Option<Seq<char>> {
    match value_after(text, name + "="@) {
        Some(v) => Some(v),
        None => value_after(text, name + " = "@),
    }
}

/// The kind of line: NPC and player lines by the actor's prefix (letter
/// case aside), events by a "danger" emotion or an "intense" style, the end
/// of a condition by a "solemn" emotion with "acaba" or "termina" in the
/// line, narration otherwise.
pub open spec fn intent_of(actor: Seq<char>, emotion: Seq<char>, style: Seq<char>, line: Seq<char>) -> VoiceIntentType {
    if starts_with(actor, "NPC_"@) || starts_with(lowercase(actor), "npc_"@) {
        VoiceIntentType::NPC_DIALOGUE
    } else if starts_with(actor, "PLAYER_"@) || starts_with(lowercase(actor), "player_"@) {
        VoiceIntentType::PLAYER_DIALOGUE
    } else if emotion == "danger"@ || style == "intense"@ {
        VoiceIntentType::EVENT
    } else if emotion == "solemn"@ && (has_infix(line, "acaba"@) || has_infix(line, "termina"@)) {
        VoiceIntentType::CONDITION_EXPIRE
    } else {
        VoiceIntentType::NARRATE
    }
}

/// Priority of a kind of line.
pub open spec fn priority_of(t: VoiceIntentType) -> u8 {
    match t {
        VoiceIntentType::NARRATE => 1,
        VoiceIntentType::PLAYER_DIALOGUE => 2,
        VoiceIntentType::NPC_DIALOGUE => 3,
        VoiceIntentType::EVENT => 4,
        VoiceIntentType::CONDITION_EXPIRE => 5,
        VoiceIntentType::SYSTEM => 6,
    }
}

/// The `<VOICE ...> ... </VOICE>` tag of the text: from the first `<VOICE`
/// to the end of the first `</VOICE>`, when both occur.
pub open spec fn voice_tag(text: Seq<char>) -> Option<(int, int)> {
    match (find_infix(text, "<VOICE"@), find_infix(text, "</VOICE>"@)) {
        (Some(s), Some(e)) => Some((s, e + 8)),
        _ => None,
    }
}

/// Where the spoken part of a tag starts: after the first `>`.
pub open spec fn line_start(tag: Seq<char>) -> int {
    if first_index(tag, '>') < tag.len() { first_index(tag, '>') + 1int } else { 0int }
}

/// Where the spoken part of a tag ends: at the last `</VOICE>`.
pub open spec fn line_end(tag: Seq<char>) -> int {
    match rfind_infix(tag, "</VOICE>"@) {
        Some(i) => i,
        None => tag.len() as int,
    }
}

/// The text cannot be cut as the parser cuts it: the tag would end before
/// it starts, or its spoken part would.
pub open spec fn voice_tag_malformed(text: Seq<char>) -> bool {
    match voice_tag(text) {
        None => false,
        Some((s, e)) => s > e || line_start(text.subrange(s, e)) > line_end(text.subrange(s, e)),
    }
}

/// Whether the text can be cut as the parser cuts it (see
/// `voice_tag_malformed`).
pub fn voice_tag_well_formed(text: &str) -> (b: bool)
    ensures
        b == !voice_tag_malformed(text@),
{
    let t = chars_of(text);
    let open_pat = chars_of("<VOICE");
    let close_pat = chars_of("</VOICE>");
    proof {
        reveal_strlit("</VOICE>");
    }
    let _n = t.len();
    assert(close_pat@.len() == 8);
    let s = find_from(t.as_slice(), open_pat.as_slice(), 0);
    let e = find_from(t.as_slice(), close_pat.as_slice(), 0);
    if s.is_none() || e.is_none() {
        return true;
    }
    let start = s.unwrap();
    let end = e.unwrap() + 8;
    if start > end {
        return false;
    }
    let tag = sub_chars(t.as_slice(), start, end);
    let gt = find_char(tag.as_slice(), 0, tag.len(), '>');
    proof {
        assert(tag@.subrange(0, tag@.len() as int) == tag@);
    }
    let text_start = if gt < tag.len() { gt + 1 } else { 0 };
    let text_end = match rfind_chars(tag.as_slice(), close_pat.as_slice()) {
        Some(i) => i,
        None => tag.len(),
    };
    text_start <= text_end
}

/// The spoken part of a tag: trimmed, without surrounding double and then
/// single quotes, trimmed again.
pub open spec fn spoken_line(tag: Seq<char>) -> Seq<char> {
    trim(trim_char(trim_char(trim(tag.subrange(line_start(tag), line_end(tag))), '"'), '\''))
}

/// What parsing the text gives.
pub open spec fn voice_parse(text: Seq<char>) -> IntentSheet {
    match voice_tag(text) {
        None => IntentSheet {
            intent_type: VoiceIntentType::NARRATE,
            text: trim(text),
            actor: "mestre"@,
            emotion: "neutral"@,
            style: "neutral"@,
            pace: Some("normal"@),
            volume: Some("normal"@),
            context: None,
            priority: 1,
        },
        Some((s, e)) => {
            let tag = text.subrange(s, e);
            let attrs = tag.take(first_index(tag, '>') as int);
            let actor = match attribute_value(attrs, "actor"@) { Some(v) => v, None => "mestre"@ };
            let emotion = match attribute_value(attrs, "emotion"@) { Some(v) => v, None => "neutral"@ };
            let style = match attribute_value(attrs, "style"@) { Some(v) => v, None => "neutral"@ };
            let line = spoken_line(tag);
            let t = intent_of(actor, emotion, style, line);
            IntentSheet {
                intent_type: t,
                text: line,
                actor,
                emotion,
                style,
                pace: attribute_value(attrs, "pace"@),
                volume: attribute_value(attrs, "volume"@),
                context: attribute_value(attrs, "context"@),
                priority: priority_of(t),
            }
        },
    }
}

/// Reads the value of one pattern's first occurrence.
fn value_at_chars(text: &[char], vs: usize) -> (r: Option<Vec<char>>)
    requires
        vs <= text@.len(),
    ensures
        match value_at(text@, vs as int) {
            None => r is None,
            Some(v) => r matches Some(x) && x@ == v,
        },
{
    let n = text.len();
    let ss = if vs < n && (text[vs] == '"' || text[vs] == '\'') { vs + 1 } else { vs };
    let ghost rest = text@.skip(vs as int);
    let ghost body = if rest.len() > 0 && (rest[0] == '"' || rest[0] == '\'') { rest.skip(1) } else { rest };
    assert(body == text@.subrange(ss as int, n as int));
    let e = find_char(text, ss, n, '"');
    if e < n {
        let v = trim_chars(sub_chars(text, ss, e).as_slice());
        assert(body.take(e - ss) == text@.subrange(ss as int, e as int));
        if v.len() > 0 {
            return Some(v);
        }
    }
    let e2 = find_char(text, ss, n, '\'');
    if e2 < n {
        let v = trim_chars(sub_chars(text, ss, e2).as_slice());
        assert(body.take(e2 - ss) == text@.subrange(ss as int, e2 as int));
        if v.len() > 0 {
            return Some(v);
        }
    }
    None
}

/// The value after the first occurrence of `pattern`.
fn value_after_chars(text: &[char], pattern: &[char]) -> (r: Option<Vec<char>>)
    ensures
        match value_after(text@, pattern@) {
            None => r is None,
            Some(v) => r matches Some(x) && x@ == v,
        },
{
    let _n = text.len();
    match find_from(text, pattern, 0) {
        None => None,
        Some(i) => value_at_chars(text, i + pattern.len()),
    }
}

/// `name` followed by `suffix`.
fn joined(name: &str, suffix: &str) -> (v: Vec<char>)
    ensures
        v@ == name@ + suffix@,
{
    let mut v = chars_of(name);
    let s = chars_of(suffix);
    let ghost before = v@;
    let mut i: usize = 0;
    while i < s.len()
        invariant
            i <= s@.len(),
            v@ == before + s@.take(i as int),
        decreases s@.len() - i,
    {
        v.push(s[i]);
        i = i + 1;
        assert(v@ == before + s@.take(i as int));
    }
    assert(s@.take(s@.len() as int) == s@);
    v
}

/// Text from characters, optionally.
fn opt_string(v: Option<Vec<char>>) -> (r: Option<String>)
    ensures
        match v {
            None => r is None,
            Some(x) => r matches Some(s) && s@ == x@,
        },
{
    match v {
        None => None,
        Some(x) => Some(string_of(x.as_slice())),
    }
}

/// Reads voice intents from language model output.
pub struct VoiceIntentParser;

impl VoiceIntentParser {
    /// The value of attribute `attr_name` in the tag text (see
    /// `attribute_value`).
    fn extract_attribute(text: &[char], attr_name: &str) -> (r: Option<Vec<char>>)
        ensures
            match attribute_value(text@, attr_name@) {
                None => r is None,
                Some(v) => r matches Some(x) && x@ == v,
            },
    {
        let pattern1 = joined(attr_name, "=");
        match value_after_chars(text, pattern1.as_slice()) {
            Some(v) => Some(v),
            None => {
                let pattern2 = joined(attr_name, " = ");
                value_after_chars(text, pattern2.as_slice())
            },
        }
    }

    /// Parses a line written
    /// `<VOICE actor="NPC_Guard" emotion="skeptic" style="dry">"..."</VOICE>`;
    /// text without a complete tag is narration by the game master.
    pub fn parse(text: &str) -> (res: Result<ParsedVoiceIntent, TtsError>)
        requires
            !voice_tag_malformed(text@),
        ensures
            res matches Ok(p) && p@ == voice_parse(text@),
    {
        let t = chars_of(text);
        let open_pat = chars_of("<VOICE");
        let close_pat = chars_of("</VOICE>");
        proof {
            reveal_strlit("</VOICE>");
        }
        let _tl = t.len();
        assert(close_pat@.len() == 8);
        let s = find_from(t.as_slice(), open_pat.as_slice(), 0);
        let e = find_from(t.as_slice(), close_pat.as_slice(), 0);
        if s.is_none() || e.is_none() {
            let line = trim_chars(t.as_slice());
            let p = ParsedVoiceIntent {
                intent_type: VoiceIntentType::NARRATE,
                text: string_of(line.as_slice()),
                voice_intent: VoiceIntent {
                    actor: String::from_str("mestre"),
                    emotion: String::from_str("neutral"),
                    style: String::from_str("neutral"),
                    pace: Some(String::from_str("normal")),
                    volume: Some(String::from_str("normal")),
                    context: None,
                },
                priority: 1,
            };
            assert(p@ =~~= voice_parse(text@));
            return Ok(p);
        }
        let start = s.unwrap();
        let end = e.unwrap() + 8;
        let tag = sub_chars(t.as_slice(), start, end);
        let gt = find_char(tag.as_slice(), 0, tag.len(), '>');
        proof {
            assert(tag@.subrange(0, tag@.len() as int) == tag@);
        }
        let attrs = sub_chars(tag.as_slice(), 0, gt);
        assert(attrs@ == tag@.take(first_index(tag@, '>') as int));
        let actor = match Self::extract_attribute(attrs.as_slice(), "actor") {
            Some(v) => string_of(v.as_slice()),
            None => String::from_str("mestre"),
        };
        let emotion = match Self::extract_attribute(attrs.as_slice(), "emotion") {
            Some(v) => string_of(v.as_slice()),
            None => String::from_str("neutral"),
        };
        let style = match Self::extract_attribute(attrs.as_slice(), "style") {
            Some(v) => string_of(v.as_slice()),
            None => String::from_str("neutral"),
        };
        let pace = opt_string(Self::extract_attribute(attrs.as_slice(), "pace"));
        let volume = opt_string(Self::extract_attribute(attrs.as_slice(), "volume"));
        let context = opt_string(Self::extract_attribute(attrs.as_slice(), "context"));
        let text_start = if gt < tag.len() { gt + 1 } else { 0 };
        let text_end = match rfind_chars(tag.as_slice(), close_pat.as_slice()) {
            Some(i) => i,
            None => tag.len(),
        };
        let body = sub_chars(tag.as_slice(), text_start, text_end);
        let d1 = trim_chars(body.as_slice());
        let d2 = trim_char_chars(d1.as_slice(), '"');
        let d3 = trim_char_chars(d2.as_slice(), '\'');
        let line = trim_chars(d3.as_slice());
        let line_text = string_of(line.as_slice());
        let actor_chars = chars_of(actor.as_str());
        let actor_lower = to_lowercase(actor.as_str());
        let actor_lower_chars = chars_of(actor_lower.as_str());
        let npc_upper = chars_of("NPC_");
        let npc_lower = chars_of("npc_");
        let player_upper = chars_of("PLAYER_");
        let player_lower = chars_of("player_");
        let intent_type = if chars_start_with(actor_chars.as_slice(), npc_upper.as_slice())
            || chars_start_with(actor_lower_chars.as_slice(), npc_lower.as_slice()) {
            VoiceIntentType::NPC_DIALOGUE
        } else if chars_start_with(actor_chars.as_slice(), player_upper.as_slice())
            || chars_start_with(actor_lower_chars.as_slice(), player_lower.as_slice()) {
            VoiceIntentType::PLAYER_DIALOGUE
        } else if same_text(emotion.as_str(), "danger") || same_text(style.as_str(), "intense") {
            VoiceIntentType::EVENT
        } else if same_text(emotion.as_str(), "solemn")
            && (text_contains(line_text.as_str(), "acaba") || text_contains(line_text.as_str(), "termina")) {
            VoiceIntentType::CONDITION_EXPIRE
        } else {
            VoiceIntentType::NARRATE
        };
        let priority: u8 = match intent_type {
            VoiceIntentType::NARRATE => 1,
            VoiceIntentType::PLAYER_DIALOGUE => 2,
            VoiceIntentType::NPC_DIALOGUE => 3,
            VoiceIntentType::EVENT => 4,
            VoiceIntentType::CONDITION_EXPIRE => 5,
            VoiceIntentType::SYSTEM => 6,
        };
        let p = ParsedVoiceIntent {
            intent_type,
            text: line_text,
            voice_intent: VoiceIntent { actor, emotion, style, pace, volume, context },
            priority,
        };
        assert(p@ =~~= voice_parse(text@));
        Ok(p)
    }
}

} // verus!
