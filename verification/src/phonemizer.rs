use vstd::prelude::*;
use crate::text::{
    alphabetic, chars_of, is_alphabetic, is_white_space, is_whitespace, lowercase, same_text, split_words, string_of,
    to_lowercase, trim, trim_chars, words_of,
};
use crate::tts_error::TtsError;

verus! {

/// A Portuguese language code.
pub open spec fn is_portuguese(l: Seq<char>) -> bool {
    l == "pt"@ || l == "pt-BR"@ || l == "pt_BR"@
}

/// The espeak-ng voice for a language: Brazilian Portuguese for the
/// Portuguese codes, British English for everything else (the model is
/// British).
pub open spec fn espeak_voice_for(l: Seq<char>) -> Seq<char> {
    if is_portuguese(l) { "pt-br"@ } else { "en-gb"@ }
}

/// The espeak-ng voice for a language.
pub fn espeak_voice(language: &str) -> (v: &'static str)
    ensures
        v@ == espeak_voice_for(language@),
{
    if same_text(language, "pt") || same_text(language, "pt-BR") || same_text(language, "pt_BR") {
        "pt-br"
    } else {
        "en-gb"
    }
}

/// How running espeak-ng went.
#[derive(Debug, Clone)]
pub enum EspeakRun {
    /// No espeak-ng program was found.
    Unavailable,
    /// The program could not be run or reported failure; the text says why.
    Failed(String),
    /// What the program printed.
    Output(String),
}

/// Sum of the character codes.
pub open spec fn code_sum(s: Seq<char>) -> int
    decreases s.len(),
{
    if s.len() == 0 { 0 } else { code_sum(s.drop_last()) + ((s.last() as u32) as int) }
}

/// The id of a phoneme the table does not list: its character codes
/// summed, modulo 1000, plus 100.
pub open spec fn unknown_phoneme_id(p: Seq<char>) -> i64 {
    (code_sum(p) % 1000 + 100) as i64
}

/// The id of a phoneme in a language.
pub open spec fn phoneme_id(p: Seq<char>, language: Seq<char>) -> i64 {
    if is_portuguese(language) {
        if p == "a"@ || p == "ɐ"@ {
            10
        } else if p == "e"@ || p == "ɛ"@ {
            11
        } else if p == "i"@ || p == "ɪ"@ {
            12
        } else if p == "o"@ || p == "ɔ"@ {
            13
        } else if p == "u"@ || p == "ʊ"@ {
            14
        } else if p == "p"@ {
            20
        } else if p == "b"@ {
            21
        } else if p == "t"@ {
            22
        } else if p == "d"@ {
            23
        } else if p == "k"@ {
            24
        } else if p == "g"@ {
            25
        } else if p == "f"@ {
            26
        } else if p == "v"@ {
            27
        } else if p == "s"@ {
            28
        } else if p == "z"@ {
            29
        } else if p == "ʃ"@ {
            30
        } else if p == "ʒ"@ {
            31
        } else if p == "m"@ {
            32
        } else if p == "n"@ {
            33
        } else if p == "ɲ"@ {
            34
        } else if p == "l"@ {
            35
        } else if p == "ɾ"@ || p == "r"@ {
            36
        } else if p == "j"@ {
            37
        } else if p == "w"@ {
            38
        } else {
            unknown_phoneme_id(p)
        }
    } else {
        if p == "ə"@ || p == "ʌ"@ {
            10
        } else if p == "æ"@ {
            11
        } else if p == "ɑ"@ {
            12
        } else if p == "ɔ"@ {
            13
        } else if p == "ɛ"@ {
            14
        } else if p == "ɪ"@ {
            15
        } else if p == "i"@ {
            16
        } else if p == "ʊ"@ {
            17
        } else if p == "u"@ {
            18
        } else if p == "eɪ"@ {
            19
        } else if p == "aɪ"@ {
            20
        } else if p == "ɔɪ"@ {
            21
        } else if p == "aʊ"@ {
            22
        } else if p == "oʊ"@ {
            23
        } else if p == "p"@ {
            30
        } else if p == "b"@ {
            31
        } else if p == "t"@ {
            32
        } else if p == "d"@ {
            33
        } else if p == "k"@ {
            34
        } else if p == "g"@ {
            35
        } else if p == "f"@ {
            36
        } else if p == "v"@ {
            37
        } else if p == "θ"@ {
            38
        } else if p == "ð"@ {
            39
        } else if p == "s"@ {
            40
        } else if p == "z"@ {
            41
        } else if p == "ʃ"@ {
            42
        } else if p == "ʒ"@ {
            43
        } else if p == "h"@ {
            44
        } else if p == "m"@ {
            45
        } else if p == "n"@ {
            46
        } else if p == "ŋ"@ {
            47
        } else if p == "l"@ {
            48
        } else if p == "r"@ || p == "ɹ"@ {
            49
        } else if p == "j"@ {
            50
        } else if p == "w"@ {
            51
        } else {
            unknown_phoneme_id(p)
        }
    }
}

/// The id of a phoneme the table does not list.
fn unknown_id(phoneme: &str) -> (id: i64)
    ensures
        id == unknown_phoneme_id(phoneme@),
{
    let cs = chars_of(phoneme);
    let mut acc: u64 = 0;
    let mut i: usize = 0;
    while i < cs.len()
        invariant
            i <= cs@.len(),
            acc < 1000,
            acc == code_sum(cs@.take(i as int)) % 1000,
        decreases cs@.len() - i,
    {
        let ghost pre = cs@.take(i as int);
        assert(cs@.take(i + 1).drop_last() == pre);
        let c = cs[i] as u32;
        proof {
            let x = code_sum(pre);
            assert(x >= 0) by { lemma_code_sum_nonneg(pre); }
            assert((x + c) % 1000 == (x % 1000 + c) % 1000) by (nonlinear_arith)
                requires x >= 0, c >= 0;
        }
        acc = (acc + c as u64) % 1000;
        i = i + 1;
    }
    assert(cs@.take(cs@.len() as int) == cs@);
    (acc + 100) as i64
}

proof fn lemma_code_sum_nonneg(s: Seq<char>)
    ensures
        code_sum(s) >= 0,
    decreases s.len(),
{
    if s.len() > 0 {
        lemma_code_sum_nonneg(s.drop_last());
    }
}

/// The id of a phoneme: the language's table, or a code derived from its
/// characters.
pub fn map_phoneme_to_id(phoneme: &str, language: &str) -> (res: Result<i64, TtsError>)
    ensures
        res == Ok::<i64, TtsError>(phoneme_id(phoneme@, language@)),
{
    let portuguese = same_text(language, "pt") || same_text(language, "pt-BR") || same_text(language, "pt_BR");
    let id = if portuguese {
        if same_text(phoneme, "a") || same_text(phoneme, "ɐ") {
            10
        } else if same_text(phoneme, "e") || same_text(phoneme, "ɛ") {
            11
        } else if same_text(phoneme, "i") || same_text(phoneme, "ɪ") {
            12
        } else if same_text(phoneme, "o") || same_text(phoneme, "ɔ") {
            13
        } else if same_text(phoneme, "u") || same_text(phoneme, "ʊ") {
            14
        } else if same_text(phoneme, "p") {
            20
        } else if same_text(phoneme, "b") {
            21
        } else if same_text(phoneme, "t") {
            22
        } else if same_text(phoneme, "d") {
            23
        } else if same_text(phoneme, "k") {
            24
        } else if same_text(phoneme, "g") {
            25
        } else if same_text(phoneme, "f") {
            26
        } else if same_text(phoneme, "v") {
            27
        } else if same_text(phoneme, "s") {
            28
        } else if same_text(phoneme, "z") {
            29
        } else if same_text(phoneme, "ʃ") {
            30
        } else if same_text(phoneme, "ʒ") {
            31
        } else if same_text(phoneme, "m") {
            32
        } else if same_text(phoneme, "n") {
            33
        } else if same_text(phoneme, "ɲ") {
            34
        } else if same_text(phoneme, "l") {
            35
        } else if same_text(phoneme, "ɾ") || same_text(phoneme, "r") {
            36
        } else if same_text(phoneme, "j") {
            37
        } else if same_text(phoneme, "w") {
            38
        } else {
            unknown_id(phoneme)
        }
    } else {
        if same_text(phoneme, "ə") || same_text(phoneme, "ʌ") {
            10
        } else if same_text(phoneme, "æ") {
            11
        } else if same_text(phoneme, "ɑ") {
            12
        } else if same_text(phoneme, "ɔ") {
            13
        } else if same_text(phoneme, "ɛ") {
            14
        } else if same_text(phoneme, "ɪ") {
            15
        } else if same_text(phoneme, "i") {
            16
        } else if same_text(phoneme, "ʊ") {
            17
        } else if same_text(phoneme, "u") {
            18
        } else if same_text(phoneme, "eɪ") {
            19
        } else if same_text(phoneme, "aɪ") {
            20
        } else if same_text(phoneme, "ɔɪ") {
            21
        } else if same_text(phoneme, "aʊ") {
            22
        } else if same_text(phoneme, "oʊ") {
            23
        } else if same_text(phoneme, "p") {
            30
        } else if same_text(phoneme, "b") {
            31
        } else if same_text(phoneme, "t") {
            32
        } else if same_text(phoneme, "d") {
            33
        } else if same_text(phoneme, "k") {
            34
        } else if same_text(phoneme, "g") {
            35
        } else if same_text(phoneme, "f") {
            36
        } else if same_text(phoneme, "v") {
            37
        } else if same_text(phoneme, "θ") {
            38
        } else if same_text(phoneme, "ð") {
            39
        } else if same_text(phoneme, "s") {
            40
        } else if same_text(phoneme, "z") {
            41
        } else if same_text(phoneme, "ʃ") {
            42
        } else if same_text(phoneme, "ʒ") {
            43
        } else if same_text(phoneme, "h") {
            44
        } else if same_text(phoneme, "m") {
            45
        } else if same_text(phoneme, "n") {
            46
        } else if same_text(phoneme, "ŋ") {
            47
        } else if same_text(phoneme, "l") {
            48
        } else if same_text(phoneme, "r") || same_text(phoneme, "ɹ") {
            49
        } else if same_text(phoneme, "j") {
            50
        } else if same_text(phoneme, "w") {
            51
        } else {
            unknown_id(phoneme)
        }
    };
    Ok(id)
}

/// Pairs of characters that make one phoneme (diphthongs and affricates).
pub open spec fn is_digraph(a: char, b: char) -> bool {
    (a == 'e' && b == 'ɪ')
        || (a == 'a' && b == 'ɪ')
        || (a == 'ɔ' && b == 'ɪ')
        || (a == 'a' && b == 'ʊ')
        || (a == 'o' && b == 'ʊ')
        || (a == 'ə' && b == 'ʊ')
        || (a == 'ɪ' && b == 'ə')
        || (a == 'e' && b == 'ə')
        || (a == 'ʊ' && b == 'ə')
        || (a == 't' && b == 'ʃ')
        || (a == 'd' && b == 'ʒ')
}

/// The non-ASCII characters that are phonemes by themselves.
pub open spec fn unicode_phonemes() -> Seq<char> {
    seq!['ŋ', 'ɲ', 'ʎ', 'ʍ', 'ɕ', 'ʑ', 'ɧ', 'ɬ', 'ɮ', 'ʋ', 'ɹ', 'ɻ', 'ɽ', 'ɾ', 'ɺ', 'ʀ', 'ʁ', 'ħ', 'ʕ', 'ɦ', 'ɥ', 'ʜ', 'ʢ', 'ʡ', 'ə', 'ɪ', 'ʊ', 'ɛ', 'ɔ', 'æ', 'ʌ', 'ɑ', 'ɐ', 'ɜ', 'ɞ', 'ɘ', 'ɨ', 'ɯ', 'ɵ', 'ɶ', 'ɷ', 'ɸ', 'β', 'θ', 'ð', 'ʃ', 'ʒ', 'ʂ', 'ʐ', 'ʈ', 'ɖ', 'ɟ', 'ɠ', 'ʄ', 'ɓ', 'ɗ', 'ʙ', 'ʀ', 'ʟ', 'ʎ']
}

/// A character kept as a phoneme by itself: no digit, stress or length
/// mark or white space; a listed phoneme or an ASCII letter.
pub open spec fn kept_alone(c: char) -> bool {
    &&& !('0' <= c && c <= '9')
    &&& c != 'ˈ' && c != 'ˌ' && c != 'ː' && c != ' '
    &&& !is_white_space(c)
    &&& (unicode_phonemes().contains(c) || (alphabetic(c) && (c as u32) < 128))
}

/// The phonemes of a word from position `i` on: known pairs first, then
/// single characters that are kept.
pub open spec fn phonemes_from(w: Seq<char>, i: int) -> Seq<Seq<char>>
    decreases w.len() - i,
{
    if i < 0 || i >= w.len() {
        Seq::empty()
    } else if i + 1 < w.len() && is_digraph(w[i], w[i + 1]) {
        seq![seq![w[i], w[i + 1]]] + phonemes_from(w, i + 2)
    } else if kept_alone(w[i]) {
        seq![seq![w[i]]] + phonemes_from(w, i + 1)
    } else {
        phonemes_from(w, i + 1)
    }
}

fn digraph(a: char, b: char) -> (r: bool)
    ensures
        r == is_digraph(a, b),
{
    (a == 'e' && b == 'ɪ')
        || (a == 'a' && b == 'ɪ')
        || (a == 'ɔ' && b == 'ɪ')
        || (a == 'a' && b == 'ʊ')
        || (a == 'o' && b == 'ʊ')
        || (a == 'ə' && b == 'ʊ')
        || (a == 'ɪ' && b == 'ə')
        || (a == 'e' && b == 'ə')
        || (a == 'ʊ' && b == 'ə')
        || (a == 't' && b == 'ʃ')
        || (a == 'd' && b == 'ʒ')
}

fn unicode_phoneme(c: char) -> (r: bool)
    ensures
        r == unicode_phonemes().contains(c),
{
    let list = ['ŋ', 'ɲ', 'ʎ', 'ʍ', 'ɕ', 'ʑ', 'ɧ', 'ɬ', 'ɮ', 'ʋ', 'ɹ', 'ɻ', 'ɽ', 'ɾ', 'ɺ', 'ʀ', 'ʁ', 'ħ', 'ʕ', 'ɦ', 'ɥ', 'ʜ', 'ʢ', 'ʡ', 'ə', 'ɪ', 'ʊ', 'ɛ', 'ɔ', 'æ', 'ʌ', 'ɑ', 'ɐ', 'ɜ', 'ɞ', 'ɘ', 'ɨ', 'ɯ', 'ɵ', 'ɶ', 'ɷ', 'ɸ', 'β', 'θ', 'ð', 'ʃ', 'ʒ', 'ʂ', 'ʐ', 'ʈ', 'ɖ', 'ɟ', 'ɠ', 'ʄ', 'ɓ', 'ɗ', 'ʙ', 'ʀ', 'ʟ', 'ʎ'];
    let mut i: usize = 0;
    while i < list.len()
        invariant
            i <= list@.len(),
            list@ == unicode_phonemes(),
            forall|j: int| 0 <= j < i ==> list@[j] != c,
        decreases list@.len() - i,
    {
        if list[i] == c {
            return true;
        }
        i = i + 1;
    }
    false
}

/// The texts of a list of strings.
pub open spec fn texts(v: Seq<String>) -> Seq<Seq<char>> {
    v.map_values(|s: String| s@)
}

/// Splits an IPA word into phonemes.
fn split_ipa_word_to_phonemes(word: &[char]) -> (v: Vec<String>)
    ensures
        texts(v@) == phonemes_from(word@, 0),
{
    let mut out: Vec<String> = Vec::new();
    let n = word.len();
    let mut i: usize = 0;
    while i < n
        invariant
            i <= n == word@.len(),
            texts(out@) + phonemes_from(word@, i as int) == phonemes_from(word@, 0),
        decreases n - i,
    {
        let ghost before = out@;
        if i + 1 < n && digraph(word[i], word[i + 1]) {
            let pair = [word[i], word[i + 1]];
            let s = string_of(&pair);
            out.push(s);
            assert(texts(out@) =~= texts(before).push(seq![word@[i as int], word@[i + 1]]));
            assert(texts(out@) + phonemes_from(word@, i + 2) =~= texts(before) + phonemes_from(word@, i as int));
            i = i + 2;
        } else {
            let c = word[i];
            let keep = !('0' <= c && c <= '9') && c != 'ˈ' && c != 'ˌ' && c != 'ː' && c != ' ' && !is_whitespace(c)
                && (unicode_phoneme(c) || (is_alphabetic(c) && (c as u32) < 128));
            if keep {
                let mut one: Vec<char> = Vec::new();
                one.push(c);
                let s = string_of(one.as_slice());
                out.push(s);
                assert(texts(out@) =~= texts(before).push(seq![c]));
                assert(texts(out@) + phonemes_from(word@, i + 1) =~= texts(before) + phonemes_from(word@, i as int));
            }
            i = i + 1;
        }
    }
    assert(texts(out@) =~= texts(out@) + phonemes_from(word@, i as int));
    out
}

/// The phonemes of the words, with a pause (" ") after every word but the
/// last, for the first `i` words.
pub open spec fn phonemes_with_pauses(ws: Seq<Seq<char>>, i: int) -> Seq<Seq<char>>
    decreases i,
{
    if i <= 0 {
        Seq::empty()
    } else {
        phonemes_with_pauses(ws, i - 1) + phonemes_from(ws[i - 1], 0)
            + (if i - 1 < ws.len() - 1 { seq![" "@] } else { Seq::empty() })
    }
}

/// The IPA phonemes of espeak-ng output, or why there are none.
pub open spec fn ipa_phonemes(output: Seq<char>) -> Result<Seq<Seq<char>>, Seq<char>> {
    let ws = words_of(trim(output));
    if ws.len() == 0 {
        Err("No phonemes generated"@)
    } else if phonemes_with_pauses(ws, ws.len() as int).len() == 0 {
        Err("No phonemes extracted"@)
    } else {
        Ok(phonemes_with_pauses(ws, ws.len() as int))
    }
}

/// Splits espeak-ng IPA output into phonemes, with a pause between words.
fn parse_phonemes_to_strings(phoneme_text: &str) -> (res: Result<Vec<String>, TtsError>)
    ensures
        match ipa_phonemes(phoneme_text@) {
            Ok(p) => res matches Ok(v) && texts(v@) == p,
            Err(m) => res matches Err(TtsError::Synthesis(msg)) && msg@ == m,
        },
{
    let cs = chars_of(phoneme_text);
    let trimmed = trim_chars(cs.as_slice());
    let words = split_words(&trimmed);
    if words.len() == 0 {
        return Err(TtsError::Synthesis(String::from_str("No phonemes generated")));
    }
    let ghost ws = words_of(trim(phoneme_text@));
    let mut out: Vec<String> = Vec::new();
    let mut i: usize = 0;
    while i < words.len()
        invariant
            i <= words@.len() == ws.len(),
            forall|k: int| 0 <= k < words@.len() ==> (#[trigger] words@[k])@ == ws[k],
            texts(out@) == phonemes_with_pauses(ws, i as int),
        decreases words@.len() - i,
    {
        let ghost before = out@;
        let ps = split_ipa_word_to_phonemes(words[i].as_slice());
        let ghost added = ps@;
        let mut ps = ps;
        out.append(&mut ps);
        assert(texts(out@) =~= texts(before) + texts(added));
        if i < words.len() - 1 {
            let ghost mid = out@;
            out.push(String::from_str(" "));
            assert(texts(out@) =~= texts(mid).push(" "@));
        }
        i = i + 1;
        assert(texts(out@) =~= phonemes_with_pauses(ws, i as int));
    }
    if out.len() == 0 {
        return Err(TtsError::Synthesis(String::from_str("No phonemes extracted")));
    }
    Ok(out)
}

/// A phoneme with digits and stress and length marks removed.
pub open spec fn strip_marks(w: Seq<char>) -> Seq<char>
    decreases w.len(),
{
    if w.len() == 0 {
        Seq::empty()
    } else if ('0' <= w.last() && w.last() <= '9') || w.last() == 'ˈ' || w.last() == 'ˌ' || w.last() == 'ː' {
        strip_marks(w.drop_last())
    } else {
        strip_marks(w.drop_last()).push(w.last())
    }
}

/// The phoneme ids of espeak-ng output, one per word, or why there are
/// none.
pub open spec fn phoneme_ids(output: Seq<char>, language: Seq<char>) -> Result<Seq<i64>, Seq<char>> {
    let ws = words_of(trim(output));
    if ws.len() == 0 {
        Err("No phonemes generated"@)
    } else {
        Ok(Seq::new(ws.len(), |i: int| phoneme_id(strip_marks(ws[i]), language)))
    }
}

fn strip_marks_chars(w: &[char]) -> (r: Vec<char>)
    ensures
        r@ == strip_marks(w@),
{
    let mut out: Vec<char> = Vec::new();
    let mut i: usize = 0;
    while i < w.len()
        invariant
            i <= w@.len(),
            out@ == strip_marks(w@.take(i as int)),
        decreases w@.len() - i,
    {
        assert(w@.take(i + 1).drop_last() == w@.take(i as int));
        assert(w@.take(i + 1).last() == w@[i as int]);
        let c = w[i];
        if !(('0' <= c && c <= '9') || c == 'ˈ' || c == 'ˌ' || c == 'ː') {
            out.push(c);
        }
        i = i + 1;
    }
    assert(w@.take(w@.len() as int) == w@);
    out
}

/// Maps espeak-ng output to phoneme ids, one per word.
fn parse_phonemes(phoneme_text: &str, language: &str) -> (res: Result<Vec<i64>, TtsError>)
    ensures
        match phoneme_ids(phoneme_text@, language@) {
            Ok(p) => res matches Ok(v) && v@ == p,
            Err(m) => res matches Err(TtsError::Synthesis(msg)) && msg@ == m,
        },
{
    let cs = chars_of(phoneme_text);
    let trimmed = trim_chars(cs.as_slice());
    let words = split_words(&trimmed);
    if words.len() == 0 {
        return Err(TtsError::Synthesis(String::from_str("No phonemes generated")));
    }
    let ghost ws = words_of(trim(phoneme_text@));
    let mut ids: Vec<i64> = Vec::new();
    let mut i: usize = 0;
    while i < words.len()
        invariant
            i <= words@.len() == ws.len(),
            forall|k: int| 0 <= k < words@.len() ==> (#[trigger] words@[k])@ == ws[k],
            ids@.len() == i,
            forall|k: int| 0 <= k < i ==> ids@[k] == phoneme_id(strip_marks(ws[k]), language@),
        decreases words@.len() - i,
    {
        let clean = strip_marks_chars(words[i].as_slice());
        let clean_text = string_of(clean.as_slice());
        let id = match map_phoneme_to_id(clean_text.as_str(), language) {
            Ok(id) => id,
            Err(e) => return Err(e),
        };
        ids.push(id);
        i = i + 1;
    }
    assert(ids@ =~= Seq::new(ws.len(), |k: int| phoneme_id(strip_marks(ws[k]), language@)));
    Ok(ids)
}

/// The id the fallback gives a letter.
pub open spec fn fallback_letter_id(c: char, language: Seq<char>) -> i64 {
    if is_portuguese(language) {
        if c == 'a' {
            10
        } else if c == 'e' {
            11
        } else if c == 'i' {
            12
        } else if c == 'o' {
            13
        } else if c == 'u' {
            14
        } else if c == 'p' {
            20
        } else if c == 'b' {
            21
        } else if c == 't' {
            22
        } else if c == 'd' {
            23
        } else if c == 'k' || c == 'c' {
            24
        } else if c == 'g' {
            25
        } else if c == 'f' {
            26
        } else if c == 'v' {
            27
        } else if c == 's' {
            28
        } else if c == 'z' {
            29
        } else if c == 'm' {
            32
        } else if c == 'n' {
            33
        } else if c == 'l' {
            35
        } else if c == 'r' {
            36
        } else {
            (50 + (c as u32) % 20) as i64
        }
    } else {
        if c == 'a' {
            10
        } else if c == 'e' {
            11
        } else if c == 'i' {
            12
        } else if c == 'o' {
            13
        } else if c == 'u' {
            14
        } else if c == 'p' {
            30
        } else if c == 'b' {
            31
        } else if c == 't' {
            32
        } else if c == 'd' {
            33
        } else if c == 'k' || c == 'c' {
            34
        } else if c == 'g' {
            35
        } else if c == 'f' {
            36
        } else if c == 'v' {
            37
        } else if c == 's' {
            40
        } else if c == 'z' {
            41
        } else if c == 'h' {
            44
        } else if c == 'm' {
            45
        } else if c == 'n' {
            46
        } else if c == 'l' {
            48
        } else if c == 'r' {
            49
        } else if c == 'w' {
            51
        } else if c == 'y' {
            50
        } else {
            (60 + (c as u32) % 20) as i64
        }
    }
}

fn letter_id(c: char, portuguese: bool, language: Ghost<Seq<char>>) -> (id: i64)
    requires
        portuguese == is_portuguese(language@),
    ensures
        id == fallback_letter_id(c, language@),
{
    if portuguese {
        if c == 'a' {
            10
        } else if c == 'e' {
            11
        } else if c == 'i' {
            12
        } else if c == 'o' {
            13
        } else if c == 'u' {
            14
        } else if c == 'p' {
            20
        } else if c == 'b' {
            21
        } else if c == 't' {
            22
        } else if c == 'd' {
            23
        } else if c == 'k' || c == 'c' {
            24
        } else if c == 'g' {
            25
        } else if c == 'f' {
            26
        } else if c == 'v' {
            27
        } else if c == 's' {
            28
        } else if c == 'z' {
            29
        } else if c == 'm' {
            32
        } else if c == 'n' {
            33
        } else if c == 'l' {
            35
        } else if c == 'r' {
            36
        } else {
            (50 + (c as u32) % 20) as i64
        }
    } else {
        if c == 'a' {
            10
        } else if c == 'e' {
            11
        } else if c == 'i' {
            12
        } else if c == 'o' {
            13
        } else if c == 'u' {
            14
        } else if c == 'p' {
            30
        } else if c == 'b' {
            31
        } else if c == 't' {
            32
        } else if c == 'd' {
            33
        } else if c == 'k' || c == 'c' {
            34
        } else if c == 'g' {
            35
        } else if c == 'f' {
            36
        } else if c == 'v' {
            37
        } else if c == 's' {
            40
        } else if c == 'z' {
            41
        } else if c == 'h' {
            44
        } else if c == 'm' {
            45
        } else if c == 'n' {
            46
        } else if c == 'l' {
            48
        } else if c == 'r' {
            49
        } else if c == 'w' {
            51
        } else if c == 'y' {
            50
        } else {
            (60 + (c as u32) % 20) as i64
        }
    }
}

/// The ids of the letters of a word.
pub open spec fn letter_ids(w: Seq<char>, language: Seq<char>) -> Seq<i64>
    decreases w.len(),
{
    if w.len() == 0 {
        Seq::empty()
    } else if alphabetic(w.last()) {
        letter_ids(w.drop_last(), language).push(fallback_letter_id(w.last(), language))
    } else {
        letter_ids(w.drop_last(), language)
    }
}

/// The ids of the first `i` words, each followed by the word separator 0.
pub open spec fn fallback_word_ids(ws: Seq<Seq<char>>, i: int, language: Seq<char>) -> Seq<i64>
    decreases i,
{
    if i <= 0 {
        Seq::empty()
    } else {
        fallback_word_ids(ws, i - 1, language) + letter_ids(ws[i - 1], language).push(0)
    }
}

/// What the rule-based fallback gives for a text: the letters of each
/// lower-cased word mapped to ids, a 0 after each word, and a fixed
/// sequence for a text without words.
pub open spec fn fallback_ids(text: Seq<char>, language: Seq<char>) -> Seq<i64> {
    let ws = words_of(lowercase(text));
    if ws.len() == 0 { seq![10i64, 11, 12] } else { fallback_word_ids(ws, ws.len() as int, language) }
}

/// Phoneme ids without espeak-ng: a letter-by-letter mapping.
fn fallback_phonemize(text: &str, language: &str) -> (res: Result<Vec<i64>, TtsError>)
    ensures
        res matches Ok(v) && v@ == fallback_ids(text@, language@),
{
    let portuguese = same_text(language, "pt") || same_text(language, "pt-BR") || same_text(language, "pt_BR");
    let lower = to_lowercase(text);
    let cs = chars_of(lower.as_str());
    let words = split_words(&cs);
    let ghost ws = words_of(lowercase(text@));
    let mut ids: Vec<i64> = Vec::new();
    let mut i: usize = 0;
    while i < words.len()
        invariant
            i <= words@.len() == ws.len(),
            portuguese == is_portuguese(language@),
            forall|k: int| 0 <= k < words@.len() ==> (#[trigger] words@[k])@ == ws[k],
            ids@ == fallback_word_ids(ws, i as int, language@),
        decreases words@.len() - i,
    {
        let w = &words[i];
        let ghost before = ids@;
        let mut j: usize = 0;
        while j < w.len()
            invariant
                j <= w@.len(),
                w@ == ws[i as int],
                portuguese == is_portuguese(language@),
                ids@ == before + letter_ids(w@.take(j as int), language@),
            decreases w@.len() - j,
        {
            assert(w@.take(j + 1).drop_last() == w@.take(j as int));
            assert(w@.take(j + 1).last() == w@[j as int]);
            let c = w[j];
            if is_alphabetic(c) {
                let id = letter_id(c, portuguese, Ghost(language@));
                ids.push(id);
            }
            j = j + 1;
            assert(ids@ =~= before + letter_ids(w@.take(j as int), language@));
        }
        assert(w@.take(w@.len() as int) == w@);
        ids.push(0);
        i = i + 1;
        assert(ids@ =~= fallback_word_ids(ws, i as int, language@));
    }
    if ids.len() == 0 {
        ids = vec![10, 11, 12];
    }
    Ok(ids)
}

/// The IPA-like phoneme the fallback gives a letter.
pub open spec fn fallback_letter_ipa(c: char) -> Seq<char> {
    if c == 'a' {
        "a"@
    } else if c == 'e' {
        "e"@
    } else if c == 'i' {
        "i"@
    } else if c == 'o' {
        "o"@
    } else if c == 'u' {
        "u"@
    } else if c == 'p' {
        "p"@
    } else if c == 'b' {
        "b"@
    } else if c == 't' {
        "t"@
    } else if c == 'd' {
        "d"@
    } else if c == 'k' {
        "k"@
    } else if c == 'c' {
        "k"@
    } else if c == 'g' {
        "g"@
    } else if c == 'f' {
        "f"@
    } else if c == 'v' {
        "v"@
    } else if c == 's' {
        "s"@
    } else if c == 'z' {
        "z"@
    } else if c == 'h' {
        "h"@
    } else if c == 'm' {
        "m"@
    } else if c == 'n' {
        "n"@
    } else if c == 'l' {
        "l"@
    } else if c == 'r' {
        "r"@
    } else if c == 'w' {
        "w"@
    } else if c == 'y' {
        "j"@
    } else {
        "ə"@
    }
}

fn letter_ipa(c: char) -> (p: &'static str)
    ensures
        p@ == fallback_letter_ipa(c),
{
    if c == 'a' {
        "a"
    } else if c == 'e' {
        "e"
    } else if c == 'i' {
        "i"
    } else if c == 'o' {
        "o"
    } else if c == 'u' {
        "u"
    } else if c == 'p' {
        "p"
    } else if c == 'b' {
        "b"
    } else if c == 't' {
        "t"
    } else if c == 'd' {
        "d"
    } else if c == 'k' {
        "k"
    } else if c == 'c' {
        "k"
    } else if c == 'g' {
        "g"
    } else if c == 'f' {
        "f"
    } else if c == 'v' {
        "v"
    } else if c == 's' {
        "s"
    } else if c == 'z' {
        "z"
    } else if c == 'h' {
        "h"
    } else if c == 'm' {
        "m"
    } else if c == 'n' {
        "n"
    } else if c == 'l' {
        "l"
    } else if c == 'r' {
        "r"
    } else if c == 'w' {
        "w"
    } else if c == 'y' {
        "j"
    } else {
        "ə"
    }
}

/// The IPA-like phonemes of the letters of a word.
pub open spec fn letter_ipas(w: Seq<char>) -> Seq<Seq<char>>
    decreases w.len(),
{
    if w.len() == 0 {
        Seq::empty()
    } else if alphabetic(w.last()) {
        letter_ipas(w.drop_last()).push(fallback_letter_ipa(w.last()))
    } else {
        letter_ipas(w.drop_last())
    }
}

/// The phonemes of the first `i` words, each followed by a pause.
pub open spec fn fallback_word_ipas(ws: Seq<Seq<char>>, i: int) -> Seq<Seq<char>>
    decreases i,
{
    if i <= 0 {
        Seq::empty()
    } else {
        fallback_word_ipas(ws, i - 1) + letter_ipas(ws[i - 1]).push(" "@)
    }
}

/// What the rule-based fallback gives for a text, as IPA-like phonemes.
pub open spec fn fallback_ipas(text: Seq<char>) -> Seq<Seq<char>> {
    let ws = words_of(lowercase(text));
    if ws.len() == 0 { seq!["ə"@, "a"@, "i"@] } else { fallback_word_ipas(ws, ws.len() as int) }
}

/// IPA-like phonemes without espeak-ng: a letter-by-letter mapping.
fn fallback_phonemize_ipa(text: &str, _language: &str) -> (res: Result<Vec<String>, TtsError>)
    ensures
        res matches Ok(v) && texts(v@) == fallback_ipas(text@),
{
    let lower = to_lowercase(text);
    let cs = chars_of(lower.as_str());
    let words = split_words(&cs);
    let ghost ws = words_of(lowercase(text@));
    let mut out: Vec<String> = Vec::new();
    let mut i: usize = 0;
    while i < words.len()
        invariant
            i <= words@.len() == ws.len(),
            forall|k: int| 0 <= k < words@.len() ==> (#[trigger] words@[k])@ == ws[k],
            texts(out@) == fallback_word_ipas(ws, i as int),
        decreases words@.len() - i,
    {
        let w = &words[i];
        let ghost before = texts(out@);
        let mut j: usize = 0;
        while j < w.len()
            invariant
                j <= w@.len(),
                w@ == ws[i as int],
                texts(out@) == before + letter_ipas(w@.take(j as int)),
            decreases w@.len() - j,
        {
            assert(w@.take(j + 1).drop_last() == w@.take(j as int));
            assert(w@.take(j + 1).last() == w@[j as int]);
            let c = w[j];
            let ghost mid = out@;
            if is_alphabetic(c) {
                out.push(String::from_str(letter_ipa(c)));
                assert(texts(out@) =~= texts(mid).push(fallback_letter_ipa(c)));
            }
            j = j + 1;
            assert(texts(out@) =~= before + letter_ipas(w@.take(j as int)));
        }
        assert(w@.take(w@.len() as int) == w@);
        let ghost mid = out@;
        out.push(String::from_str(" "));
        assert(texts(out@) =~= texts(mid).push(" "@));
        i = i + 1;
        assert(texts(out@) =~= fallback_word_ipas(ws, i as int));
    }
    if out.len() == 0 {
        let mut v: Vec<String> = Vec::new();
        v.push(String::from_str("ə"));
        v.push(String::from_str("a"));
        v.push(String::from_str("i"));
        assert(texts(v@) =~= seq!["ə"@, "a"@, "i"@]);
        return Ok(v);
    }
    Ok(out)
}

/// Phoneme ids for a text: the rule-based fallback when espeak-ng is not
/// available, its failure when it failed, otherwise its output mapped to
/// ids.
pub fn phonemize(text: &str, language: &str, espeak: &EspeakRun) -> (res: Result<Vec<i64>, TtsError>)
    ensures
        match espeak {
            EspeakRun::Unavailable => res matches Ok(v) && v@ == fallback_ids(text@, language@),
            EspeakRun::Failed(m) => res matches Err(TtsError::Synthesis(msg)) && msg@ == m@,
            EspeakRun::Output(out) => match phoneme_ids(out@, language@) {
                Ok(p) => res matches Ok(v) && v@ == p,
                Err(m) => res matches Err(TtsError::Synthesis(msg)) && msg@ == m,
            },
        },
{
    match espeak {
        EspeakRun::Unavailable => fallback_phonemize(text, language),
        EspeakRun::Failed(m) => Err(TtsError::Synthesis(m.clone())),
        EspeakRun::Output(out) => parse_phonemes(out.as_str(), language),
    }
}

/// IPA phonemes for a text: the rule-based fallback when espeak-ng is not
/// available, its failure when it failed, otherwise its output split into
/// phonemes with a pause between words.
pub fn phonemize_ipa(text: &str, language: &str, espeak: &EspeakRun) -> (res: Result<Vec<String>, TtsError>)
    ensures
        match espeak {
            EspeakRun::Unavailable => res matches Ok(v) && texts(v@) == fallback_ipas(text@),
            EspeakRun::Failed(m) => res matches Err(TtsError::Synthesis(msg)) && msg@ == m@,
            EspeakRun::Output(out) => match ipa_phonemes(out@) {
                Ok(p) => res matches Ok(v) && texts(v@) == p,
                Err(m) => res matches Err(TtsError::Synthesis(msg)) && msg@ == m,
            },
        },
{
    match espeak {
        EspeakRun::Unavailable => fallback_phonemize_ipa(text, language),
        EspeakRun::Failed(m) => Err(TtsError::Synthesis(m.clone())),
        EspeakRun::Output(out) => parse_phonemes_to_strings(out.as_str()),
    }
}

} // verus!
