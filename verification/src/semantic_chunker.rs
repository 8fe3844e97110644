use vstd::prelude::*;
use vstd::utf8::encode_utf8;
use crate::text::{chars_of, has_infix, split_words, string_of, trim, trim_chars, words_of};
use crate::tts_error::TtsError;
use crate::tts_profile::TtsProfile;

verus! {

/// A piece of text to synthesize.
#[derive(Debug, Clone)]
pub struct TextChunk {
    pub text: String,
    /// Expected speaking time in milliseconds: about 150 words a minute of
    /// five characters each, so 80 ms a character.
    pub estimated_duration_ms: u64,
    /// Number of characters in the text.
    pub char_count: usize,
}

/// The speaking time of `chars` characters at 80 ms each, in
/// milliseconds, capped at the largest `u64`.
pub open spec fn duration_ms_for(chars: int) -> u64 {
    if chars * 80 <= u64::MAX { (chars * 80) as u64 } else { u64::MAX }
}

/// Chunk sizes, counted as `str::len` counts: in bytes of UTF-8.
#[derive(Debug, Clone, Copy, PartialEq, Eq, Structural)]
pub struct ChunkerConfig {
    pub target_chars: usize,
    pub min_chars: usize,
    pub max_chars: usize,
}

impl Default for ChunkerConfig {
    fn default() -> (c: Self)
        ensures
            c == (ChunkerConfig { target_chars: 250, min_chars: 180, max_chars: 320 }),
    {
        ChunkerConfig { target_chars: 250, min_chars: 180, max_chars: 320 }
    }
}

/// The length `str::len` reports for a text.
pub open spec fn blen(s: Seq<char>) -> int {
    (encode_utf8(s).len() as usize) as int
}

/// The length `str::len` reports for the characters.
fn byte_len(v: &[char]) -> (n: usize)
    ensures
        n == blen(v@),
{
    let s = string_of(v);
    s.as_str().len()
}

/// `a` followed by `b`.
fn append_chars(a: &mut Vec<char>, b: &[char])
    ensures
        final(a)@ == old(a)@ + b@,
{
    let ghost before = a@;
    let mut i: usize = 0;
    while i < b.len()
        invariant
            i <= b@.len(),
            a@ == before + b@.take(i as int),
        decreases b@.len() - i,
    {
        a.push(b[i]);
        i = i + 1;
        assert(a@ == before + b@.take(i as int));
    }
    assert(b@.take(b@.len() as int) == b@);
}

/// The texts of a list of chunks.
pub open spec fn chunk_texts(v: Seq<TextChunk>) -> Seq<Seq<char>> {
    v.map_values(|c: TextChunk| c.text@)
}

/// Every chunk counts its own characters and the time to speak them.
pub open spec fn counts_match(v: Seq<TextChunk>) -> bool {
    forall|i: int| 0 <= i < v.len() ==> (#[trigger] v[i]).char_count == v[i].text@.len()
        && v[i].estimated_duration_ms == duration_ms_for(v[i].char_count as int)
}

/// Where greedy chunking by words stands.
#[verifier::ext_equal]
pub struct ChunkState {
    pub chunks: Seq<Seq<char>>,
    pub current: Seq<char>,
    pub limit: int,
}

/// One more word: written after a space unless the chunk is empty; when
/// it would take a non-empty chunk past the limit, the chunk is closed first
/// (the space stays in front of the word) and later chunks use the next
/// limit.
pub open spec fn word_step(st: ChunkState, word: Seq<char>, next_limit: int) -> ChunkState {
    let piece = if st.current.len() == 0 { word } else { seq![' '] + word };
    let closed = if blen(st.current) + blen(piece) > st.limit && st.current.len() > 0 {
        ChunkState { chunks: st.chunks.push(st.current), current: Seq::empty(), limit: next_limit }
    } else {
        st
    };
    ChunkState { chunks: closed.chunks, current: closed.current + piece, limit: closed.limit }
}

/// The state after the first `i` words.
pub open spec fn word_fold(ws: Seq<Seq<char>>, i: int, first_limit: int, next_limit: int) -> ChunkState
    decreases i,
{
    if i <= 0 {
        ChunkState { chunks: Seq::empty(), current: Seq::empty(), limit: first_limit }
    } else {
        word_step(word_fold(ws, i - 1, first_limit, next_limit), ws[i - 1], next_limit)
    }
}

/// The chunks of a text cut greedily by words, the first up to
/// `first_limit` and the others up to `next_limit` (a single word longer
/// than the limit stays whole).
pub open spec fn profile_chunks(text: Seq<char>, first_limit: int, next_limit: int) -> Seq<Seq<char>> {
    let ws = words_of(text);
    let st = word_fold(ws, ws.len() as int, first_limit, next_limit);
    if st.current.len() > 0 { st.chunks.push(st.current) } else { st.chunks }
}

/// A sentence ends at `.`, `!` or `?`; a clause at `,` or `;`.
pub open spec fn is_break(c: char, clause: bool) -> bool {
    if clause { c == ',' || c == ';' } else { c == '.' || c == '!' || c == '?' }
}

/// The pieces between breaks (`str::split` with a character predicate):
/// always at least one, possibly empty.
pub open spec fn split_at_breaks(s: Seq<char>, clause: bool) -> Seq<Seq<char>>
    decreases s.len(),
{
    if s.len() == 0 {
        seq![Seq::empty()]
    } else {
        let p = split_at_breaks(s.drop_last(), clause);
        if is_break(s.last(), clause) {
            p.push(Seq::empty())
        } else {
            p.update(p.len() - 1, p.last().push(s.last()))
        }
    }
}

/// The pieces trimmed, empty ones dropped.
pub open spec fn trimmed_pieces(ps: Seq<Seq<char>>) -> Seq<Seq<char>>
    decreases ps.len(),
{
    if ps.len() == 0 {
        Seq::empty()
    } else if trim(ps.last()).len() > 0 {
        trimmed_pieces(ps.drop_last()).push(trim(ps.last()))
    } else {
        trimmed_pieces(ps.drop_last())
    }
}

/// The sentences of a text, trimmed, empty ones dropped.
pub open spec fn sentences_of(text: Seq<char>) -> Seq<Seq<char>> {
    trimmed_pieces(split_at_breaks(text, false))
}

/// The clauses of a sentence, trimmed, empty ones dropped.
pub open spec fn clauses_of(sentence: Seq<char>) -> Seq<Seq<char>> {
    trimmed_pieces(split_at_breaks(sentence, true))
}

/// A sentence has a natural pause: a comma, a semicolon or one of the
/// conjunctions " and ", " as ", " while ", " when ", " but ", " or ".
pub open spec fn has_pause(s: Seq<char>) -> bool {
    ||| s.contains(',')
    ||| s.contains(';')
    ||| has_infix(s, " and "@)
    ||| has_infix(s, " as "@)
    ||| has_infix(s, " while "@)
    ||| has_infix(s, " when "@)
    ||| has_infix(s, " but "@)
    ||| has_infix(s, " or "@)
}

/// Where chunking by sentences stands: the count is the running size of
/// the chunk as the rules count it (saturating at the machine's limit).
#[verifier::ext_equal]
pub struct LegacyState {
    pub chunks: Seq<Seq<char>>,
    pub current: Seq<char>,
    pub count: int,
}

/// `x`, capped at the largest `usize`.
pub open spec fn capped(x: int) -> int {
    if x > usize::MAX { usize::MAX as int } else { x }
}

/// The chunk closes and a new one starts.
pub open spec fn emit(st: LegacyState) -> LegacyState {
    LegacyState { chunks: st.chunks.push(st.current), current: Seq::empty(), count: 0 }
}

/// `piece` written after `cur`, with a space between unless `cur` is empty.
pub open spec fn joined(cur: Seq<char>, piece: Seq<char>) -> Seq<char> {
    (if cur.len() > 0 { cur.push(' ') } else { cur }) + piece
}

/// Four fifths of `x`, rounded down.
pub open spec fn four_fifths(x: int) -> int {
    x * 4 / 5
}

/// One more clause: the chunk closes first if the clause would take it
/// past the maximum, and closes after once it reaches the target and the
/// minimum.
pub open spec fn clause_step(st: LegacyState, part: Seq<char>, cfg: ChunkerConfig) -> LegacyState {
    let a = if st.count + blen(part) > cfg.max_chars && st.current.len() > 0 { emit(st) } else { st };
    let b = LegacyState { chunks: a.chunks, current: joined(a.current, part), count: capped(a.count + blen(part)) };
    if b.count >= cfg.target_chars && b.count >= cfg.min_chars { emit(b) } else { b }
}

/// The state after the first `i` clauses.
pub open spec fn clause_fold(st: LegacyState, parts: Seq<Seq<char>>, i: int, cfg: ChunkerConfig) -> LegacyState
    decreases i,
{
    if i <= 0 { st } else { clause_step(clause_fold(st, parts, i - 1, cfg), parts[i - 1], cfg) }
}

/// One more sentence: the chunk closes first if the sentence would take it
/// past the maximum; a sentence without pauses is added whole with a
/// period, one with pauses clause by clause, with a period after the last;
/// the chunk closes after once it reaches the minimum and four fifths of
/// the target.
pub open spec fn sentence_step(st: LegacyState, s: Seq<char>, cfg: ChunkerConfig) -> LegacyState {
    let a = if st.count + blen(s) > cfg.max_chars && st.current.len() > 0 { emit(st) } else { st };
    let b = if !has_pause(s) {
        LegacyState { chunks: a.chunks, current: joined(a.current, s).push('.'), count: capped(a.count + blen(s) + 1) }
    } else {
        let ps = clauses_of(s);
        let c = clause_fold(a, ps, ps.len() as int, cfg);
        if c.current.len() > 0 {
            LegacyState { chunks: c.chunks, current: c.current.push('.'), count: capped(c.count + 1) }
        } else {
            c
        }
    };
    if b.count >= cfg.min_chars && b.count >= four_fifths(cfg.target_chars as int) { emit(b) } else { b }
}

/// The state after the first `i` sentences.
pub open spec fn sentence_fold(ss: Seq<Seq<char>>, i: int, cfg: ChunkerConfig) -> LegacyState
    decreases i,
{
    if i <= 0 {
        LegacyState { chunks: Seq::empty(), current: Seq::empty(), count: 0 }
    } else {
        sentence_step(sentence_fold(ss, i - 1, cfg), ss[i - 1], cfg)
    }
}

/// The chunks of a text cut by sentences and clauses.
pub open spec fn legacy_chunks(text: Seq<char>, cfg: ChunkerConfig) -> Seq<Seq<char>> {
    let ss = sentences_of(text);
    let st = sentence_fold(ss, ss.len() as int, cfg);
    if st.current.len() > 0 { st.chunks.push(st.current) } else { st.chunks }
}

/// The views of a list of character lists.
pub open spec fn views(v: Seq<Vec<char>>) -> Seq<Seq<char>> {
    v.map_values(|x: Vec<char>| x@)
}

proof fn lemma_split_nonempty(s: Seq<char>, clause: bool)
    ensures
        split_at_breaks(s, clause).len() >= 1,
    decreases s.len(),
{
    if s.len() > 0 {
        lemma_split_nonempty(s.drop_last(), clause);
    }
}

/// Splits at breaks (see `split_at_breaks`).
fn split_breaks(v: &[char], clause: bool) -> (r: Vec<Vec<char>>)
    ensures
        views(r@) == split_at_breaks(v@, clause),
{
    let mut out: Vec<Vec<char>> = Vec::new();
    out.push(Vec::new());
    assert(views(out@) =~= split_at_breaks(v@.take(0), clause));
    let mut i: usize = 0;
    while i < v.len()
        invariant
            i <= v@.len(),
            views(out@) == split_at_breaks(v@.take(i as int), clause),
        decreases v@.len() - i,
    {
        let ghost pre = v@.take(i as int);
        assert(v@.take(i + 1).drop_last() == pre);
        assert(v@.take(i + 1).last() == v@[i as int]);
        proof { lemma_split_nonempty(pre, clause); }
        let c = v[i];
        let brk = if clause { c == ',' || c == ';' } else { c == '.' || c == '!' || c == '?' };
        let ghost before = views(out@);
        if brk {
            out.push(Vec::new());
            assert(views(out@) =~= before.push(Seq::empty()));
        } else {
            let last = out.len() - 1;
            let mut piece = out.remove(last);
            piece.push(c);
            out.push(piece);
            assert(views(out@) =~= before.update(before.len() - 1, before.last().push(c)));
        }
        i = i + 1;
    }
    assert(v@.take(v@.len() as int) == v@);
    out
}

/// Trims the pieces and drops the empty ones.
fn trim_pieces(ps: &Vec<Vec<char>>) -> (r: Vec<Vec<char>>)
    ensures
        views(r@) == trimmed_pieces(views(ps@)),
{
    let mut out: Vec<Vec<char>> = Vec::new();
    let mut i: usize = 0;
    while i < ps.len()
        invariant
            i <= ps@.len(),
            views(out@) == trimmed_pieces(views(ps@).take(i as int)),
        decreases ps@.len() - i,
    {
        assert(views(ps@).take(i + 1).drop_last() =~= views(ps@).take(i as int));
        assert(views(ps@).take(i + 1).last() == ps@[i as int]@);
        let t = trim_chars(ps[i].as_slice());
        let ghost before = views(out@);
        if t.len() > 0 {
            out.push(t);
            assert(views(out@) =~= before.push(trim(ps@[i as int]@)));
        }
        i = i + 1;
    }
    assert(views(ps@).take(ps@.len() as int) =~= views(ps@));
    out
}

/// Whether the characters contain `c`.
fn has_char(v: &[char], c: char) -> (b: bool)
    ensures
        b == v@.contains(c),
{
    let mut i: usize = 0;
    while i < v.len()
        invariant
            i <= v@.len(),
            forall|j: int| 0 <= j < i ==> v@[j] != c,
        decreases v@.len() - i,
    {
        if v[i] == c {
            return true;
        }
        i = i + 1;
    }
    false
}

/// Whether `pattern` occurs in the characters.
fn has_text(v: &[char], pattern: &str) -> (b: bool)
    ensures
        b == has_infix(v@, pattern@),
{
    let p = chars_of(pattern);
    crate::text::chars_contain(v, p.as_slice())
}

/// Splits text into chunks for synthesis.
pub struct SemanticChunker {
    config: ChunkerConfig,
}

impl SemanticChunker {
    /// The sizes the chunker works with.
    pub closed spec fn settings(&self) -> ChunkerConfig {
        self.config
    }

    pub fn new(config: ChunkerConfig) -> (c: Self)
        ensures
            c.settings() == config,
    {
        SemanticChunker { config }
    }

    /// Whether a sentence has a natural pause (see `has_pause`).
    fn find_pause_points(&self, text: &[char]) -> (b: bool)
        ensures
            b == has_pause(text@),
    {
        has_char(text, ',') || has_char(text, ';') || has_text(text, " and ") || has_text(text, " as ")
            || has_text(text, " while ") || has_text(text, " when ") || has_text(text, " but ")
            || has_text(text, " or ")
    }

    /// A chunk of the given text.
    fn create_chunk(&self, text: &[char]) -> (c: TextChunk)
        ensures
            c.text@ == text@,
            c.char_count == text@.len(),
            c.estimated_duration_ms == duration_ms_for(text@.len() as int),
    {
        let n = text.len();
        let ms: u64 = match (n as u64).checked_mul(80) {
            Some(m) => m,
            None => u64::MAX,
        };
        TextChunk { text: string_of(text), estimated_duration_ms: ms, char_count: n }
    }

    /// Chunks with the profile's limits (the configuration's minimum and
    /// target when there is no profile).
    pub fn chunk(&self, text: &str) -> (res: Result<Vec<TextChunk>, TtsError>)
        ensures
            res matches Ok(v) && counts_match(v@)
                && chunk_texts(v@) == profile_chunks(text@, self.settings().min_chars as int, self.settings().target_chars as int),
    {
        self.chunk_with_profile(text, None)
    }

    /// Chunks greedily by words: the first chunk up to the profile's first
    /// limit, the others up to its next limit (the configuration's minimum
    /// and target without a profile).
    pub fn chunk_with_profile(&self, text: &str, profile: Option<&TtsProfile>) -> (res: Result<Vec<TextChunk>, TtsError>)
        ensures
            res matches Ok(v) && counts_match(v@) && chunk_texts(v@) == (match profile {
                Some(p) => profile_chunks(text@, p.first_chunk_max_chars as int, p.next_chunk_max_chars as int),
                None => profile_chunks(text@, self.settings().min_chars as int, self.settings().target_chars as int),
            }),
    {
        let (first_limit, next_limit) = match profile {
            Some(p) => (p.first_chunk_max_chars, p.next_chunk_max_chars),
            None => (self.config.min_chars, self.config.target_chars),
        };
        let cs = chars_of(text);
        let words = split_words(&cs);
        let ghost ws = words_of(text@);
        let mut chunks: Vec<TextChunk> = Vec::new();
        if words.len() == 0 {
            assert(chunk_texts(chunks@) =~= profile_chunks(text@, first_limit as int, next_limit as int));
            return Ok(chunks);
        }
        let mut current: Vec<char> = Vec::new();
        let mut limit: usize = first_limit;
        let mut i: usize = 0;
        while i < words.len()
            invariant
                i <= words@.len() == ws.len(),
                forall|k: int| 0 <= k < words@.len() ==> (#[trigger] words@[k])@ == ws[k],
                ({
                    let st = word_fold(ws, i as int, first_limit as int, next_limit as int);
                    &&& chunk_texts(chunks@) == st.chunks
                    &&& current@ == st.current
                    &&& limit == st.limit
                }),
                counts_match(chunks@),
            decreases words@.len() - i,
        {
            let ghost st = word_fold(ws, i as int, first_limit as int, next_limit as int);
            let mut piece: Vec<char> = Vec::new();
            if current.len() > 0 {
                piece.push(' ');
            }
            append_chars(&mut piece, words[i].as_slice());
            assert(piece@ == if st.current.len() == 0 { ws[i as int] } else { seq![' '] + ws[i as int] });
            let a = byte_len(current.as_slice());
            let b = byte_len(piece.as_slice());
            if (b > limit || a > limit - b) && current.len() > 0 {
                let c = self.create_chunk(current.as_slice());
                let ghost before = chunks@;
                chunks.push(c);
                assert(chunk_texts(chunks@) =~= chunk_texts(before).push(st.current));
                current = Vec::new();
                limit = next_limit;
            }
            append_chars(&mut current, piece.as_slice());
            i = i + 1;
        }
        if current.len() > 0 {
            let c = self.create_chunk(current.as_slice());
            let ghost before = chunks@;
            chunks.push(c);
            assert(chunk_texts(chunks@) =~= chunk_texts(before).push(current@));
        }
        Ok(chunks)
    }

    /// Chunks by sentences and clauses (see `legacy_chunks`).
    pub fn chunk_legacy(&self, text: &str) -> (res: Result<Vec<TextChunk>, TtsError>)
        ensures
            res matches Ok(v) && counts_match(v@) && chunk_texts(v@) == legacy_chunks(text@, self.settings()),
    {
        let cfg = self.config;
        let cs = chars_of(text);
        let pieces = split_breaks(cs.as_slice(), false);
        let sentences = trim_pieces(&pieces);
        let ghost ss = sentences_of(text@);
        let eighty: usize = cfg.target_chars / 5 * 4 + cfg.target_chars % 5 * 4 / 5;
        proof {
            let t = cfg.target_chars as int;
            assert(t / 5 * 4 + t % 5 * 4 / 5 == t * 4 / 5) by (nonlinear_arith)
                requires t >= 0;
        }
        let mut chunks: Vec<TextChunk> = Vec::new();
        let mut current: Vec<char> = Vec::new();
        let mut count: usize = 0;
        let mut i: usize = 0;
        while i < sentences.len()
            invariant
                i <= sentences@.len() == ss.len(),
                cfg == self.settings(),
                eighty == four_fifths(cfg.target_chars as int),
                forall|k: int| 0 <= k < sentences@.len() ==> (#[trigger] sentences@[k])@ == ss[k],
                ({
                    let st = sentence_fold(ss, i as int, cfg);
                    &&& chunk_texts(chunks@) == st.chunks
                    &&& current@ == st.current
                    &&& count == st.count
                }),
                counts_match(chunks@),
            decreases sentences@.len() - i,
        {
            let sentence = sentences[i].as_slice();
            let slen = byte_len(sentence);
            if (slen > cfg.max_chars || count > cfg.max_chars - slen) && current.len() > 0 {
                let c = self.create_chunk(current.as_slice());
                let ghost before = chunks@;
                chunks.push(c);
                assert(chunk_texts(chunks@) =~= chunk_texts(before).push(current@));
                current = Vec::new();
                count = 0;
            }
            if !self.find_pause_points(sentence) {
                if current.len() > 0 {
                    current.push(' ');
                }
                append_chars(&mut current, sentence);
                current.push('.');
                count = count.saturating_add(slen).saturating_add(1);
            } else {
                let raw_parts = split_breaks(sentence, true);
                let parts = trim_pieces(&raw_parts);
                let ghost ps = clauses_of(ss[i as int]);
                let ghost start = LegacyState { chunks: chunk_texts(chunks@), current: current@, count: count as int };
                let mut k: usize = 0;
                while k < parts.len()
                    invariant
                        k <= parts@.len() == ps.len(),
                        cfg == self.settings(),
                        forall|m: int| 0 <= m < parts@.len() ==> (#[trigger] parts@[m])@ == ps[m],
                        ({
                            let st = clause_fold(start, ps, k as int, cfg);
                            &&& chunk_texts(chunks@) == st.chunks
                            &&& current@ == st.current
                            &&& count == st.count
                        }),
                        counts_match(chunks@),
                    decreases parts@.len() - k,
                {
                    let part = parts[k].as_slice();
                    let plen = byte_len(part);
                    if (plen > cfg.max_chars || count > cfg.max_chars - plen) && current.len() > 0 {
                        let c = self.create_chunk(current.as_slice());
                        let ghost before = chunks@;
                        chunks.push(c);
                        assert(chunk_texts(chunks@) =~= chunk_texts(before).push(current@));
                        current = Vec::new();
                        count = 0;
                    }
                    if current.len() > 0 {
                        current.push(' ');
                    }
                    append_chars(&mut current, part);
                    count = count.saturating_add(plen);
                    if count >= cfg.target_chars && count >= cfg.min_chars {
                        let c = self.create_chunk(current.as_slice());
                        let ghost before = chunks@;
                        chunks.push(c);
                        assert(chunk_texts(chunks@) =~= chunk_texts(before).push(current@));
                        current = Vec::new();
                        count = 0;
                    }
                    k = k + 1;
                }
                if current.len() > 0 {
                    current.push('.');
                    count = count.saturating_add(1);
                }
            }
            if count >= cfg.min_chars && count >= eighty {
                let c = self.create_chunk(current.as_slice());
                let ghost before = chunks@;
                chunks.push(c);
                assert(chunk_texts(chunks@) =~= chunk_texts(before).push(current@));
                current = Vec::new();
                count = 0;
            }
            i = i + 1;
        }
        if current.len() > 0 {
            let c = self.create_chunk(current.as_slice());
            let ghost before = chunks@;
            chunks.push(c);
            assert(chunk_texts(chunks@) =~= chunk_texts(before).push(current@));
        }
        Ok(chunks)
    }
}

/// The chunks written one after the other.
pub open spec fn flatten(cs: Seq<Seq<char>>) -> Seq<char>
    decreases cs.len(),
{
    if cs.len() == 0 { Seq::empty() } else { flatten(cs.drop_last()) + cs.last() }
}

/// The words with one space between each two.
pub open spec fn join_words(ws: Seq<Seq<char>>) -> Seq<char>
    decreases ws.len(),
{
    if ws.len() == 0 {
        Seq::empty()
    } else if ws.len() == 1 {
        ws[0]
    } else {
        join_words(ws.drop_last()) + seq![' '] + ws.last()
    }
}

proof fn lemma_words_nonempty(s: Seq<char>)
    ensures
        forall|k: int| 0 <= k < words_of(s).len() ==> (#[trigger] words_of(s)[k]).len() > 0,
    decreases s.len(),
{
    if s.len() > 0 {
        lemma_words_nonempty(s.drop_last());
        let w = words_of(s.drop_last());
        let c = s.last();
        if !crate::text::is_white_space(c) && s.len() >= 2 && !crate::text::is_white_space(s[s.len() - 2]) {
            crate::text::lemma_words_step(s);
            assert forall|k: int| 0 <= k < words_of(s).len() implies (#[trigger] words_of(s)[k]).len() > 0 by {
                if k < w.len() - 1 {
                    assert(words_of(s)[k] == w[k]);
                }
            }
        } else if !crate::text::is_white_space(c) {
            assert forall|k: int| 0 <= k < words_of(s).len() implies (#[trigger] words_of(s)[k]).len() > 0 by {
                if k < w.len() {
                    assert(words_of(s)[k] == w[k]);
                }
            }
        }
    }
}

proof fn lemma_word_fold_keeps_text(ws: Seq<Seq<char>>, i: int, first_limit: int, next_limit: int)
    requires
        0 <= i <= ws.len(),
        forall|k: int| 0 <= k < ws.len() ==> (#[trigger] ws[k]).len() > 0,
    ensures
        flatten(word_fold(ws, i, first_limit, next_limit).chunks) + word_fold(ws, i, first_limit, next_limit).current
            == join_words(ws.take(i)),
        i > 0 ==> word_fold(ws, i, first_limit, next_limit).current.len() > 0,
    decreases i,
{
    if i > 0 {
        lemma_word_fold_keeps_text(ws, i - 1, first_limit, next_limit);
        let st = word_fold(ws, i - 1, first_limit, next_limit);
        let w = ws[i - 1];
        assert(ws.take(i).drop_last() =~= ws.take(i - 1));
        assert(ws.take(i).last() == w);
        let piece = if st.current.len() == 0 { w } else { seq![' '] + w };
        if blen(st.current) + blen(piece) > st.limit && st.current.len() > 0 {
            assert(st.chunks.push(st.current).drop_last() =~= st.chunks);
            assert(Seq::<char>::empty() + piece =~= piece);
        }
        if i == 1 {
            assert(ws.take(1) =~= seq![w]);
            assert(ws.take(0) =~= Seq::<Seq<char>>::empty());
        }
    }
}

/// Chunking by words loses nothing and adds nothing: the chunks written one
/// after the other are the text's words with single spaces between them.
pub proof fn law_profile_chunks_keep_text(text: Seq<char>, first_limit: int, next_limit: int)
    ensures
        flatten(profile_chunks(text, first_limit, next_limit)) == join_words(words_of(text)),
{
    let ws = words_of(text);
    lemma_words_nonempty(text);
    lemma_word_fold_keeps_text(ws, ws.len() as int, first_limit, next_limit);
    let st = word_fold(ws, ws.len() as int, first_limit, next_limit);
    assert(ws.take(ws.len() as int) =~= ws);
    if st.current.len() > 0 {
        assert(st.chunks.push(st.current).drop_last() =~= st.chunks);
    } else {
        assert(flatten(st.chunks) + st.current =~= flatten(st.chunks));
    }
}

/// The UTF-8 encoding of two texts one after the other is the encoding of
/// the first followed by that of the second.
proof fn lemma_encode_concat(a: Seq<char>, b: Seq<char>)
    ensures
        encode_utf8(a + b) == encode_utf8(a) + encode_utf8(b),
    decreases a.len(),
{
    if a.len() == 0 {
        assert(a + b =~= b);
        assert(encode_utf8(a) =~= Seq::<u8>::empty());
        assert(encode_utf8(a) + encode_utf8(b) =~= encode_utf8(b));
    } else {
        lemma_encode_concat(a.drop_first(), b);
        assert((a + b).drop_first() =~= a.drop_first() + b);
        assert((a + b)[0] == a[0]);
    }
}

/// The chunk is one word of the list, alone or after a space.
pub open spec fn is_single_word(c: Seq<char>, ws: Seq<Seq<char>>) -> bool {
    exists|j: int| 0 <= j < ws.len() && (c == #[trigger] ws[j] || c == seq![' '] + ws[j])
}

/// The limit of the chunk at `k`: the first chunk has its own.
pub open spec fn limit_at(k: int, first_limit: int, next_limit: int) -> int {
    if k == 0 { first_limit } else { next_limit }
}

proof fn lemma_word_fold_limits(ws: Seq<Seq<char>>, i: int, first_limit: int, next_limit: int)
    requires
        0 <= i <= ws.len(),
        0 <= first_limit <= usize::MAX,
        0 <= next_limit <= usize::MAX,
        forall|k: int| 0 <= k < ws.len() ==> encode_utf8(#[trigger] ws[k]).len() < usize::MAX,
    ensures
        ({
            let st = word_fold(ws, i, first_limit, next_limit);
            &&& st.limit == limit_at(st.chunks.len() as int, first_limit, next_limit)
            &&& encode_utf8(st.current).len() <= usize::MAX
            &&& (blen(st.current) <= st.limit || is_single_word(st.current, ws))
            &&& forall|k: int| 0 <= k < st.chunks.len() ==>
                blen(#[trigger] st.chunks[k]) <= limit_at(k, first_limit, next_limit) || is_single_word(st.chunks[k], ws)
        }),
    decreases i,
{
    if i > 0 {
        lemma_word_fold_limits(ws, i - 1, first_limit, next_limit);
        let st = word_fold(ws, i - 1, first_limit, next_limit);
        let w = ws[i - 1];
        let piece = if st.current.len() == 0 { w } else { seq![' '] + w };
        lemma_encode_concat(seq![' '], w);
        assert(encode_utf8(seq![' ']).len() == 1) by {
            assert(seq![' '].drop_first() =~= Seq::<char>::empty());
            assert(encode_utf8(Seq::<char>::empty()) =~= Seq::<u8>::empty());
        }
        assert(encode_utf8(piece).len() <= usize::MAX);
        assert(is_single_word(piece, ws)) by {
            assert(piece == ws[i - 1] || piece == seq![' '] + ws[i - 1]);
        }
        let nst = word_fold(ws, i, first_limit, next_limit);
        if blen(st.current) + blen(piece) > st.limit && st.current.len() > 0 {
            assert(nst.current =~= piece);
            assert forall|k: int| 0 <= k < nst.chunks.len() implies
                blen(#[trigger] nst.chunks[k]) <= limit_at(k, first_limit, next_limit) || is_single_word(nst.chunks[k], ws) by {
                if k < st.chunks.len() {
                    assert(nst.chunks[k] == st.chunks[k]);
                }
            }
        } else {
            lemma_encode_concat(st.current, piece);
            if st.current.len() == 0 {
                assert(nst.current =~= piece);
            } else {
                assert(blen(nst.current) <= st.limit);
            }
        }
    }
}

/// Chunking by words keeps each chunk within its limit, the first chunk
/// within `first_limit` and the others within `next_limit`, unless the
/// chunk is a single word longer than the limit by itself (a word is never
/// split).
pub proof fn law_profile_chunks_within_limits(text: Seq<char>, first_limit: int, next_limit: int)
    requires
        0 <= first_limit <= usize::MAX,
        0 <= next_limit <= usize::MAX,
        forall|k: int| 0 <= k < words_of(text).len() ==> encode_utf8(#[trigger] words_of(text)[k]).len() < usize::MAX,
    ensures
        forall|k: int| 0 <= k < profile_chunks(text, first_limit, next_limit).len() ==>
            blen(#[trigger] profile_chunks(text, first_limit, next_limit)[k]) <= limit_at(k, first_limit, next_limit)
            || is_single_word(profile_chunks(text, first_limit, next_limit)[k], words_of(text)),
{
    let ws = words_of(text);
    lemma_word_fold_limits(ws, ws.len() as int, first_limit, next_limit);
    let st = word_fold(ws, ws.len() as int, first_limit, next_limit);
    let cs = profile_chunks(text, first_limit, next_limit);
    assert forall|k: int| 0 <= k < cs.len() implies
        blen(#[trigger] cs[k]) <= limit_at(k, first_limit, next_limit) || is_single_word(cs[k], ws) by {
        if k < st.chunks.len() {
            assert(cs[k] == st.chunks[k]);
        }
    }
}

} // verus!
