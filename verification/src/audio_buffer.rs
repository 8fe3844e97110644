use vstd::prelude::*;
use std::collections::VecDeque;

verus! {

/// How audio samples are stored.
#[derive(Debug, Clone, Copy, PartialEq, Eq, Structural)]
pub enum AudioFormat {
    /// 32-bit floating point, as synthesized.
    Float32,
    /// 16-bit integers, as played.
    Int16,
}

/// A piece of audio: its samples (of any sample type), rate and channels.
#[derive(Debug, Clone)]
pub struct AudioChunk<S> {
    pub samples: Vec<S>,
    /// Samples per second.
    pub sample_rate: u32,
    /// 1 for mono, 2 for stereo.
    pub channels: u16,
}

/// The samples of the chunks, one after the other.
pub open spec fn flat<S>(cs: Seq<AudioChunk<S>>) -> Seq<S>
    decreases cs.len(),
{
    if cs.len() == 0 {
        Seq::empty()
    } else {
        cs[0].samples@ + flat(cs.drop_first())
    }
}

/// `n` copies of `s`.
pub open spec fn silence_of<S>(n: nat, s: S) -> Seq<S> {
    Seq::new(n, |i: int| s)
}

/// Pushing a chunk puts its samples after all the others.
pub proof fn law_push_appends<S>(cs: Seq<AudioChunk<S>>, c: AudioChunk<S>)
    ensures
        flat(cs.push(c)) == flat(cs) + c.samples@,
    decreases cs.len(),
{
    if cs.len() == 0 {
        assert(cs.push(c).drop_first() =~= Seq::<AudioChunk<S>>::empty());
        assert(flat(Seq::<AudioChunk<S>>::empty()) == Seq::<S>::empty());
        assert(cs.push(c)[0] == c);
        assert(flat(cs) == Seq::<S>::empty());
        assert(flat(cs.push(c)) =~= c.samples@);
    } else {
        assert(cs.push(c).drop_first() =~= cs.drop_first().push(c));
        law_push_appends(cs.drop_first(), c);
        assert(flat(cs.push(c)) =~= flat(cs) + c.samples@);
    }
}

/// A first-in first-out queue of audio chunks.
pub struct AudioQueue<S> {
    chunks: VecDeque<AudioChunk<S>>,
}

impl<S> View for AudioQueue<S> {
    type V = Seq<AudioChunk<S>>;

    /// The chunks, oldest first.
    closed spec fn view(&self) -> Seq<AudioChunk<S>> {
        self.chunks@
    }
}

impl<S: Copy> AudioQueue<S> {
    /// An empty queue.
    pub fn new() -> (q: Self)
        ensures
            q@.len() == 0,
    {
        AudioQueue { chunks: VecDeque::new() }
    }

    /// Adds a chunk after the others.
    pub fn push_back(&mut self, chunk: AudioChunk<S>)
        ensures
            final(self)@ == old(self)@.push(chunk),
            flat(final(self)@) == flat(old(self)@) + chunk.samples@,
    {
        proof { law_push_appends(self.chunks@, chunk); }
        self.chunks.push_back(chunk);
    }

    /// Takes the next `n` samples, in order; when the queue runs out, the
    /// rest is `silence`.  Used chunks leave the queue; a chunk used in part
    /// keeps the samples not taken.
    pub fn pop_block(&mut self, n: usize, silence: S) -> (r: Vec<S>)
        ensures
            ({
                let f = flat(old(self)@);
                let k = if n <= f.len() { n as int } else { f.len() as int };
                &&& r@ == f.take(k) + silence_of((n - k) as nat, silence)
                &&& flat(final(self)@) == f.skip(k)
            }),
    {
        let ghost f = flat(self.chunks@);
        let mut result: Vec<S> = Vec::new();
        let mut remaining = n;
        while remaining > 0 && self.chunks.len() > 0
            invariant
                result@ + flat(self.chunks@) == f,
                result@.len() + remaining == n,
            decreases remaining, self.chunks@.len(),
        {
            let ghost before = self.chunks@;
            let chunk = self.chunks.pop_front().unwrap();
            assert(self.chunks@ == before.drop_first());
            let AudioChunk { samples, sample_rate, channels } = chunk;
            let mut samples = samples;
            if samples.len() <= remaining {
                remaining = remaining - samples.len();
                result.append(&mut samples);
            } else {
                let ghost whole = samples@;
                let rest = samples.split_off(remaining);
                assert(whole == samples@ + rest@);
                result.append(&mut samples);
                remaining = 0;
                self.chunks.push_front(AudioChunk { samples: rest, sample_rate, channels });
                assert(self.chunks@.drop_first() == before.drop_first());
            }
        }
        let ghost taken = result@;
        let ghost k = taken.len() as int;
        assert(taken == f.take(k));
        assert(flat(self.chunks@) == f.skip(k));
        let mut pad: usize = 0;
        while pad < remaining
            invariant
                pad <= remaining,
                result@ == taken + silence_of(pad as nat, silence),
            decreases remaining - pad,
        {
            result.push(silence);
            pad = pad + 1;
            assert(result@ =~= taken + silence_of(pad as nat, silence));
        }
        if remaining > 0 {
            assert(flat(self.chunks@).len() == 0) by {
                if self.chunks@.len() > 0 {
                    assert(false);
                }
            }
        }
        result
    }

    /// Removes every chunk.
    pub fn clear(&mut self)
        ensures
            final(self)@.len() == 0,
    {
        self.chunks.clear();
    }

    /// Whether the queue holds no chunk.
    pub fn is_empty(&self) -> (b: bool)
        ensures
            b == (self@.len() == 0),
    {
        self.chunks.len() == 0
    }

    /// The number of chunks.
    pub fn chunk_count(&self) -> (n: usize)
        ensures
            n == self@.len(),
    {
        self.chunks.len()
    }

    /// The chunk at position `i`, oldest first.
    pub fn chunk(&self, i: usize) -> (c: &AudioChunk<S>)
        requires
            i < self@.len(),
        ensures
            *c == self@[i as int],
    {
        &self.chunks[i]
    }
}

} // verus!
