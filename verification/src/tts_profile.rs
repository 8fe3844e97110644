use vstd::prelude::*;
use crate::text::{ascii_lowered, ascii_text, has_infix, lowercase, text_contains, to_lowercase};

verus! {

/// The two synthesis profiles.
#[derive(Debug, Clone, Copy, PartialEq, Eq, Structural)]
pub enum TtsProfileType {
    /// Low latency, for the small language model.
    Fast,
    /// Higher quality, for the large language model.
    Cinematic,
}

/// How speech is chunked, sampled and buffered.
#[derive(Debug, Clone, Copy, PartialEq, Eq, Structural)]
pub struct TtsProfile {
    pub profile_type: TtsProfileType,
    /// Most characters in the first chunk.
    pub first_chunk_max_chars: usize,
    /// Most characters in each later chunk.
    pub next_chunk_max_chars: usize,
    /// Samples per second.
    pub sample_rate: u32,
    /// Whether inference runs at half precision.
    pub use_fp16: bool,
    /// Length of a streamed audio block, in milliseconds.
    pub audio_block_ms: u32,
    /// Audio buffered before playback starts, in milliseconds.
    pub initial_prebuffer_ms: u32,
}

/// The fast profile.
pub open spec fn fast_profile() -> TtsProfile {
    TtsProfile {
        profile_type: TtsProfileType::Fast,
        first_chunk_max_chars: 30,
        next_chunk_max_chars: 90,
        sample_rate: 16000,
        use_fp16: true,
        audio_block_ms: 50,
        initial_prebuffer_ms: 240,
    }
}

/// The cinematic profile.
pub open spec fn cinematic_profile() -> TtsProfile {
    TtsProfile {
        profile_type: TtsProfileType::Cinematic,
        first_chunk_max_chars: 100,
        next_chunk_max_chars: 150,
        sample_rate: 24000,
        use_fp16: true,
        audio_block_ms: 60,
        initial_prebuffer_ms: 500,
    }
}

/// A model whose lower-cased name mentions "1.5" or "1_5" is the small
/// one.
pub open spec fn is_small_model(name: Seq<char>) -> bool {
    has_infix(lowercase(name), "1.5"@) || has_infix(lowercase(name), "1_5"@)
}

/// Samples in `ms` milliseconds at `rate` samples per second, rounded down.
pub open spec fn samples_in(rate: u32, ms: u32) -> int {
    (rate * ms) / 1000
}

impl TtsProfile {
    pub fn fast() -> (p: Self)
        ensures
            p == fast_profile(),
    {
        TtsProfile {
            profile_type: TtsProfileType::Fast,
            first_chunk_max_chars: 30,
            next_chunk_max_chars: 90,
            sample_rate: 16000,
            use_fp16: true,
            audio_block_ms: 50,
            initial_prebuffer_ms: 240,
        }
    }

    pub fn cinematic() -> (p: Self)
        ensures
            p == cinematic_profile(),
    {
        TtsProfile {
            profile_type: TtsProfileType::Cinematic,
            first_chunk_max_chars: 100,
            next_chunk_max_chars: 150,
            sample_rate: 24000,
            use_fp16: true,
            audio_block_ms: 60,
            initial_prebuffer_ms: 500,
        }
    }

    /// The fast profile for the small model, the cinematic one for every
    /// other model.
    pub fn from_llm_model(llm_model_name: &str) -> (p: Self)
        ensures
            p == if is_small_model(llm_model_name@) { fast_profile() } else { cinematic_profile() },
            ascii_text(llm_model_name@) ==> lowercase(llm_model_name@) == ascii_lowered(llm_model_name@),
    {
        let model_lower = to_lowercase(llm_model_name);
        if text_contains(model_lower.as_str(), "1.5") || text_contains(model_lower.as_str(), "1_5") {
            Self::fast()
        } else {
            Self::cinematic()
        }
    }

    /// Samples in one audio block.
    pub fn audio_block_samples(&self) -> (n: usize)
        requires
            self.sample_rate * self.audio_block_ms <= u32::MAX,
        ensures
            n == samples_in(self.sample_rate, self.audio_block_ms),
    {
        (self.sample_rate * self.audio_block_ms / 1000) as usize
    }

    /// Samples buffered before playback starts.
    pub fn initial_prebuffer_samples(&self) -> (n: usize)
        requires
            self.sample_rate * self.initial_prebuffer_ms <= u32::MAX,
        ensures
            n == samples_in(self.sample_rate, self.initial_prebuffer_ms),
    {
        (self.sample_rate * self.initial_prebuffer_ms / 1000) as usize
    }
}

impl Default for TtsProfile {
    fn default() -> (p: Self)
        ensures
            p == cinematic_profile(),
    {
        Self::cinematic()
    }
}

} // verus!
