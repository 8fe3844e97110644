use vstd::prelude::*;
use std::time::Instant;
use crate::tts_profile::{cinematic_profile, fast_profile, is_small_model, TtsProfile};

verus! {

/// A request to stream speech.
#[derive(Debug, Clone)]
pub struct StreamingRequest {
    /// Text to synthesize.
    pub text: String,
    /// The character whose voice speaks it.
    pub character_id: String,
    /// Language code.
    pub language: String,
    /// The profile to use; chosen from the language model when absent.
    pub profile: Option<TtsProfile>,
    /// The language model that wrote the text.
    pub llm_model_name: Option<String>,
    /// When the user stopped speaking.
    pub user_speech_end_ts: Option<Instant>,
}

/// Where a stream stands.
#[derive(Debug, Clone)]
pub enum StreamingStatus {
    Initializing,
    Chunking,
    Generating,
    Playing,
    Completed,
    Error(String),
    Cancelled,
}

/// One block of streamed audio, numbered from 1.
#[derive(Debug, Clone)]
pub struct AudioChunkMessage {
    pub chunk_id: u64,
    pub samples: Vec<i16>,
    pub sample_rate: u32,
    pub channels: u16,
}

/// The profile a stream uses: the request's own, else the one its
/// language model calls for, else the cinematic one.
pub open spec fn profile_for(profile: Option<TtsProfile>, llm_model_name: Option<Seq<char>>) -> TtsProfile {
    match profile {
        Some(p) => p,
        None => match llm_model_name {
            Some(m) => if is_small_model(m) { fast_profile() } else { cinematic_profile() },
            None => cinematic_profile(),
        },
    }
}

/// The profile a request is streamed with (see `profile_for`).
pub fn streaming_profile(request: &StreamingRequest) -> (p: TtsProfile)
    ensures
        p == profile_for(request.profile, match request.llm_model_name {
            Some(m) => Some(m@),
            None => None,
        }),
{
    match &request.profile {
        Some(p) => *p,
        None => match &request.llm_model_name {
            Some(m) => TtsProfile::from_llm_model(m.as_str()),
            None => TtsProfile::cinematic(),
        },
    }
}

/// How many chunks are generated before playback: the first two, or all
/// when there are fewer, and at least one.
pub open spec fn prebuffer_count(chunks: nat) -> nat {
    if chunks < 1 { 1 } else if chunks < 2 { chunks } else { 2 }
}

/// The chunks generated before playback (see `prebuffer_count`).
pub fn prebuffer_chunk_count(chunks: usize) -> (n: usize)
    ensures
        n == prebuffer_count(chunks as nat),
{
    if chunks < 1 { 1 } else if chunks < 2 { chunks } else { 2 }
}

} // verus!
