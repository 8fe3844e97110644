//! Deterministic D&D 5e rules engine and text-to-speech planning logic.
//!
//! The rules half resolves dice, checks, attacks, damage, challenge ratings,
//! skills, spells, weapons and conditions.  The speech half holds the text
//! processing that decides what is synthesized and how it is split.

pub mod error;
pub mod dice;
pub mod text;
pub mod ability;
pub mod attack;
pub mod ability_scores;
pub mod cr_xp;
pub mod damage;
pub mod skills;
pub mod spells;
pub mod weapons;
pub mod condition;
pub mod tts_error;
pub mod tts_profile;
pub mod voice_intent;
pub mod phonemizer;
pub mod interjections;
pub mod metrics;
pub mod prebuffer_manager;
pub mod pipeline;
pub mod semantic_chunker;
pub mod rules_api;
pub mod xtts;
pub mod gpu;
pub mod streaming;
pub mod voice_profiles;
pub mod audio_buffer;
pub mod tts_api;
