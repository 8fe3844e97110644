use vstd::prelude::*;

verus! {

/// Errors of the speech service.
#[derive(Debug, Clone)]
pub enum TtsError {
    /// A model could not be loaded.
    ModelLoad(String),
    /// Speech could not be synthesized.
    Synthesis(String),
    /// A voice is missing or unusable.
    Voice(String),
    /// Audio could not be processed.
    Audio(String),
    /// The inference runtime failed.
    Onnx(String),
}

} // verus!
