use vstd::prelude::*;

verus! {

/// Every way an operation of the binding can fail.
#[derive(Debug, Clone, Copy, PartialEq, Eq, Structural)]
pub enum SenseVoiceError {
    /// A string handed to the engine (a model path or a language) holds a nul byte,
    /// so it has no nul-terminated form; `idx` is the byte offset of the first one.
    NullByteInString { idx: usize },
    /// The engine could not build a context from the model file.
    InitError,
    /// An operation that needs audio was given an empty sample buffer.
    NoSamples,
    /// The engine failed to compute the spectrogram of the audio.
    UnableToCalculateSpectrogram,
    /// The engine's encoder stage failed.
    FailedToEncode,
    /// The engine's decoder stage failed.
    FailedToDecode,
    /// The engine returned no text where text was expected.
    NullPointer,
    /// Any other status code, carried as it was returned.
    GenericError(i32),
}

} // verus!
