//! Safe, verified core of a binding to the SenseVoice speech-recognition engine.
//!
//! The library holds everything that decides: the per-call configuration and its builder,
//! the context configuration, the marshalling of both into the engine's request shapes,
//! the guards that run before the engine is entered, and the mapping of the engine's
//! status codes to structured errors. Crossing into native code is left to the caller,
//! which hands the library plain values and takes plain values back.
pub mod context;
pub mod error;
pub mod invoke;
pub mod nul;
pub mod params;

pub use crate::context::{
    init_outcome, prepare_context, InitRequest, NativeContextParams, SenseVoiceContextParameters,
};
pub use crate::error::SenseVoiceError;
pub use crate::invoke::{
    full_parallel_outcome, prepare_full_parallel, prepare_speech_prob, text_outcome,
    InvokeRequest, NativeFullParams, SpeechProbRequest, N_PROCESSORS,
};
pub use crate::params::{
    BeamSearchParams, GreedyParams, SenseVoiceDecodingStrategy, SenseVoiceFullParams,
    SenseVoiceFullParamsBuilder,
};
