use vstd::prelude::*;
use vstd::utf8::encode_utf8;
use crate::error::SenseVoiceError;
use crate::nul::{check_nul_free, has_nul, reports_first_nul};
use crate::params::{FullParamsView, SenseVoiceDecodingStrategy, SenseVoiceFullParams};

verus! {

/// Parallelism the engine uses inside one decode. It is distinct from the configured
/// thread count, which the engine uses elsewhere, and both are passed.
pub const N_PROCESSORS: i32 = 8;

/// Status code of a successful inference.
pub const STATUS_OK: i32 = 0;

/// Status code of a failed spectrogram computation.
pub const STATUS_SPECTROGRAM_FAILED: i32 = -1;

/// Status code of a failed encoder stage.
pub const STATUS_ENCODE_FAILED: i32 = 7;

/// Status code of a failed decoder stage.
pub const STATUS_DECODE_FAILED: i32 = 8;

/// The engine's per-call request, as plain values.
///
/// The language is the configured one, free of nul bytes; it becomes the transient
/// nul-terminated copy that must outlive the engine call. The progress-callback slots are
/// always empty.
#[derive(Debug, Clone)]
pub struct NativeFullParams {
    pub strategy: u32,
    pub n_threads: i32,
    pub language: String,
    pub n_max_text_ctx: i32,
    pub offset_ms: i32,
    pub duration_ms: i32,
    pub no_timestamps: bool,
    pub single_segment: bool,
    pub print_progress: bool,
    pub print_timestamps: bool,
    pub debug_mode: bool,
    pub audio_ctx: i32,
    pub greedy_best_of: i32,
    pub beam_search_beam_size: i32,
    /// Address of the progress callback; none.
    pub progress_callback: Option<usize>,
    /// Address of the progress callback's user data; null.
    pub progress_callback_user_data: usize,
}

/// The engine's code for a decoding strategy.
pub open spec fn strategy_code(s: SenseVoiceDecodingStrategy) -> u32 {
    match s {
        SenseVoiceDecodingStrategy::SamplingGreedy => 0,
        SenseVoiceDecodingStrategy::SamplingBeamSearch => 1,
    }
}

/// `c` is the request that the call configuration `p` marshals to: each field carried
/// over as it is, the callback slots empty.
pub open spec fn marshals_to(p: FullParamsView, c: NativeFullParams) -> bool {
    &&& c.strategy == strategy_code(p.strategy)
    &&& c.n_threads == p.n_threads
    &&& c.language@ == p.language
    &&& c.n_max_text_ctx == p.n_max_text_ctx
    &&& c.offset_ms == p.offset_ms
    &&& c.duration_ms == p.duration_ms
    &&& c.no_timestamps == p.no_timestamps
    &&& c.single_segment == p.single_segment
    &&& c.print_progress == p.print_progress
    &&& c.print_timestamps == p.print_timestamps
    &&& c.debug_mode == p.debug_mode
    &&& c.audio_ctx == p.audio_ctx
    &&& c.greedy_best_of == p.best_of
    &&& c.beam_search_beam_size == p.beam_size
    &&& c.progress_callback is None
    &&& c.progress_callback_user_data == 0
}

/// What the engine's status code means: a fixed lookup, anything unlisted carried as is.
pub open spec fn status_outcome(ret: i32) -> Result<i32, SenseVoiceError> {
    if ret == STATUS_OK {
        Ok(ret)
    } else if ret == STATUS_SPECTROGRAM_FAILED {
        Err(SenseVoiceError::UnableToCalculateSpectrogram)
    } else if ret == STATUS_ENCODE_FAILED {
        Err(SenseVoiceError::FailedToEncode)
    } else if ret == STATUS_DECODE_FAILED {
        Err(SenseVoiceError::FailedToDecode)
    } else {
        Err(SenseVoiceError::GenericError(ret))
    }
}

/// The status mapping is exact: zero alone is success, -1, 7 and 8 are the named stage
/// failures, and every other code is the generic failure carrying that code.
pub proof fn lemma_status_mapping(ret: i32)
    ensures
        status_outcome(ret) is Ok <==> ret == 0,
        status_outcome(ret) is Ok ==> status_outcome(ret) == Ok::<i32, SenseVoiceError>(0),
        ret == -1 ==> status_outcome(ret) == Err::<i32, SenseVoiceError>(
            SenseVoiceError::UnableToCalculateSpectrogram,
        ),
        ret == 7 ==> status_outcome(ret) == Err::<i32, SenseVoiceError>(
            SenseVoiceError::FailedToEncode,
        ),
        ret == 8 ==> status_outcome(ret) == Err::<i32, SenseVoiceError>(
            SenseVoiceError::FailedToDecode,
        ),
        ret != -1 && ret != 0 && ret != 7 && ret != 8 ==> status_outcome(ret) == Err::<
            i32,
            SenseVoiceError,
        >(SenseVoiceError::GenericError(ret)),
{
}

fn strategy_to_code(s: SenseVoiceDecodingStrategy) -> (r: u32)
    ensures
        r == strategy_code(s),
{
    match s {
        SenseVoiceDecodingStrategy::SamplingGreedy => 0,
        SenseVoiceDecodingStrategy::SamplingBeamSearch => 1,
    }
}

impl SenseVoiceFullParams {
    /// Marshals this configuration into the engine's request. Fails only where the
    /// language holds a nul byte.
    pub fn to_c_struct(&self) -> (r: Result<NativeFullParams, SenseVoiceError>)
        ensures
            r is Err <==> has_nul(encode_utf8(self.language@)),
            r matches Err(e) ==> reports_first_nul(encode_utf8(self.language@), e),
            r matches Ok(c) ==> marshals_to(self@, c),
    {
        let language = self.language.as_str();
        match check_nul_free(language) {
            Err(e) => Err(e),
            Ok(()) => Ok(
                NativeFullParams {
                    strategy: strategy_to_code(self.strategy),
                    n_threads: self.n_threads,
                    language: language.to_owned(),
                    n_max_text_ctx: self.n_max_text_ctx,
                    offset_ms: self.offset_ms,
                    duration_ms: self.duration_ms,
                    no_timestamps: self.no_timestamps,
                    single_segment: self.single_segment,
                    print_progress: self.print_progress,
                    print_timestamps: self.print_timestamps,
                    debug_mode: self.debug_mode,
                    audio_ctx: self.audio_ctx,
                    greedy_best_of: self.greedy.best_of,
                    beam_search_beam_size: self.beam_search.beam_size,
                    progress_callback: None,
                    progress_callback_user_data: 0,
                },
            ),
        }
    }
}

/// Everything one inference call hands to the engine besides the context and the samples.
pub struct InvokeRequest {
    pub params: NativeFullParams,
    /// Number of samples, as the engine takes it.
    pub n_samples: i32,
    /// The engine's internal decode parallelism.
    pub n_processors: i32,
}

/// First stage of an inference call: rejects an empty buffer before anything else (the
/// engine is unsafe on one), then marshals the configuration afresh.
pub fn prepare_full_parallel(params: &SenseVoiceFullParams, n_samples: usize) -> (r: Result<
    InvokeRequest,
    SenseVoiceError,
>)
    requires
        n_samples <= i32::MAX,
    ensures
        n_samples == 0 ==> r matches Err(SenseVoiceError::NoSamples),
        n_samples > 0 ==> (r is Err <==> has_nul(encode_utf8(params.language@))),
        n_samples > 0 ==> (r matches Err(e) ==> reports_first_nul(
            encode_utf8(params.language@),
            e,
        )),
        r matches Ok(req) ==> {
            &&& marshals_to(params@, req.params)
            &&& req.n_samples == n_samples
            &&& req.n_processors == N_PROCESSORS
        },
{
    if n_samples == 0 {
        return Err(SenseVoiceError::NoSamples);
    }
    match params.to_c_struct() {
        Err(e) => Err(e),
        Ok(c) => Ok(
            InvokeRequest { params: c, n_samples: n_samples as i32, n_processors: N_PROCESSORS },
        ),
    }
}

/// Last stage of an inference call: the engine's status code as a structured outcome.
pub fn full_parallel_outcome(ret: i32) -> (r: Result<i32, SenseVoiceError>)
    ensures
        r == status_outcome(ret),
{
    if ret == STATUS_SPECTROGRAM_FAILED {
        Err(SenseVoiceError::UnableToCalculateSpectrogram)
    } else if ret == STATUS_ENCODE_FAILED {
        Err(SenseVoiceError::FailedToEncode)
    } else if ret == STATUS_DECODE_FAILED {
        Err(SenseVoiceError::FailedToDecode)
    } else if ret == STATUS_OK {
        Ok(ret)
    } else {
        Err(SenseVoiceError::GenericError(ret))
    }
}

/// What a speech-probability query hands to the engine besides the context and samples.
#[derive(Debug, Clone, Copy, PartialEq, Eq, Structural)]
pub struct SpeechProbRequest {
    pub n_samples: i32,
    pub n_processors: i32,
}

/// Plans a speech-probability query. An empty buffer gets no request: the engine is not
/// entered and the caller answers with the fixed sentinel score of -1.
pub fn prepare_speech_prob(n_samples: usize) -> (r: Option<SpeechProbRequest>)
    requires
        n_samples <= i32::MAX,
    ensures
        n_samples == 0 ==> r is None,
        n_samples > 0 ==> r == Some(
            SpeechProbRequest { n_samples: n_samples as i32, n_processors: N_PROCESSORS },
        ),
{
    if n_samples == 0 {
        None
    } else {
        Some(SpeechProbRequest { n_samples: n_samples as i32, n_processors: N_PROCESSORS })
    }
}

/// The outcome of reading the decoded text: no text from the engine is the null-result
/// error, text is handed on as it is.
pub fn text_outcome(text: Option<String>) -> (r: Result<String, SenseVoiceError>)
    ensures
        text is None ==> r matches Err(SenseVoiceError::NullPointer),
        text matches Some(t) ==> r matches Ok(s) && s@ == t@,
{
    match text {
        None => Err(SenseVoiceError::NullPointer),
        Some(t) => Ok(t),
    }
}

} // verus!
