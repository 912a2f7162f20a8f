use sense_voice::{
    full_parallel_outcome, init_outcome, prepare_context, prepare_full_parallel,
    prepare_speech_prob, text_outcome, SenseVoiceContextParameters, SenseVoiceDecodingStrategy,
    SenseVoiceError, SenseVoiceFullParams, SpeechProbRequest, N_PROCESSORS,
};

#[test]
fn context_parameters_defaults() {
    let p = SenseVoiceContextParameters::new();
    assert!(!p.use_gpu);
    assert!(!p.use_itn);
    assert!(!p.flash_attn);
    assert_eq!(p.gpu_device, 0);
    assert!(p == SenseVoiceContextParameters::default());
}

#[test]
fn context_parameters_setters() {
    let mut p = SenseVoiceContextParameters::new();
    p.use_gpu(true);
    p.flash_attn(true);
    p.gpu_device(2);
    assert!(p.use_gpu);
    assert!(p.flash_attn);
    assert!(!p.use_itn);
    assert_eq!(p.gpu_device, 2);
}

#[test]
fn context_parameters_setters_chain() {
    let mut p = SenseVoiceContextParameters::new();
    p.use_gpu(true).flash_attn(true).gpu_device(3);
    assert!(p.use_gpu);
    assert!(p.flash_attn);
    assert_eq!(p.gpu_device, 3);
    assert!(!p.use_itn);
    let r = p.gpu_device(5);
    assert_eq!(r.gpu_device, 5);
    assert_eq!(p.gpu_device, 5);
}

#[test]
fn context_request_has_empty_callback_slots() {
    let mut p = SenseVoiceContextParameters::new();
    p.use_itn = true;
    p.gpu_device(1);
    let c = p.to_c_struct();
    assert!(c.use_itn);
    assert!(!c.use_gpu);
    assert_eq!(c.gpu_device, 1);
    assert_eq!(c.cb_eval, None);
    assert_eq!(c.cb_eval_user_data, 0);
}

#[test]
fn prepare_context_accepts_plain_path() {
    let req = prepare_context("models/sense-voice-small-q4_k.gguf", SenseVoiceContextParameters::new())
        .unwrap();
    assert_eq!(req.path, "models/sense-voice-small-q4_k.gguf");
    assert_eq!(req.params.cb_eval, None);
}

#[test]
fn prepare_context_rejects_nul_in_path() {
    let r = prepare_context("ab\0c\0", SenseVoiceContextParameters::new());
    assert!(matches!(r, Err(SenseVoiceError::NullByteInString { idx: 2 })));
}

#[test]
fn nul_offset_counts_bytes() {
    let r = prepare_context("é\0", SenseVoiceContextParameters::new());
    assert!(matches!(r, Err(SenseVoiceError::NullByteInString { idx: 2 })));
}

#[test]
fn init_null_handle_is_an_error() {
    assert_eq!(init_outcome(true), Err(SenseVoiceError::InitError));
    assert_eq!(init_outcome(false), Ok(()));
}

#[test]
fn full_params_marshalling() {
    let p = SenseVoiceFullParams::builder(SenseVoiceDecodingStrategy::SamplingBeamSearch, Some(3))
        .offset_ms(120)
        .duration_ms(4000)
        .language("yue")
        .build();
    let c = p.to_c_struct().unwrap();
    assert_eq!(c.strategy, 1);
    assert_eq!(c.n_threads, 3);
    assert_eq!(c.language, "yue");
    assert_eq!(c.offset_ms, 120);
    assert_eq!(c.duration_ms, 4000);
    assert_eq!(c.greedy_best_of, -1);
    assert_eq!(c.beam_search_beam_size, 5);
    assert_eq!(c.n_max_text_ctx, 16384);
    assert!(c.single_segment);
    assert_eq!(c.progress_callback, None);
    assert_eq!(c.progress_callback_user_data, 0);

    let g = SenseVoiceFullParams::default_params(SenseVoiceDecodingStrategy::SamplingGreedy, Some(8));
    assert_eq!(g.to_c_struct().unwrap().strategy, 0);
}

#[test]
fn language_with_nul_is_an_encoding_error() {
    let p = SenseVoiceFullParams::builder(SenseVoiceDecodingStrategy::SamplingGreedy, Some(8))
        .language("e\0n")
        .build();
    assert!(matches!(p.to_c_struct(), Err(SenseVoiceError::NullByteInString { idx: 1 })));
    assert!(matches!(
        prepare_full_parallel(&p, 160),
        Err(SenseVoiceError::NullByteInString { idx: 1 })
    ));
}

#[test]
fn empty_audio_is_rejected_before_anything_else() {
    let p = SenseVoiceFullParams::default_params(SenseVoiceDecodingStrategy::SamplingGreedy, Some(8));
    assert!(matches!(prepare_full_parallel(&p, 0), Err(SenseVoiceError::NoSamples)));
    let bad = SenseVoiceFullParams::builder(SenseVoiceDecodingStrategy::SamplingGreedy, Some(8))
        .language("\0")
        .build();
    assert!(matches!(prepare_full_parallel(&bad, 0), Err(SenseVoiceError::NoSamples)));
}

#[test]
fn invoke_request_carries_samples_and_fixed_parallelism() {
    let p = SenseVoiceFullParams::default_params(SenseVoiceDecodingStrategy::SamplingGreedy, Some(8));
    let req = prepare_full_parallel(&p, 16000).unwrap();
    assert_eq!(req.n_samples, 16000);
    assert_eq!(req.n_processors, 8);
    assert_eq!(N_PROCESSORS, 8);
    assert_eq!(req.params.n_threads, 4);
    assert_eq!(req.params.language, "auto");
}

#[test]
fn status_codes_map_exactly() {
    assert_eq!(full_parallel_outcome(0), Ok(0));
    assert_eq!(full_parallel_outcome(-1), Err(SenseVoiceError::UnableToCalculateSpectrogram));
    assert_eq!(full_parallel_outcome(7), Err(SenseVoiceError::FailedToEncode));
    assert_eq!(full_parallel_outcome(8), Err(SenseVoiceError::FailedToDecode));
}

#[test]
fn other_status_codes_are_generic() {
    assert_eq!(full_parallel_outcome(1), Err(SenseVoiceError::GenericError(1)));
    assert_eq!(full_parallel_outcome(-2), Err(SenseVoiceError::GenericError(-2)));
    assert_eq!(full_parallel_outcome(6), Err(SenseVoiceError::GenericError(6)));
    assert_eq!(full_parallel_outcome(9), Err(SenseVoiceError::GenericError(9)));
    assert_eq!(full_parallel_outcome(i32::MIN), Err(SenseVoiceError::GenericError(i32::MIN)));
    assert_eq!(full_parallel_outcome(i32::MAX), Err(SenseVoiceError::GenericError(i32::MAX)));
}

#[test]
fn speech_prob_on_empty_audio_makes_no_request() {
    assert_eq!(prepare_speech_prob(0), None);
    assert_eq!(
        prepare_speech_prob(480),
        Some(SpeechProbRequest { n_samples: 480, n_processors: 8 })
    );
}

#[test]
fn missing_text_is_null_result() {
    assert_eq!(text_outcome(None), Err(SenseVoiceError::NullPointer));
    assert_eq!(text_outcome(Some("你好".to_string())), Ok("你好".to_string()));
}
