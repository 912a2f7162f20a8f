use vstd::prelude::*;
use vstd::utf8::encode_utf8;
use crate::error::SenseVoiceError;
use crate::nul::{check_nul_free, has_nul, reports_first_nul};

verus! {

/// One-time configuration of an engine context, consumed when the context is created.
#[derive(Debug, Clone, Copy, PartialEq, Eq, Structural)]
pub struct SenseVoiceContextParameters {
    /// Use the accelerator if one is available.
    pub use_gpu: bool,
    /// Apply inverse text normalization to the decoded text.
    pub use_itn: bool,
    /// Enable flash attention.
    ///
    /// Flash attention takes precedence over the engine's DTW alignment: when this flag is
    /// set, DTW alignment is disabled.
    pub flash_attn: bool,
    /// Index of the accelerator device.
    pub gpu_device: i32,
}

/// The context configuration that `new` and `default` give.
pub open spec fn default_context_parameters() -> SenseVoiceContextParameters {
    SenseVoiceContextParameters { use_gpu: false, use_itn: false, flash_attn: false, gpu_device: 0 }
}

impl Default for SenseVoiceContextParameters {
    fn default() -> (r: Self)
        ensures
            r == default_context_parameters(),
    {
        SenseVoiceContextParameters { use_gpu: false, use_itn: false, flash_attn: false, gpu_device: 0 }
    }
}

/// The engine's context-creation request, as plain values.
///
/// The two callback slots are always empty: hooks into the engine's evaluation are not
/// part of this binding.
#[derive(Debug, Clone, Copy, PartialEq, Eq, Structural)]
pub struct NativeContextParams {
    pub use_gpu: bool,
    pub use_itn: bool,
    pub flash_attn: bool,
    pub gpu_device: i32,
    /// Address of the evaluation callback; none.
    pub cb_eval: Option<usize>,
    /// Address of the evaluation callback's user data; null.
    pub cb_eval_user_data: usize,
}

/// The request that a context configuration marshals to.
pub open spec fn context_request(p: SenseVoiceContextParameters) -> NativeContextParams {
    NativeContextParams {
        use_gpu: p.use_gpu,
        use_itn: p.use_itn,
        flash_attn: p.flash_attn,
        gpu_device: p.gpu_device,
        cb_eval: None,
        cb_eval_user_data: 0,
    }
}

impl SenseVoiceContextParameters {
    pub fn new() -> (r: Self)
        ensures
            r == default_context_parameters(),
    {
        Self::default()
    }

    pub fn use_gpu(&mut self, use_gpu: bool) -> (r: &mut Self)
        ensures
            *r == (SenseVoiceContextParameters { use_gpu, ..*old(self) }),
            *final(self) == *final(r),
    {
        self.use_gpu = use_gpu;
        self
    }

    /// Sets flash attention; when set, the engine's DTW alignment is disabled.
    pub fn flash_attn(&mut self, flash_attn: bool) -> (r: &mut Self)
        ensures
            *r == (SenseVoiceContextParameters { flash_attn, ..*old(self) }),
            *final(self) == *final(r),
    {
        self.flash_attn = flash_attn;
        self
    }

    pub fn gpu_device(&mut self, gpu_device: i32) -> (r: &mut Self)
        ensures
            *r == (SenseVoiceContextParameters { gpu_device, ..*old(self) }),
            *final(self) == *final(r),
    {
        self.gpu_device = gpu_device;
        self
    }

    /// The engine's request for this configuration, callback slots empty.
    pub fn to_c_struct(&self) -> (r: NativeContextParams)
        ensures
            r == context_request(*self),
    {
        NativeContextParams {
            use_gpu: self.use_gpu,
            use_itn: self.use_itn,
            flash_attn: self.flash_attn,
            gpu_device: self.gpu_device,
            cb_eval: None,
            cb_eval_user_data: 0,
        }
    }
}

/// Everything the engine's constructor is called with.
pub struct InitRequest {
    /// Model path, free of nul bytes.
    pub path: String,
    pub params: NativeContextParams,
}

/// First stage of creating a context: checks the model path and marshals the
/// configuration. On an error the engine must not be entered.
pub fn prepare_context(path: &str, parameters: SenseVoiceContextParameters) -> (r: Result<
    InitRequest,
    SenseVoiceError,
>)
    ensures
        r is Err <==> has_nul(encode_utf8(path@)),
        r matches Err(e) ==> reports_first_nul(encode_utf8(path@), e),
        r matches Ok(req) ==> req.path@ == path@ && req.params == context_request(parameters),
{
    match check_nul_free(path) {
        Err(e) => Err(e),
        Ok(()) => Ok(InitRequest { path: path.to_owned(), params: parameters.to_c_struct() }),
    }
}

/// Last stage of creating a context: a null handle from the engine is the one failure,
/// and no handle is kept then.
pub fn init_outcome(native_returned_null: bool) -> (r: Result<(), SenseVoiceError>)
    ensures
        native_returned_null ==> r == Err::<(), SenseVoiceError>(SenseVoiceError::InitError),
        !native_returned_null ==> r == Ok::<(), SenseVoiceError>(()),
{
    if native_returned_null {
        Err(SenseVoiceError::InitError)
    } else {
        Ok(())
    }
}

} // verus!
