use vstd::prelude::*;
use vstd::utf8::encode_utf8;
use crate::error::SenseVoiceError;

verus! {

/// `i` is the position of the first nul byte in `b`.
pub open spec fn first_nul(b: Seq<u8>, i: int) -> bool {
    &&& 0 <= i < b.len()
    &&& b[i] == 0
    &&& forall|j: int| 0 <= j < i ==> b[j] != 0
}

/// `b` holds a nul byte, so it has no nul-terminated form.
pub open spec fn has_nul(b: Seq<u8>) -> bool {
    exists|i: int| 0 <= i < b.len() && b[i] == 0
}

/// `e` is the encoding error that reports the first nul byte of `b`.
pub open spec fn reports_first_nul(b: Seq<u8>, e: SenseVoiceError) -> bool {
    match e {
        SenseVoiceError::NullByteInString { idx } => first_nul(b, idx as int),
        _ => false,
    }
}

/// Checks that a string can be handed to the engine as a nul-terminated byte string,
/// reporting the byte offset of the first nul byte otherwise.
pub fn check_nul_free(s: &str) -> (r: Result<(), SenseVoiceError>)
    ensures
        r is Err <==> has_nul(encode_utf8(s@)),
        r matches Err(e) ==> reports_first_nul(encode_utf8(s@), e),
{
    let bytes = s.as_bytes();
    let mut i: usize = 0;
    while i < bytes.len()
        invariant
            bytes@ == encode_utf8(s@),
            0 <= i <= bytes@.len(),
            forall|j: int| 0 <= j < i ==> bytes@[j] != 0,
        decreases bytes@.len() - i,
    {
        if bytes[i] == 0 {
            return Err(SenseVoiceError::NullByteInString { idx: i });
        }
        i += 1;
    }
    Ok(())
}

} // verus!
