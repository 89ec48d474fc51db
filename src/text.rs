//! Validation of text before it is handed to the engine as a C string.
use crate::error::Error;
use vstd::prelude::*;
use vstd::string::StringSliceAdditionalSpecFns;

verus! {

/// `bytes` holds a NUL byte somewhere.
pub open spec fn has_nul(bytes: Seq<u8>) -> bool {
    exists|j: int| 0 <= j < bytes.len() && bytes[j] == 0
}

/// `i` is the position of the first NUL byte in `bytes`.
pub open spec fn is_first_nul(bytes: Seq<u8>, i: int) -> bool {
    &&& 0 <= i < bytes.len()
    &&& bytes[i] == 0
    &&& forall|j: int| 0 <= j < i ==> bytes[j] != 0
}

/// Finds the first NUL byte of `text`'s UTF-8 encoding.
pub fn nul_position(text: &str) -> (r: Option<usize>)
    ensures
        r is None <==> !has_nul(text.spec_bytes()),
        r matches Some(i) ==> is_first_nul(text.spec_bytes(), i as int),
{
    let bytes = text.as_bytes();
    let n = bytes.len();
    let mut i: usize = 0;
    while i < n
        invariant
            n == bytes@.len(),
            bytes@ == text.spec_bytes(),
            i <= n,
            forall|j: int| 0 <= j < i ==> bytes@[j] != 0,
        decreases n - i,
    {
        if bytes[i] == 0 {
            return Some(i);
        }
        i = i + 1;
    }
    None
}

/// Accepts text that can cross into the engine as a C string, that is text
/// with no NUL byte; any other UTF-8 text, the empty one included, passes.
/// Rejected text gives `Error::NulError` with the first NUL's byte position.
pub fn check_text(text: &str) -> (r: Result<(), Error>)
    ensures
        r is Ok <==> !has_nul(text.spec_bytes()),
        r matches Err(e) ==> (e matches Error::NulError(i) && is_first_nul(text.spec_bytes(), i as int)),
{
    match nul_position(text) {
        None => Ok(()),
        Some(i) => Err(Error::NulError(i)),
    }
}

/// The empty text holds no NUL byte, so it is always accepted.
pub proof fn lemma_empty_text_accepted()
    ensures
        !has_nul(Seq::<u8>::empty()),
{
}

} // verus!
