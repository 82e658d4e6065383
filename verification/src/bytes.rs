//! Byte-level helpers for captured process output.

use vstd::prelude::*;
use vstd::utf8::*;

verus! {

/// Decodes captured bytes as UTF-8 text, or returns `None` when they are not
/// valid UTF-8.
///
/// Trusted: the body calls `String::from_utf8`. The contract claims that the
/// call succeeds exactly on well-formed UTF-8, and that the text it then
/// returns is the decoding of the given bytes.
#[verifier::external_body]
pub(crate) fn decode_text(bytes: Vec<u8>) -> (r: Option<String>)
    ensures
        r is Some <==> valid_utf8(bytes@),
        r matches Some(text) ==> text@ == decode_utf8(bytes@),
{
    match String::from_utf8(bytes) {
        Ok(text) => Some(text),
        Err(_) => None,
    }
}

/// Tells whether `bytes` begins with `prefix`, byte for byte.
pub fn starts_with(bytes: &[u8], prefix: &[u8]) -> (r: bool)
    ensures
        r == prefix@.is_prefix_of(bytes@),
{
    if prefix.len() > bytes.len() {
        return false;
    }
    let mut i: usize = 0;
    while i < prefix.len()
        invariant
            i <= prefix.len() <= bytes.len(),
            forall|k: int| 0 <= k < i ==> prefix@[k] == bytes@[k],
        decreases prefix.len() - i,
    {
        if prefix[i] != bytes[i] {
            return false;
        }
        i += 1;
    }
    true
}

} // verus!
