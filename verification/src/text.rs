//! Reading bytes as text.

use vstd::prelude::*;
use vstd::string::StringSliceAdditionalSpecFns;
use vstd::utf8::valid_utf8;

verus! {

/// Calls `core::str::from_utf8` and hands on the text, or nothing where the
/// call refused the bytes.
///
/// Trusted: the standard library documents that the call fails exactly when
/// the slice is not valid UTF-8, which is what `valid_utf8` spells out, and
/// that the text it returns is made of the very bytes it was given.
#[verifier::external_body]
pub(crate) fn decode_text(bytes: &[u8]) -> (r: Option<&str>)
    ensures
        r is Some <==> valid_utf8(bytes@),
        r is Some ==> r->Some_0.spec_bytes() == bytes@,
{
    core::str::from_utf8(bytes).ok()
}

} // verus!
