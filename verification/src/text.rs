//! Text out of bytes that may not be valid UTF-8.

use vstd::prelude::*;

verus! {

/// The text that lossy UTF-8 decoding makes of `bytes`: the characters that
/// valid sequences encode, with U+FFFD in place of each invalid one.
pub uninterp spec fn utf8_lossy(bytes: Seq<u8>) -> Seq<char>;

/// Calls `String::from_utf8_lossy` and takes the result as an owned string.
///
/// Believed, not proved: the result is the lossy decoding of `bytes`, which
/// depends on the bytes alone. Nothing is claimed about which characters it holds.
#[verifier::external_body]
pub(crate) fn lossy_text(bytes: &[u8]) -> (s: String)
    ensures
        s@ == utf8_lossy(bytes@),
{
    String::from_utf8_lossy(bytes).into_owned()
}

} // verus!
