//! Texts out of bytes.

use vstd::prelude::*;

verus! {

/// What `String::from_utf8_lossy` reads out of bytes.
pub uninterp spec fn lossy_text(bytes: Seq<u8>) -> Seq<char>;

/// The text in `bytes`, as `String::from_utf8_lossy` reads it.
///
/// Not proved: that the text depends on the bytes alone, and that bytes in
/// valid UTF-8 give just the characters that they encode. What stands in the
/// place of bytes that are no UTF-8 is left unsaid.
#[verifier::external_body]
pub(crate) fn from_utf8_lossy(bytes: &[u8]) -> (text: String)
    ensures
        text@ == lossy_text(bytes@),
        vstd::utf8::valid_utf8(bytes@) ==> text@ == vstd::utf8::decode_utf8(bytes@),
{
    String::from_utf8_lossy(bytes).to_string()
}

} // verus!
