//! Text projection of raw bytes. UTF-8 decoding itself is done by std; its
//! results are specified with vstd's UTF-8 model (`valid_utf8`,
//! `decode_utf8`), so that callers' contracts are exact for valid input.

use vstd::prelude::*;

verus! {

/// The character sequence that lossy UTF-8 decoding yields for the given
/// bytes: a function of the bytes alone. For valid UTF-8 it equals
/// `decode_utf8` (stated at the wrapper below); for invalid input the exact
/// replacement-character layout is left unspecified.
pub uninterp spec fn utf8_lossy(bytes: Seq<u8>) -> Seq<char>;

/// Relies on std's `String::from_utf8`: it returns the decoded string exactly
/// when the bytes are valid UTF-8, and fails otherwise.
#[verifier::external_body]
pub(crate) fn string_from_utf8(bytes: Vec<u8>) -> (r: Option<String>)
    ensures
        r is Some <==> vstd::utf8::valid_utf8(bytes@),
        r matches Some(s) ==> s@ == vstd::utf8::decode_utf8(bytes@),
{
    String::from_utf8(bytes).ok()
}

/// Relies on std's `String::from_utf8_lossy`: the result depends on the bytes
/// alone, and valid UTF-8 passes through unchanged.
#[verifier::external_body]
pub(crate) fn string_from_utf8_lossy(bytes: &[u8]) -> (r: String)
    ensures
        r@ == utf8_lossy(bytes@),
        vstd::utf8::valid_utf8(bytes@) ==> r@ == vstd::utf8::decode_utf8(bytes@),
{
    String::from_utf8_lossy(bytes).into_owned()
}

} // verus!
