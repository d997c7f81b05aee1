//! Decoding bytes into text.
use vstd::prelude::*;
use vstd::utf8::{decode_utf8, valid_utf8};

verus! {

/// The text `String::from_utf8_lossy` makes of `bytes`: each maximal invalid
/// subsequence becomes U+FFFD.
pub uninterp spec fn lossy_utf8(bytes: Seq<u8>) -> Seq<char>;

/// The text made of `bytes`: their decoding when they are valid UTF-8, the
/// lossy decoding otherwise.
pub open spec fn utf8_text(bytes: Seq<u8>) -> Seq<char> {
    if valid_utf8(bytes) {
        decode_utf8(bytes)
    } else {
        lossy_utf8(bytes)
    }
}

/// Decodes bytes, replacing invalid sequences (`String::from_utf8_lossy`).
///
/// Trusted: the result is the named lossy decoding of the input; for valid
/// UTF-8 it is the plain decoding, which the standard library documents as
/// returning the input unchanged.
#[verifier::external_body]
pub(crate) fn from_utf8_lossy(bytes: &[u8]) -> (s: String)
    ensures
        s@ == lossy_utf8(bytes@),
        valid_utf8(bytes@) ==> s@ == decode_utf8(bytes@),
{
    String::from_utf8_lossy(bytes).into_owned()
}

/// Decodes bytes that must be valid UTF-8 (`std::str::from_utf8`).
///
/// Trusted: `Some` exactly for valid UTF-8, holding its decoding.
#[verifier::external_body]
pub(crate) fn from_utf8(bytes: &[u8]) -> (r: Option<String>)
    ensures
        r is Some <==> valid_utf8(bytes@),
        r matches Some(s) ==> s@ == decode_utf8(bytes@),
{
    std::str::from_utf8(bytes).ok().map(|s| s.to_owned())
}

/// Decodes bytes, preferring the exact decoding and falling back to the
/// lossy one for invalid input.
pub fn string_from_utf8_or_lossy(bytes: Vec<u8>) -> (s: String)
    ensures
        s@ == utf8_text(bytes@),
{
    match from_utf8(bytes.as_slice()) {
        Some(text) => text,
        None => from_utf8_lossy(bytes.as_slice()),
    }
}

} // verus!
