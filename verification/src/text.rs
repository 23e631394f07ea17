//! Text that comes back from the engine as bytes.

use vstd::prelude::*;
use vstd::utf8::{decode_utf8, valid_utf8};

verus! {

/// What lossy decoding makes of a byte sequence: its text, with a
/// replacement character for every part that is not UTF-8.
pub uninterp spec fn lossy_text(bytes: Seq<u8>) -> Seq<char>;

/// The bytes that the engine gave for a string form, where it gave any.
pub open spec fn bytes_view(text: Option<&[u8]>) -> Option<Seq<u8>> {
    match text {
        Some(bytes) => Some(bytes@),
        None => None,
    }
}

/// The bytes that were kept of a string form, where the engine gave any.
pub open spec fn kept_bytes(text: Option<Vec<u8>>) -> Option<Seq<u8>> {
    match text {
        Some(bytes) => Some(bytes@),
        None => None,
    }
}

/// The text of the engine's bytes for a string form, read leniently; no
/// bytes give the empty text.
pub open spec fn lossy_or_empty(text: Option<Seq<u8>>) -> Seq<char> {
    match text {
        Some(bytes) => lossy_text(bytes),
        None => Seq::empty(),
    }
}

/// `s` is what the engine's bytes for a string form read as: their lenient
/// text, which for valid UTF-8 is the text that they encode.
pub open spec fn reads_as(text: Option<Seq<u8>>, s: Seq<char>) -> bool {
    &&& s == lossy_or_empty(text)
    &&& text matches Some(bytes) ==> (valid_utf8(bytes) ==> s == decode_utf8(bytes))
}

/// `std::str::from_utf8`, with the text copied out.  It succeeds exactly on
/// valid UTF-8 and then gives the text that the bytes encode.
#[verifier::external_body]
pub(crate) fn utf8_text(bytes: &[u8]) -> (res: Option<String>)
    ensures
        res is Some <==> valid_utf8(bytes@),
        res matches Some(s) ==> s@ == decode_utf8(bytes@),
{
    match std::str::from_utf8(bytes) {
        Ok(s) => Some(s.to_owned()),
        Err(_) => None,
    }
}

/// `String::from_utf8_lossy`, with the text copied out.  Its result is a
/// function of the bytes alone, and valid UTF-8 comes back unchanged.
#[verifier::external_body]
pub(crate) fn utf8_lossy(bytes: &[u8]) -> (res: String)
    ensures
        res@ == lossy_text(bytes@),
        valid_utf8(bytes@) ==> res@ == decode_utf8(bytes@),
{
    String::from_utf8_lossy(bytes).into_owned()
}

} // verus!
