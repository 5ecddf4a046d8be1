//! Base64 transport encoding (the `base64` crate's standard alphabet without
//! padding) and UTF-8 decoding of byte strings.

use base64::Engine;
use vstd::prelude::*;
use vstd::string::StringSliceAdditionalSpecFns;
use vstd::utf8::{decode_utf8, valid_utf8};

verus! {

/// What `base64::engine::general_purpose::STANDARD_NO_PAD.encode` gives for `data`.
pub uninterp spec fn base64_encoding(data: Seq<u8>) -> Seq<char>;

/// What `base64::engine::general_purpose::STANDARD_NO_PAD.decode` gives for
/// `text`: the decoded bytes, or `None` where it reports a `DecodeError`.
pub uninterp spec fn base64_decoding(text: Seq<char>) -> Option<Seq<u8>>;

/// Encodes `data` with `base64::engine::general_purpose::STANDARD_NO_PAD.encode`.
/// Trusted: the result is the named encoding of `data`, and decoding it with
/// the same engine gives `data` back. The engine panics when the encoded
/// length overflows `usize`; `requires` keeps such inputs out.
#[verifier::external_body]
pub(crate) fn base64_encode(data: &[u8]) -> (res: String)
    requires
        data@.len() / 3 * 4 + 4 <= usize::MAX,
    ensures
        res@ == base64_encoding(data@),
        base64_decoding(res@) == Some(data@),
{
    base64::engine::general_purpose::STANDARD_NO_PAD.encode(data)
}

/// Decodes `text` with `base64::engine::general_purpose::STANDARD_NO_PAD.decode`.
/// Trusted: the result is the named decoding of `text` (`None` for a
/// `DecodeError`), and the decoded bytes are no more than the engine's
/// buffer estimate of three bytes for each started group of four input bytes.
#[verifier::external_body]
pub(crate) fn base64_decode(text: &str) -> (res: Option<Vec<u8>>)
    ensures
        res matches Some(d) ==> base64_decoding(text@) == Some(d@),
        res is None ==> base64_decoding(text@) is None,
        res matches Some(d) ==> d@.len() <= 3 * ((text.spec_bytes().len() + 3) / 4),
{
    base64::engine::general_purpose::STANDARD_NO_PAD.decode(text).ok()
}

/// Converts `bytes` into a `String` with `String::from_utf8`, which succeeds
/// exactly when the bytes are valid UTF-8; the string then holds the decoded
/// characters.
#[verifier::external_body]
pub(crate) fn string_from_utf8(bytes: Vec<u8>) -> (res: Option<String>)
    ensures
        res is Some <==> valid_utf8(bytes@),
        res matches Some(s) ==> s@ == decode_utf8(bytes@),
{
    String::from_utf8(bytes).ok()
}

} // verus!
