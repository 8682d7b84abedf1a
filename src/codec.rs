//! Base64 and UTF-8 conversions of bytes.

use vstd::prelude::*;
use vstd::utf8::{decode_utf8, valid_utf8};

use base64::Engine;

verus! {

/// What base64's standard engine writes for bytes: the padded encoding with
/// the standard alphabet.
pub uninterp spec fn base64_encoded(b: Seq<u8>) -> Seq<char>;

/// What base64's standard engine reads back from bytes of text; `None` when
/// they are not padded standard base64.
pub uninterp spec fn base64_decoded(b: Seq<u8>) -> Option<Seq<u8>>;

/// A character of the standard base64 alphabet, or the padding `=`.
pub open spec fn is_base64_char(c: char) -> bool {
    ||| 'A' <= c <= 'Z'
    ||| 'a' <= c <= 'z'
    ||| '0' <= c <= '9'
    ||| c == '+' || c == '/' || c == '='
}

/// Relies on `base64::engine::general_purpose::STANDARD.encode`: padded
/// standard base64, four characters for each started group of three bytes;
/// the result depends on the bytes alone.
#[verifier::external_body]
pub(crate) fn base64_encode(b: &[u8]) -> (r: String)
    ensures
        r@ == base64_encoded(b@),
        r@.len() == 4 * ((b@.len() + 2) / 3),
        forall|i: int| 0 <= i < r@.len() ==> #[trigger] is_base64_char(r@[i]),
{
    base64::engine::general_purpose::STANDARD.encode(b)
}

/// Relies on `base64::engine::general_purpose::STANDARD.decode`; the error
/// is its message.
#[verifier::external_body]
pub(crate) fn base64_decode(b: &[u8]) -> (r: Result<Vec<u8>, String>)
    ensures
        r is Ok <==> base64_decoded(b@) is Some,
        r matches Ok(d) ==> base64_decoded(b@) == Some(d@),
{
    base64::engine::general_purpose::STANDARD.decode(b).map_err(|e| e.to_string())
}

/// Relies on `String::from_utf8`, which accepts exactly valid UTF-8; the
/// error is its message.
#[verifier::external_body]
pub(crate) fn utf8_string(b: Vec<u8>) -> (r: Result<String, String>)
    ensures
        r is Ok <==> valid_utf8(b@),
        r matches Ok(s) ==> s@ == decode_utf8(b@),
{
    String::from_utf8(b).map_err(|e| e.to_string())
}

} // verus!
