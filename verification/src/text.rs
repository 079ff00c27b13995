//! Text decoding of raw protocol bytes: strict UTF-8 for domain names and
//! lossy decoding for submitted usernames and passwords.

use vstd::prelude::*;

verus! {

/// The characters that the given bytes decode to under strict UTF-8, or
/// nothing if the bytes are not valid UTF-8. The result is a function of
/// the bytes alone.
pub uninterp spec fn utf8_text(b: Seq<u8>) -> Option<Seq<char>>;

/// The characters that the given bytes decode to under lossy UTF-8
/// decoding, where every invalid sequence becomes a replacement
/// character. The result is a function of the bytes alone.
pub uninterp spec fn lossy_text(b: Seq<u8>) -> Seq<char>;

/// Relies on std::str::from_utf8: returns the decoded text exactly when
/// the bytes are valid UTF-8, and nothing otherwise.
#[verifier::external_body]
pub fn parse_utf8(b: &[u8]) -> (r: Option<&str>)
    ensures
        r is Some <==> utf8_text(b@) is Some,
        r matches Some(s) ==> utf8_text(b@) == Some(s@),
{
    match std::str::from_utf8(b) {
        Ok(s) => Some(s),
        Err(_) => None,
    }
}

/// Relies on String::from_utf8_lossy: decodes any byte sequence to text,
/// replacing invalid sequences with the replacement character.
#[verifier::external_body]
pub fn decode_lossy(b: &[u8]) -> (r: String)
    ensures
        r@ == lossy_text(b@),
{
    String::from_utf8_lossy(b).to_string()
}

} // verus!
