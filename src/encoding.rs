//! The outside calls the codec makes: base64 in both directions, UUID
//! recognition, and UTF-8 decoding.
use vstd::prelude::*;
use vstd::utf8::{decode_utf8, valid_utf8};

verus! {

/// The standard-alphabet, padded base64 text of `bytes`.
pub uninterp spec fn base64_text(bytes: Seq<u8>) -> Seq<char>;

/// The bytes that standard base64 `text` decodes to, or `None` when it is
/// not valid base64.
pub uninterp spec fn base64_bytes(text: Seq<char>) -> Option<Seq<u8>>;

/// An ASCII hexadecimal digit, either case.
pub open spec fn is_hex_digit(c: char) -> bool {
    ('0' <= c && c <= '9') || ('a' <= c && c <= 'f') || ('A' <= c && c <= 'F')
}

/// Where the hyphens stand in the hyphenated 8-4-4-4-12 form.
pub open spec fn is_hyphen_position(i: int) -> bool {
    i == 8 || i == 13 || i == 18 || i == 23
}

/// 32 hexadecimal digits.
pub open spec fn is_simple_uuid(s: Seq<char>) -> bool {
    s.len() == 32 && forall|i: int| 0 <= i < 32 ==> is_hex_digit(#[trigger] s[i])
}

/// The hyphenated form `xxxxxxxx-xxxx-xxxx-xxxx-xxxxxxxxxxxx`.
pub open spec fn is_hyphenated_uuid(s: Seq<char>) -> bool {
    s.len() == 36 && forall|i: int|
        0 <= i < 36 ==> if is_hyphen_position(i) {
            #[trigger] s[i] == '-'
        } else {
            is_hex_digit(s[i])
        }
}

/// `urn:uuid:` in any mix of ASCII case.
pub open spec fn is_urn_prefix(s: Seq<char>) -> bool {
    s.len() == 9 && forall|i: int|
        0 <= i < 9 ==> #[trigger] s[i] == "urn:uuid:"@[i] || s[i] == "URN:UUID:"@[i]
}

/// The texts that parse as a UUID: simple, hyphenated, braced hyphenated, or
/// a hyphenated URN.
pub open spec fn is_uuid_text(s: Seq<char>) -> bool {
    ||| is_simple_uuid(s)
    ||| is_hyphenated_uuid(s)
    ||| (s.len() == 38 && s[0] == '{' && s[37] == '}' && is_hyphenated_uuid(s.subrange(1, 37)))
    ||| (s.len() == 45 && is_urn_prefix(s.subrange(0, 9)) && is_hyphenated_uuid(s.subrange(9, 45)))
}

/// Relies on `base64::encode` (standard alphabet, padded), and on base64
/// decoding giving back the bytes that were encoded. It panics only when the
/// output size overflows, which the bound rules out.
#[verifier::external_body]
pub(crate) fn base64_encode(bytes: &[u8]) -> (r: String)
    requires
        bytes@.len() <= isize::MAX / 2,
    ensures
        r@ == base64_text(bytes@),
        base64_bytes(r@) == Some(bytes@),
{
    base64::encode(bytes)
}

/// Relies on `base64::decode` (standard alphabet): the decoded bytes, or an
/// error for text that is not base64; the empty text decodes to no bytes. Its
/// size arithmetic overflows only past `usize::MAX - 7` input bytes, more
/// than a `str` can hold.
#[verifier::external_body]
pub(crate) fn base64_decode(text: &str) -> (r: Option<Vec<u8>>)
    ensures
        r is Some <==> base64_bytes(text@) is Some,
        r matches Some(b) ==> base64_bytes(text@) == Some(b@),
        r matches Some(b) ==> (text@.len() == 0 ==> b@.len() == 0),
        text@.len() == 0 ==> r is Some,
{
    base64::decode(text).ok()
}

/// Relies on `uuid::Uuid::parse_str`, which accepts exactly the simple,
/// hyphenated, braced and URN forms (hex digits in either case).
#[verifier::external_body]
pub(crate) fn parses_as_uuid(text: &str) -> (r: bool)
    ensures
        r == is_uuid_text(text@),
{
    uuid::Uuid::parse_str(text).is_ok()
}

/// Relies on `String::from_utf8`: it succeeds exactly on valid UTF-8 and
/// then holds the characters those bytes encode.
#[verifier::external_body]
pub(crate) fn utf8_string(bytes: Vec<u8>) -> (r: Option<String>)
    ensures
        r is Some <==> valid_utf8(bytes@),
        r matches Some(s) ==> s@ == decode_utf8(bytes@),
{
    String::from_utf8(bytes).ok()
}

} // verus!
