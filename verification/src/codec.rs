use vstd::prelude::*;

verus! {

use vstd::utf8::decode_utf8;
use vstd::utf8::valid_utf8;

/// The canonical padded base64 text (standard alphabet `A-Z a-z 0-9 + /`) for
/// a byte sequence. The shape of the text is fixed by RFC 4648; here it is
/// left abstract and pinned to the `base64` crate through the two functions
/// below, which state that encoding and decoding invert each other.
pub uninterp spec fn base64_encoding(bytes: Seq<u8>) -> Seq<char>;

/// Relies on `base64::engine::general_purpose::STANDARD` and
/// `base64::Engine::encode`: the canonical padded standard-alphabet base64
/// text of `bytes`.
#[verifier::external_body]
pub(crate) fn base64_encode(bytes: &[u8]) -> (r: String)
    ensures
        r@ == base64_encoding(bytes@),
{
    base64::Engine::encode(&base64::engine::general_purpose::STANDARD, bytes)
}

/// Relies on `base64::engine::general_purpose::STANDARD` and
/// `base64::Engine::decode`: the `STANDARD` engine demands canonical padding
/// and rejects set trailing bits, so it accepts exactly the texts that
/// `encode` produces and returns the bytes that were encoded.
#[verifier::external_body]
pub(crate) fn base64_decode(text: &str) -> (r: Option<Vec<u8>>)
    ensures
        match r {
            Some(b) => text@ == base64_encoding(b@) && (forall|other: Seq<u8>|
                base64_encoding(other) == text@ ==> other == b@),
            None => forall|other: Seq<u8>| base64_encoding(other) != text@,
        },
{
    base64::Engine::decode(&base64::engine::general_purpose::STANDARD, text).ok()
}

/// Relies on `String::from_utf8`: it succeeds exactly on valid UTF-8 input
/// and returns the text that the bytes encode, which is the meaning vstd's
/// own UTF-8 model gives to `valid_utf8` and `decode_utf8`.
#[verifier::external_body]
pub(crate) fn string_from_utf8(bytes: Vec<u8>) -> (r: Option<String>)
    ensures
        match r {
            Some(s) => valid_utf8(bytes@) && s@ == decode_utf8(bytes@),
            None => !valid_utf8(bytes@),
        },
{
    String::from_utf8(bytes).ok()
}

} // verus!
