use vstd::prelude::*;
use vstd::utf8::*;

verus! {

/// The SHA-256 digest of a text's UTF-8 bytes, written as lower-case
/// hexadecimal digits.
pub uninterp spec fn sha256_hex(input: Seq<char>) -> Seq<char>;

/// What the standard base64 alphabet with padding decodes a text to; `None`
/// where the text is not valid base64.
pub uninterp spec fn base64_standard(input: Seq<char>) -> Option<Seq<u8>>;

/// Calls `sha256::digest` on a string slice. Trusted: the result is the
/// digest named by `sha256_hex`, a function of the text alone.
#[verifier::external_body]
pub(crate) fn sha256_digest(input: &str) -> (out: String)
    ensures
        out@ == sha256_hex(input@),
{
    sha256::digest(input)
}

/// Calls `decode` of base64's `STANDARD` engine. Trusted: the bytes are those
/// named by `base64_standard`, and the call fails exactly where that is `None`.
#[verifier::external_body]
pub(crate) fn base64_decode(input: &str) -> (out: Option<Vec<u8>>)
    ensures
        match out {
            Some(bytes) => base64_standard(input@) == Some(bytes@),
            None => base64_standard(input@) is None,
        },
{
    base64::Engine::decode(&base64::engine::general_purpose::STANDARD, input).ok()
}

/// Calls `String::from_utf8`. Trusted: it succeeds exactly on well-formed
/// UTF-8 and then holds the characters that the bytes encode.
#[verifier::external_body]
pub(crate) fn string_from_utf8(bytes: Vec<u8>) -> (out: Option<String>)
    ensures
        match out {
            Some(text) => valid_utf8(bytes@) && text@ == decode_utf8(bytes@),
            None => !valid_utf8(bytes@),
        },
{
    String::from_utf8(bytes).ok()
}

} // verus!
