//! Base64 (standard alphabet, with padding) through the `base64` crate.

use vstd::prelude::*;

use base64::prelude::{Engine, BASE64_STANDARD};

verus! {

#[verifier::external_type_specification]
#[verifier::external_body]
pub struct ExDecodeError(base64::DecodeError);

/// What `BASE64_STANDARD.decode` gives for a text: the decoded bytes, or
/// nothing when the text is not valid padded standard base64.
pub uninterp spec fn base64_standard_decoding(text: Seq<char>) -> Option<Seq<u8>>;

/// What `BASE64_STANDARD.encode` gives for a byte sequence.
pub uninterp spec fn base64_standard_encoding(bytes: Seq<u8>) -> Seq<char>;

/// A character of the standard base64 alphabet, or the padding character `=`.
pub open spec fn is_base64_char(c: char) -> bool {
    ('A' <= c && c <= 'Z') || ('a' <= c && c <= 'z') || ('0' <= c && c <= '9') || c == '+'
        || c == '/' || c == '='
}

/// The number of padding characters `=` at the end of the encoding of `n` bytes.
pub open spec fn padding_len(n: nat) -> nat {
    ((3 - n % 3) % 3) as nat
}

/// Decodes `text` with `BASE64_STANDARD.decode` (from `base64::engine::Engine`).
/// The contract names the result: the bytes on success, and no decoding when
/// the crate reports a `DecodeError`; which error it reports is left unsaid.
#[verifier::external_body]
pub(crate) fn base64_decode(text: &str) -> (r: Result<Vec<u8>, base64::DecodeError>)
    ensures
        match r {
            Ok(bytes) => base64_standard_decoding(text@) == Some(bytes@),
            Err(_) => base64_standard_decoding(text@) is None,
        },
{
    BASE64_STANDARD.decode(text)
}

/// Encodes `bytes` with `BASE64_STANDARD.encode` (from `base64::engine::Engine`).
/// The contract names the result, and states what the crate's `encoded_len`,
/// alphabet and `add_padding` show: the text has four characters for every
/// started group of three bytes, all from the standard alphabet, followed by
/// one `=` for each byte missing from the last group; and decoding the text
/// with the same engine, whose configuration requires exactly the canonical
/// padding and trailing bits that encoding writes, gives the bytes back (the
/// RFC 4648 encoding the crate implements, and its round-trip tests).
/// The bound on the input keeps `encoded_len` from overflowing, where the
/// crate panics.
#[verifier::external_body]
pub(crate) fn base64_encode(bytes: &[u8]) -> (r: String)
    requires
        bytes@.len() <= usize::MAX / 2,
    ensures
        r@ == base64_standard_encoding(bytes@),
        r@.len() == 4 * ((bytes@.len() + 2) / 3),
        forall|i: int| 0 <= i < r@.len() ==> is_base64_char(#[trigger] r@[i]),
        forall|i: int|
            0 <= i < r@.len() - padding_len(bytes@.len()) ==> #[trigger] r@[i] != '=',
        forall|i: int|
            r@.len() - padding_len(bytes@.len()) <= i < r@.len() ==> #[trigger] r@[i] == '=',
        base64_standard_decoding(r@) == Some(bytes@),
{
    BASE64_STANDARD.encode(bytes)
}

} // verus!
