//! Generation of the shared authentication token.

use vstd::prelude::*;

use rand::rngs::ThreadRng;
use rand::Rng;

use crate::encoding::{
    base64_encode, base64_standard_decoding, base64_standard_encoding, is_base64_char,
};

verus! {

/// Number of random bytes in a token (256 bits).
pub const TOKEN_LENGTH_BYTES: usize = 32;

#[verifier::external_type_specification]
#[verifier::external_body]
pub struct ExThreadRng(ThreadRng);

/// `rand::thread_rng`: the thread-local random generator.
#[verifier::external_body]
fn thread_rng() -> ThreadRng {
    rand::thread_rng()
}

/// `Rng::fill` on a byte buffer: every byte is overwritten with random data.
/// Only the buffer's length is stated, as the contents are random.
#[verifier::external_body]
fn fill_random(rng: &mut ThreadRng, buf: &mut Vec<u8>)
    ensures
        final(buf)@.len() == old(buf)@.len(),
{
    rng.fill(&mut buf[..]);
}

/// A fresh token: the standard base64 text (with padding) of
/// `TOKEN_LENGTH_BYTES` random bytes, hence 44 characters long and ending in
/// exactly one `=`; decoding it gives the bytes back.
pub fn generate_secure_token() -> (token: String)
    ensures
        exists|bytes: Seq<u8>|
            bytes.len() == TOKEN_LENGTH_BYTES && token@ == base64_standard_encoding(bytes)
                && base64_standard_decoding(token@) == Some(bytes),
        token@.len() == 44,
        token@[43] == '=',
        forall|i: int| 0 <= i < 43 ==> #[trigger] token@[i] != '=',
        forall|i: int| 0 <= i < token@.len() ==> is_base64_char(#[trigger] token@[i]),
{
    let mut rng = thread_rng();
    let mut bytes: Vec<u8> = Vec::new();
    let mut i: usize = 0;
    while i < TOKEN_LENGTH_BYTES
        invariant
            i <= TOKEN_LENGTH_BYTES,
            bytes@.len() == i,
        decreases TOKEN_LENGTH_BYTES - i,
    {
        bytes.push(0u8);
        i = i + 1;
    }
    fill_random(&mut rng, &mut bytes);
    let token = base64_encode(bytes.as_slice());
    assert(token@ == base64_standard_encoding(bytes@) && base64_standard_decoding(token@) == Some(
        bytes@,
    ));
    token
}

} // verus!
