use ring::rand::SecureRandom;
use vstd::prelude::*;
use crate::error::ApiError;

verus! {

/// Bytes drawn from the random source for one session token.
pub const TOKEN_BYTES: usize = 128;

/// Characters in an encoded session token.
pub const TOKEN_LEN: usize = 256;

/// The lowercase hexadecimal digits, by value.
pub open spec fn hex_digits() -> Seq<char> {
    seq!['0', '1', '2', '3', '4', '5', '6', '7', '8', '9', 'a', 'b', 'c', 'd', 'e', 'f']
}

/// Two lowercase hex digits for each byte, high digit first.
pub open spec fn hex_of(b: Seq<u8>) -> Seq<char>
    decreases b.len(),
{
    if b.len() == 0 {
        Seq::empty()
    } else {
        hex_of(b.drop_last()) + seq![
            hex_digits()[(b.last() / 16) as int],
            hex_digits()[(b.last() % 16) as int],
        ]
    }
}

/// A session token: the hex encoding of some `TOKEN_BYTES` bytes.
pub open spec fn is_token(t: Seq<char>) -> bool {
    exists|b: Seq<u8>| b.len() == TOKEN_BYTES && t == hex_of(b)
}

pub proof fn lemma_hex_len(b: Seq<u8>)
    ensures
        hex_of(b).len() == 2 * b.len(),
    decreases b.len(),
{
    if b.len() > 0 {
        lemma_hex_len(b.drop_last());
    }
}

/// Relies on hex::encode: two lowercase hex digits for each byte, in order.
#[verifier::external_body]
fn hex_encode(b: &Vec<u8>) -> (r: String)
    ensures
        r@ == hex_of(b@),
{
    hex::encode(b)
}

/// Relies on ring's SystemRandom::fill: it writes OS randomness into the
/// buffer, keeping its length, and reports whether it could.
#[verifier::external_body]
fn fill_secure(buf: &mut Vec<u8>) -> (ok: bool)
    ensures
        final(buf)@.len() == old(buf)@.len(),
{
    ring::rand::SystemRandom::new().fill(buf.as_mut_slice()).is_ok()
}

/// Encodes the bytes drawn for a token as its printable form.
pub fn session_token_from(bytes: &Vec<u8>) -> (r: String)
    requires
        bytes@.len() == TOKEN_BYTES,
    ensures
        r@ == hex_of(bytes@),
        r@.len() == TOKEN_LEN,
        is_token(r@),
{
    proof {
        lemma_hex_len(bytes@);
    }
    hex_encode(bytes)
}

/// Draws `TOKEN_BYTES` bytes from the OS random source and hex-encodes them.
/// Fails with `Internal` only when the random source fails.
pub fn create_session_id() -> (r: Result<String, ApiError>)
    ensures
        match r {
            Ok(t) => is_token(t@) && t@.len() == TOKEN_LEN,
            Err(e) => e == ApiError::Internal,
        },
{
    let mut bytes: Vec<u8> = Vec::new();
    while bytes.len() < TOKEN_BYTES
        invariant
            bytes@.len() <= TOKEN_BYTES,
        decreases TOKEN_BYTES - bytes@.len(),
    {
        bytes.push(0u8);
    }
    if !fill_secure(&mut bytes) {
        return Err(ApiError::Internal);
    }
    Ok(session_token_from(&bytes))
}

} // verus!
