//! Per-connection pseudonyms for user names.

use sha2::Digest;
use vstd::prelude::*;

verus! {

/// The SHA-512 digest of a byte sequence.
pub uninterp spec fn sha512_of(data: Seq<u8>) -> Seq<u8>;

/// The eight bytes of `x`, most significant first.
pub open spec fn be_bytes(x: u64) -> Seq<u8> {
    seq![
        ((x / 0x0100_0000_0000_0000) % 256) as u8,
        ((x / 0x0001_0000_0000_0000) % 256) as u8,
        ((x / 0x0000_0100_0000_0000) % 256) as u8,
        ((x / 0x0000_0001_0000_0000) % 256) as u8,
        ((x / 0x0000_0000_0100_0000) % 256) as u8,
        ((x / 0x0000_0000_0001_0000) % 256) as u8,
        ((x / 0x0000_0000_0000_0100) % 256) as u8,
        (x % 256) as u8,
    ]
}

/// The unsigned value of the first four bytes of `b`, least significant first.
pub open spec fn le_u32_value(b: Seq<u8>) -> int {
    b[0] as int + 0x100 * b[1] as int + 0x1_0000 * b[2] as int + 0x100_0000 * b[3] as int
}

/// The first four bytes of `b` read as a little-endian two's complement `i32`.
pub open spec fn le_i32(b: Seq<u8>) -> int {
    if le_u32_value(b) < 0x8000_0000 {
        le_u32_value(b)
    } else {
        le_u32_value(b) - 0x1_0000_0000
    }
}

/// The bytes that are hashed for a user name and a salt: the name's UTF-8
/// encoding followed by the salt in big-endian order.
pub open spec fn hash_input(name: Seq<char>, salt: u64) -> Seq<u8> {
    vstd::utf8::encode_utf8(name) + be_bytes(salt)
}

/// The pseudonym of user `name` on a connection salted with `salt`.
pub open spec fn pseudonym(name: Seq<char>, salt: u64) -> int {
    le_i32(sha512_of(hash_input(name, salt)))
}

/// Relies on sha2::Sha512::digest: the 64-byte SHA-512 digest of the input.
#[verifier::external_body]
fn sha512(data: &Vec<u8>) -> (r: Vec<u8>)
    ensures
        r@ == sha512_of(data@),
        r@.len() == 64,
{
    sha2::Sha512::digest(data.as_slice()).to_vec()
}

/// Appends the big-endian bytes of `x` to `out`.
pub fn push_be_bytes(out: &mut Vec<u8>, x: u64)
    ensures
        final(out)@ == old(out)@ + be_bytes(x),
{
    out.push(((x / 0x0100_0000_0000_0000) % 256) as u8);
    out.push(((x / 0x0001_0000_0000_0000) % 256) as u8);
    out.push(((x / 0x0000_0100_0000_0000) % 256) as u8);
    out.push(((x / 0x0000_0001_0000_0000) % 256) as u8);
    out.push(((x / 0x0000_0000_0100_0000) % 256) as u8);
    out.push(((x / 0x0000_0000_0001_0000) % 256) as u8);
    out.push(((x / 0x0000_0000_0000_0100) % 256) as u8);
    out.push((x % 256) as u8);
    assert(final(out)@ =~= old(out)@ + be_bytes(x));
}

/// Reads the first four bytes of a digest as a little-endian `i32`.
pub fn pseudonym_from_digest(digest: &[u8]) -> (r: i32)
    requires
        digest@.len() >= 4,
    ensures
        r as int == le_i32(digest@),
{
    let v: u64 = digest[0] as u64 + 0x100 * (digest[1] as u64) + 0x1_0000 * (digest[2] as u64)
        + 0x100_0000 * (digest[3] as u64);
    if v < 0x8000_0000 {
        v as i32
    } else {
        (v as i64 - 0x1_0000_0000) as i32
    }
}

/// The pseudonym of `name` under `salt`: the first four bytes, read as a
/// little-endian `i32`, of the SHA-512 digest of the name's UTF-8 bytes
/// followed by the salt's big-endian bytes. The result depends on the two
/// arguments alone.
pub fn user_pseudonym(name: &str, salt: u64) -> (r: i32)
    ensures
        r as int == pseudonym(name@, salt),
{
    let mut data = vstd::slice::slice_to_vec(name.as_bytes());
    push_be_bytes(&mut data, salt);
    let digest = sha512(&data);
    pseudonym_from_digest(digest.as_slice())
}

} // verus!
