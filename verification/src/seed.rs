//! Deriving the deterministic generator for a public key: the key's hex text
//! is decoded, hashed once, and the low eight bytes of the digest seed a
//! small pseudo-random generator whose draws pick the artwork.

use vstd::prelude::*;
use vstd::string::StringSliceAdditionalSpecFns;

use rand::rngs::SmallRng;
use rand::{RngCore, SeedableRng};

use crate::Error;

verus! {

#[verifier::external_type_specification]
#[verifier::external_body]
pub struct ExSmallRng(SmallRng);

/// The SHA-256 digest of a byte sequence, named so that contracts can state
/// that two computations hash the same bytes.
pub uninterp spec fn sha256_of(data: Seq<u8>) -> Seq<u8>;

/// The seed a generator was created from.
pub uninterp spec fn rng_seed(r: SmallRng) -> u64;

/// How many 32-bit draws have been taken from a generator.
pub uninterp spec fn rng_pos(r: SmallRng) -> nat;

/// The `i`-th 32-bit draw of the generator stream for a seed.  The stream is
/// a function of the seed alone: the small generator is a fixed pure
/// algorithm (xoshiro256++ on this target) that mixes in no other input.
pub uninterp spec fn rng_draw(seed: u64, i: nat) -> u32;

/// Relies on `bitcoin::hashes::sha256::Hash::hash`: one SHA-256 pass over the
/// input, returning the 32-byte digest, a function of the input bytes alone.
#[verifier::external_body]
pub(crate) fn sha256(data: &[u8]) -> (r: Vec<u8>)
    ensures
        r@ == sha256_of(data@),
        r@.len() == 32,
{
    let digest = <bitcoin::hashes::sha256::Hash as bitcoin::hashes::Hash>::hash(data);
    <bitcoin::hashes::sha256::Hash as bitcoin::hashes::Hash>::to_byte_array(digest).to_vec()
}

/// Relies on `rand`'s `SmallRng::seed_from_u64`: the generator state is a
/// function of the seed alone, and no draws have been taken from it yet.
#[verifier::external_body]
pub(crate) fn rng_from_seed(seed: u64) -> (r: SmallRng)
    ensures
        rng_seed(r) == seed,
        rng_pos(r) == 0,
{
    SmallRng::seed_from_u64(seed)
}

/// Relies on `rand`'s `RngCore::next_u32` for `SmallRng`: each draw is a
/// function of the seed and of how many draws came before it, and advances
/// the generator by one position.
#[verifier::external_body]
pub(crate) fn rng_next_u32(r: &mut SmallRng) -> (v: u32)
    ensures
        v == rng_draw(rng_seed(*old(r)), rng_pos(*old(r))),
        rng_seed(*final(r)) == rng_seed(*old(r)),
        rng_pos(*final(r)) == rng_pos(*old(r)) + 1,
{
    r.next_u32()
}

/// A byte is an ASCII hexadecimal digit.
pub open spec fn is_hex_digit(b: u8) -> bool {
    (48 <= b && b <= 57) || (97 <= b && b <= 102) || (65 <= b && b <= 70)
}

/// The value of one hexadecimal digit.
pub open spec fn hex_val(b: u8) -> u8 {
    if 48 <= b && b <= 57 {
        (b - 48) as u8
    } else if 97 <= b && b <= 102 {
        (b - 87) as u8
    } else {
        (b - 55) as u8
    }
}

/// The text is exactly 64 hexadecimal digits.
pub open spec fn hex64_ok(bs: Seq<u8>) -> bool {
    bs.len() == 64 && (forall|i: int| 0 <= i < 64 ==> is_hex_digit(#[trigger] bs[i]))
}

/// The 32 bytes that 64 hexadecimal digits denote.
pub open spec fn hex_decode32(bs: Seq<u8>) -> Seq<u8> {
    Seq::new(32, |i: int| (hex_val(bs[2 * i]) * 16 + hex_val(bs[2 * i + 1])) as u8)
}

fn hex_digit_value(b: u8) -> (r: Option<u8>)
    ensures
        r is Some <==> is_hex_digit(b),
        r is Some ==> r->0 == hex_val(b),
{
    if 48 <= b && b <= 57 {
        Some(b - 48)
    } else if 97 <= b && b <= 102 {
        Some(b - 87)
    } else if 65 <= b && b <= 70 {
        Some(b - 55)
    } else {
        None
    }
}

/// Decodes a public key given as 64 hexadecimal digits into its 32 bytes.
pub fn decode_pubkey_hex(s: &str) -> (r: Result<Vec<u8>, Error>)
    ensures
        match r {
            Ok(v) => hex64_ok(s.spec_bytes()) && v@ =~= hex_decode32(s.spec_bytes()),
            Err(e) => e == Error::InvalidKeyEncoding && !hex64_ok(s.spec_bytes()),
        },
{
    let bs = s.as_bytes();
    if bs.len() != 64 {
        return Err(Error::InvalidKeyEncoding);
    }
    let mut out: Vec<u8> = Vec::new();
    let mut i: usize = 0;
    while i < 32
        invariant
            bs@ == s.spec_bytes(),
            bs@.len() == 64,
            0 <= i <= 32,
            out@.len() == i,
            forall|j: int| 0 <= j < 2 * i ==> is_hex_digit(#[trigger] bs@[j]),
            forall|j: int|
                0 <= j < i ==> #[trigger] out@[j] == (hex_val(bs@[2 * j]) * 16 + hex_val(
                    bs@[2 * j + 1],
                )) as u8,
        decreases 32 - i,
    {
        let hi = match hex_digit_value(bs[2 * i]) {
            Some(v) => v,
            None => {
                return Err(Error::InvalidKeyEncoding);
            },
        };
        let lo = match hex_digit_value(bs[2 * i + 1]) {
            Some(v) => v,
            None => {
                return Err(Error::InvalidKeyEncoding);
            },
        };
        out.push(hi * 16 + lo);
        i = i + 1;
    }
    Ok(out)
}

/// The 64-bit seed read little-endian from the first eight bytes of a digest.
pub open spec fn seed_from_digest(d: Seq<u8>) -> int {
    d[0] + 0x100 * d[1] + 0x1_0000 * d[2] + 0x100_0000 * d[3] + 0x1_0000_0000 * d[4]
        + 0x100_0000_0000 * d[5] + 0x1_0000_0000_0000 * d[6] + 0x100_0000_0000_0000 * d[7]
}

/// The seed the generation path uses for a key: SHA-256 of the key bytes,
/// truncated to its first eight bytes, read as a little-endian integer.
pub open spec fn seed_of_key(key: Seq<u8>) -> int {
    seed_from_digest(sha256_of(key))
}

/// Hashes the 32 decoded key bytes once and builds the seeded generator.
fn rng_for_key_bytes(key: &Vec<u8>) -> (r: SmallRng)
    requires
        key@.len() == 32,
    ensures
        rng_seed(r) == seed_of_key(key@),
        rng_pos(r) == 0,
{
    let digest = sha256(key.as_slice());
    let seed: u64 = (digest[0] as u64) + 0x100 * (digest[1] as u64) + 0x1_0000 * (
    digest[2] as u64) + 0x100_0000 * (digest[3] as u64) + 0x1_0000_0000 * (digest[4] as u64)
        + 0x100_0000_0000 * (digest[5] as u64) + 0x1_0000_0000_0000 * (digest[6] as u64)
        + 0x100_0000_0000_0000 * (digest[7] as u64);
    rng_from_seed(seed)
}

/// Creates the deterministic generator for a public key given in hex.
pub fn create_rng_from_pubkey(pubkey_hex: &str) -> (r: Result<SmallRng, Error>)
    ensures
        match r {
            Ok(rng) => {
                &&& hex64_ok(pubkey_hex.spec_bytes())
                &&& rng_seed(rng) == seed_of_key(hex_decode32(pubkey_hex.spec_bytes()))
                &&& rng_pos(rng) == 0
            },
            Err(e) => e == Error::InvalidKeyEncoding && !hex64_ok(pubkey_hex.spec_bytes()),
        },
{
    let key = decode_pubkey_hex(pubkey_hex)?;
    Ok(rng_for_key_bytes(&key))
}

} // verus!
