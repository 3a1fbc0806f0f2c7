//! Keys and the spending script.  A participant's key is an x-only public
//! key; its spending script checks a signature against exactly that key; and
//! the collection's internal identity key is a nothing-up-my-sleeve point
//! found by hashing a fixed tag with a counter until the hash lands on the
//! curve, so that nobody can know a secret for it.

use vstd::prelude::*;

use bitcoin::XOnlyPublicKey;

use crate::seed::{sha256, sha256_of};
use crate::Error;

verus! {

#[verifier::external_type_specification]
#[verifier::external_body]
pub struct ExXOnlyPublicKey(XOnlyPublicKey);

/// Whether 32 bytes are the x coordinate of a point on the curve, exactly
/// the test the key parser applies.
pub uninterp spec fn is_curve_x(bytes: Seq<u8>) -> bool;

/// The 32-byte x coordinate a key serializes to.
pub uninterp spec fn xkey_rep(k: XOnlyPublicKey) -> Seq<u8>;

/// The key value that 32 valid x-coordinate bytes parse to: the parser is a
/// pure function of the bytes.
pub uninterp spec fn xkey_of(bytes: Seq<u8>) -> XOnlyPublicKey;

/// Relies on `XOnlyPublicKey::from_slice` over 32 bytes: it succeeds exactly
/// when the bytes are a valid curve x coordinate, the key it returns is the
/// one those bytes parse to, and it serializes back to those bytes.
#[verifier::external_body]
pub(crate) fn xonly_from_bytes(b: &Vec<u8>) -> (r: Result<XOnlyPublicKey, Error>)
    requires
        b@.len() == 32,
    ensures
        match r {
            Ok(k) => is_curve_x(b@) && k == xkey_of(b@) && xkey_rep(k) =~= b@,
            Err(e) => e == Error::InvalidKeyEncoding && !is_curve_x(b@),
        },
{
    XOnlyPublicKey::from_slice(b.as_slice()).map_err(|_| Error::InvalidKeyEncoding)
}

/// Relies on `XOnlyPublicKey::serialize`: the key's 32-byte x coordinate.
#[verifier::external_body]
pub(crate) fn xonly_serialize(k: &XOnlyPublicKey) -> (r: Vec<u8>)
    ensures
        r@ == xkey_rep(*k),
        r@.len() == 32,
{
    k.serialize().to_vec()
}

#[verifier::external_type_specification]
#[verifier::external_body]
pub struct ExScriptBuf(bitcoin::ScriptBuf);

/// The bytes a script value holds.
pub uninterp spec fn script_rep(s: bitcoin::ScriptBuf) -> Seq<u8>;

/// The script value that wraps given bytes: the constructor is a pure
/// function of the bytes.
pub uninterp spec fn script_of(bytes: Seq<u8>) -> bitcoin::ScriptBuf;

/// Relies on `ScriptBuf::from_bytes`: it wraps the given bytes unchanged,
/// and the value it builds is a function of those bytes.
#[verifier::external_body]
pub(crate) fn script_from_bytes(bytes: Vec<u8>) -> (r: bitcoin::ScriptBuf)
    ensures
        r == script_of(bytes@),
        script_rep(r) =~= bytes@,
{
    bitcoin::ScriptBuf::from_bytes(bytes)
}

/// The single-key-check script for a key: a direct push of the 32-byte key
/// followed by the signature-check opcode.
pub open spec fn spend_script_bytes(key: Seq<u8>) -> Seq<u8> {
    seq![32u8] + key + seq![0xacu8]
}

/// Derives the spending script that checks a signature against the key.
/// Recomputed from the key on every call, never cached.
pub fn spend_script(pubkey: XOnlyPublicKey) -> (r: bitcoin::ScriptBuf)
    ensures
        r == script_of(spend_script_bytes(xkey_rep(pubkey))),
        script_rep(r) =~= spend_script_bytes(xkey_rep(pubkey)),
{
    let kb = xonly_serialize(&pubkey);
    let mut bytes: Vec<u8> = Vec::new();
    bytes.push(32);
    let mut i: usize = 0;
    while i < kb.len()
        invariant
            kb@.len() == 32,
            0 <= i <= 32,
            bytes@.len() == i + 1,
            bytes@[0] == 32u8,
            forall|j: int| 1 <= j < i + 1 ==> #[trigger] bytes@[j] == kb@[j - 1],
        decreases kb@.len() - i,
    {
        bytes.push(kb[i]);
        i = i + 1;
    }
    bytes.push(0xac);
    proof {
        assert(bytes@ =~= spend_script_bytes(kb@));
    }
    script_from_bytes(bytes)
}

/// How far the identity-key search will look before giving up.  Each counter
/// lands on the curve with probability about one half, so in practice the
/// search ends after a handful of steps; the ceiling only bounds the loop.
pub const NUMS_SEARCH_CEILING: u32 = 65536;

/// The hash tried at one counter: SHA-256 of the tag followed by the
/// counter's four little-endian bytes.
pub open spec fn nums_candidate(tag: Seq<u8>, c: u32) -> Seq<u8> {
    sha256_of(tag + vstd::bytes::spec_u32_to_le_bytes(c))
}

/// The counter's hash lands on the curve.
pub open spec fn nums_found(tag: Seq<u8>, c: u32) -> bool {
    is_curve_x(nums_candidate(tag, c))
}

/// The counter is the first one whose hash lands on the curve.
pub open spec fn nums_first_hit(tag: Seq<u8>, c: u32) -> bool {
    nums_found(tag, c) && (forall|c2: u32| c2 < c ==> !nums_found(tag, c2))
}

/// Derives the nothing-up-my-sleeve identity key for a tag: hashes the tag
/// with an incrementing counter and returns the first hash that is a valid
/// curve x coordinate.  Deterministic for a fixed tag.
pub fn nums_from_tag(tag: &Vec<u8>) -> (r: Option<XOnlyPublicKey>)
    requires
        tag@.len() + 4 <= usize::MAX,
    ensures
        match r {
            Some(k) => exists|c: u32|
                #[trigger] nums_first_hit(tag@, c) && c < NUMS_SEARCH_CEILING && k == xkey_of(
                    nums_candidate(tag@, c),
                ) && xkey_rep(k) =~= nums_candidate(tag@, c),
            None => forall|c: u32| c < NUMS_SEARCH_CEILING ==> !nums_found(tag@, c),
        },
{
    let mut ctr: u32 = 0;
    while ctr < NUMS_SEARCH_CEILING
        invariant
            tag@.len() + 4 <= usize::MAX,
            0 <= ctr <= NUMS_SEARCH_CEILING,
            forall|c2: u32| c2 < ctr ==> !nums_found(tag@, c2),
        decreases NUMS_SEARCH_CEILING - ctr,
    {
        let mut buf: Vec<u8> = Vec::new();
        let mut i: usize = 0;
        while i < tag.len()
            invariant
                tag@.len() + 4 <= usize::MAX,
                0 <= i <= tag@.len(),
                buf@ =~= tag@.take(i as int),
            decreases tag@.len() - i,
        {
            buf.push(tag[i]);
            i = i + 1;
        }
        proof {
            assert(buf@ =~= tag@);
        }
        let mut le = vstd::bytes::u32_to_le_bytes(ctr);
        buf.append(&mut le);
        proof {
            assert(buf@ =~= tag@ + vstd::bytes::spec_u32_to_le_bytes(ctr));
        }
        let digest = sha256(buf.as_slice());
        match xonly_from_bytes(&digest) {
            Ok(k) => {
                proof {
                    assert(nums_first_hit(tag@, ctr));
                }
                return Some(k);
            },
            Err(_) => {},
        }
        ctr = ctr + 1;
    }
    None
}

} // verus!
