//! The payload commitment: the payload is zero-padded to whole 32-byte
//! chunks, each chunk becomes a hidden tree node, and the nodes are folded
//! left to right onto the leaf that wraps the spending script.  The root,
//! tweaked with the identity key, yields the deposit address.

use vstd::prelude::*;
use vstd::string::StringSliceAdditionalSpecFns;

use bitcoin::taproot::{LeafVersion, NodeInfo, TaprootSpendInfo};
use bitcoin::XOnlyPublicKey;

use crate::keys::{
    is_curve_x, nums_candidate, nums_first_hit, nums_found, nums_from_tag, script_rep,
    spend_script, spend_script_bytes, xkey_of, xkey_rep, xonly_from_bytes, NUMS_SEARCH_CEILING,
};
use crate::seed::{decode_pubkey_hex, hex64_ok, hex_decode32};
use crate::Error;

verus! {

#[verifier::external_type_specification]
#[verifier::external_body]
pub struct ExNodeInfo(NodeInfo);

#[verifier::external_type_specification]
#[verifier::external_body]
pub struct ExTaprootSpendInfo(TaprootSpendInfo);

/// The deepest any tracked script leaf may sit in a tree; one hidden chunk
/// node can be folded in for each level.
pub const TREE_DEPTH_MAX: usize = 128;

/// The merkle hash of a tree node.
pub uninterp spec fn node_hash_rep(n: NodeInfo) -> Seq<u8>;

/// The depth of the deepest script leaf a node tracks, zero when it tracks
/// none.
pub uninterp spec fn node_leaf_depth(n: NodeInfo) -> nat;

/// The node tracks a script leaf with these script bytes.
pub uninterp spec fn node_has_script_leaf(n: NodeInfo, script: Seq<u8>) -> bool;

/// The tagged leaf hash of a script under the tapscript leaf version.
pub uninterp spec fn tap_leaf_hash(script: Seq<u8>) -> Seq<u8>;

/// The tagged branch hash over an unordered pair of child hashes.
pub uninterp spec fn tap_branch(a: Seq<u8>, b: Seq<u8>) -> Seq<u8>;

/// The internal key a spend structure was built for.
pub uninterp spec fn spend_info_internal(t: TaprootSpendInfo) -> Seq<u8>;

/// The merkle root a spend structure commits to.
pub uninterp spec fn spend_info_root(t: TaprootSpendInfo) -> Seq<u8>;

/// The spend structure carries a proof path for a leaf with these script
/// bytes.
pub uninterp spec fn spend_info_has_leaf(t: TaprootSpendInfo, script: Seq<u8>) -> bool;

/// The leaf node built from given script bytes: a pure function of them.
pub uninterp spec fn leaf_node_of(script: Seq<u8>) -> NodeInfo;

/// The node that combining a node with a hidden node of given hash bytes
/// yields: a pure function of the two.
pub uninterp spec fn combined_of(node: NodeInfo, hash: Seq<u8>) -> NodeInfo;

/// The spend structure built from an internal key and a root node: a pure
/// function of the two.
pub uninterp spec fn spend_info_of(internal: XOnlyPublicKey, node: NodeInfo) -> TaprootSpendInfo;

/// Relies on `NodeInfo::new_leaf_with_ver` with the tapscript version: the
/// fresh node is a pure function of the script bytes, its hash is the leaf
/// hash of the script, it tracks that one script leaf, and the leaf sits at
/// depth zero.
#[verifier::external_body]
fn leaf_node(script: bitcoin::ScriptBuf) -> (r: NodeInfo)
    ensures
        r == leaf_node_of(script_rep(script)),
        node_hash_rep(r) == tap_leaf_hash(script_rep(script)),
        node_leaf_depth(r) == 0,
        node_has_script_leaf(r, script_rep(script)),
{
    NodeInfo::new_leaf_with_ver(script, LeafVersion::TapScript)
}

/// Relies on `NodeInfo::new_hidden_node` and `NodeInfo::combine`: the
/// combined node is a pure function of the node and the hash bytes, its
/// hash is the branch hash of the two child hashes (the library orders the
/// pair internally), every tracked leaf sinks at most one level, tracked
/// leaves are carried over, and a combine whose tracked leaves all sit
/// above the depth limit cannot fail.
#[verifier::external_body]
fn combine_with_hidden(node: NodeInfo, hash: &Vec<u8>) -> (r: NodeInfo)
    requires
        hash@.len() == 32,
        node_leaf_depth(node) < TREE_DEPTH_MAX,
    ensures
        r == combined_of(node, hash@),
        node_hash_rep(r) == tap_branch(node_hash_rep(node), hash@),
        node_leaf_depth(r) <= node_leaf_depth(node) + 1,
        forall|s: Seq<u8>| node_has_script_leaf(node, s) ==> node_has_script_leaf(r, s),
{
    let mut arr = [0u8; 32];
    arr.copy_from_slice(hash.as_slice());
    let hidden = NodeInfo::new_hidden_node(bitcoin::TapNodeHash::assume_hidden(arr));
    NodeInfo::combine(node, hidden).expect("all leaves sit above the depth limit")
}

/// Relies on `Secp256k1::new` (a verification context carrying no data) and
/// `TaprootSpendInfo::from_node_info`: the structure is a pure function of
/// the internal key and the node, records that key and the node's hash as
/// its merkle root, and keeps a proof path for every script leaf the node
/// tracks.
#[verifier::external_body]
fn spend_info_from_node(internal: &XOnlyPublicKey, node: NodeInfo) -> (r: TaprootSpendInfo)
    ensures
        r == spend_info_of(*internal, node),
        spend_info_internal(r) == xkey_rep(*internal),
        spend_info_root(r) == node_hash_rep(node),
        forall|s: Seq<u8>| node_has_script_leaf(node, s) ==> spend_info_has_leaf(r, s),
{
    let secp = bitcoin::secp256k1::Secp256k1::new();
    TaprootSpendInfo::from_node_info(&secp, *internal, node)
}

/// The padded length: the least multiple of 32 at or above `n`.
pub open spec fn padded_len(n: int) -> int {
    if n % 32 == 0 {
        n
    } else {
        n + 32 - (n % 32)
    }
}

/// The payload zero-padded up to a whole number of 32-byte chunks.  A
/// payload already a multiple of 32 long is unchanged.
pub open spec fn pad32(bytes: Seq<u8>) -> Seq<u8> {
    bytes + Seq::new((padded_len(bytes.len() as int) - bytes.len()) as nat, |i: int| 0u8)
}

/// How many 32-byte chunks the padded payload fills.
pub open spec fn chunk_count(n: int) -> int {
    padded_len(n) / 32
}

/// The `i`-th 32-byte chunk of the padded payload.
pub open spec fn chunk_at(bytes: Seq<u8>, i: int) -> Seq<u8> {
    pad32(bytes).subrange(32 * i, 32 * i + 32)
}

/// Splits the payload into hidden-node hashes: zero-pads it to a multiple
/// of 32 bytes, then takes the chunks in order.  The padding bytes enter
/// the hash computation but carry no committed content.
pub fn build_merkle_path_from_bytes(bytes: &Vec<u8>) -> (r: Vec<Vec<u8>>)
    requires
        bytes@.len() + 32 <= usize::MAX,
    ensures
        r@.len() == chunk_count(bytes@.len() as int),
        forall|i: int|
            0 <= i < r@.len() ==> #[trigger] r@[i]@ =~= chunk_at(bytes@, i) && r@[i]@.len() == 32,
{
    let n = bytes.len();
    let rem = n % 32;
    let target: usize = if rem == 0 {
        n
    } else {
        n + (32 - rem)
    };
    let mut padded: Vec<u8> = Vec::new();
    let mut i: usize = 0;
    while i < n
        invariant
            n == bytes@.len(),
            0 <= i <= n,
            padded@ =~= bytes@.take(i as int),
        decreases n - i,
    {
        padded.push(bytes[i]);
        i = i + 1;
    }
    while i < target
        invariant
            n == bytes@.len(),
            target == padded_len(n as int),
            n <= i <= target,
            padded@.len() == i,
            padded@.take(n as int) =~= bytes@,
            forall|j: int| n <= j < i ==> #[trigger] padded@[j] == 0,
        decreases target - i,
    {
        padded.push(0);
        i = i + 1;
    }
    proof {
        assert(padded@ =~= pad32(bytes@));
    }
    let m: usize = target / 32;
    let mut out: Vec<Vec<u8>> = Vec::new();
    let mut c: usize = 0;
    while c < m
        invariant
            padded@ =~= pad32(bytes@),
            padded@.len() == target,
            target == 32 * m,
            m == chunk_count(bytes@.len() as int),
            0 <= c <= m,
            out@.len() == c,
            forall|k: int|
                0 <= k < c ==> #[trigger] out@[k]@ =~= chunk_at(bytes@, k) && out@[k]@.len() == 32,
        decreases m - c,
    {
        let mut chunk: Vec<u8> = Vec::new();
        let mut k: usize = 0;
        while k < 32
            invariant
                padded@.len() == target,
                target == 32 * m,
                0 <= c < m,
                0 <= k <= 32,
                chunk@.len() == k,
                forall|j: int| 0 <= j < k ==> #[trigger] chunk@[j] == padded@[32 * c + j],
            decreases 32 - k,
        {
            chunk.push(padded[32 * c + k]);
            k = k + 1;
        }
        proof {
            assert(chunk@ =~= chunk_at(bytes@, c as int));
        }
        out.push(chunk);
        c = c + 1;
    }
    out
}

/// The fixed domain-separation tag the identity key is derived from: the
/// ASCII bytes of "Labitbu".
pub open spec fn nums_tag() -> Seq<u8> {
    seq![0x4cu8, 0x61u8, 0x62u8, 0x69u8, 0x74u8, 0x62u8, 0x75u8]
}

/// Some counter below the search ceiling hashes onto the curve for the
/// fixed tag.
pub open spec fn nums_exists() -> bool {
    exists|c: u32| c < NUMS_SEARCH_CEILING && #[trigger] nums_found(nums_tag(), c)
}

/// The identity key's 32 bytes: the hash at the first counter that lands on
/// the curve.
pub open spec fn nums_key_bytes() -> Seq<u8> {
    nums_candidate(nums_tag(), choose|c: u32| nums_first_hit(nums_tag(), c))
}

/// Two first hits are the same counter.
proof fn lemma_first_hit_unique(tag: Seq<u8>, c1: u32, c2: u32)
    requires
        nums_first_hit(tag, c1),
        nums_first_hit(tag, c2),
    ensures
        c1 == c2,
{
    if c1 < c2 {
        assert(!nums_found(tag, c1));
    } else if c2 < c1 {
        assert(!nums_found(tag, c2));
    }
}

/// Derives the fixed identity key, or fails when no counter below the
/// ceiling lands on the curve.
pub(crate) fn labitbu_nums() -> (r: Result<XOnlyPublicKey, Error>)
    ensures
        match r {
            Ok(k) => nums_exists() && k == xkey_of(nums_key_bytes()) && xkey_rep(k)
                =~= nums_key_bytes(),
            Err(e) => e == Error::TreeCombineError && !nums_exists(),
        },
{
    let tag: Vec<u8> = vec![0x4cu8, 0x61u8, 0x62u8, 0x69u8, 0x74u8, 0x62u8, 0x75u8];
    proof {
        assert(tag@ =~= nums_tag());
    }
    match nums_from_tag(&tag) {
        Some(k) => {
            proof {
                let c = choose|c: u32|
                    #[trigger] nums_first_hit(tag@, c) && c < NUMS_SEARCH_CEILING && xkey_rep(k)
                        =~= nums_candidate(tag@, c);
                let c2 = choose|c2: u32| nums_first_hit(nums_tag(), c2);
                lemma_first_hit_unique(nums_tag(), c, c2);
            }
            Ok(k)
        },
        None => Err(Error::TreeCombineError),
    }
}

/// The running root after folding the first `k` chunks onto the leaf.
pub open spec fn commit_root_upto(script: Seq<u8>, payload: Seq<u8>, k: int) -> Seq<u8>
    decreases k,
{
    if k <= 0 {
        tap_leaf_hash(script)
    } else {
        tap_branch(commit_root_upto(script, payload, k - 1), chunk_at(payload, k - 1))
    }
}

/// The root of the whole commitment tree: the leaf combined with every
/// chunk's hidden node, first chunk first.
pub open spec fn commit_root(script: Seq<u8>, payload: Seq<u8>) -> Seq<u8> {
    commit_root_upto(script, payload, chunk_count(payload.len() as int))
}

/// The tree node after folding the first `k` chunks onto the leaf, as a
/// value: the same fold as `commit_root_upto`, at the level of the nodes
/// themselves.
pub open spec fn folded_node(script: Seq<u8>, payload: Seq<u8>, k: int) -> NodeInfo
    decreases k,
{
    if k <= 0 {
        leaf_node_of(script)
    } else {
        combined_of(folded_node(script, payload, k - 1), chunk_at(payload, k - 1))
    }
}

/// The spend structure the commitment of a payload under a key's spending
/// script yields: the whole construction is a pure function of the key
/// bytes and the payload.
pub open spec fn committed_spend_info(key: Seq<u8>, payload: Seq<u8>) -> TaprootSpendInfo {
    spend_info_of(
        xkey_of(nums_key_bytes()),
        folded_node(spend_script_bytes(key), payload, chunk_count(payload.len() as int)),
    )
}

/// The mainnet address text of the tweaked output key for an internal key
/// and a merkle root.
pub uninterp spec fn p2tr_addr(internal: Seq<u8>, root: Seq<u8>) -> Seq<char>;

/// Relies on `TaprootSpendInfo::output_key`, `Address::p2tr_tweaked` with
/// the fixed mainnet network, and the address's text form: the output key
/// is the tweak of the internal key by the merkle root, so the text is a
/// function of those two alone.
#[verifier::external_body]
fn p2tr_mainnet_address(t: &TaprootSpendInfo) -> (r: String)
    ensures
        r@ =~= p2tr_addr(spend_info_internal(*t), spend_info_root(*t)),
{
    let addr = bitcoin::Address::p2tr_tweaked(t.output_key(), bitcoin::Network::Bitcoin);
    addr.to_string()
}

/// Builds the taproot spend structure that commits to the payload under the
/// participant's key: the spending script as the only real leaf, one hidden
/// node per padded chunk folded in chunk order, and the fixed identity key
/// as the internal key.
pub fn create_taproot_spend_info(pubkey: XOnlyPublicKey, payload_bytes: Vec<u8>) -> (r: Result<
    TaprootSpendInfo,
    Error,
>)
    requires
        payload_bytes@.len() + 32 <= usize::MAX,
    ensures
        match r {
            Ok(t) => {
                &&& nums_exists()
                &&& chunk_count(payload_bytes@.len() as int) <= TREE_DEPTH_MAX
                &&& t == committed_spend_info(xkey_rep(pubkey), payload_bytes@)
                &&& spend_info_internal(t) =~= nums_key_bytes()
                &&& spend_info_root(t) =~= commit_root(
                    spend_script_bytes(xkey_rep(pubkey)),
                    payload_bytes@,
                )
                &&& spend_info_has_leaf(t, spend_script_bytes(xkey_rep(pubkey)))
            },
            Err(e) => {
                &&& e == Error::TreeCombineError
                &&& (!nums_exists() || chunk_count(payload_bytes@.len() as int) > TREE_DEPTH_MAX)
            },
        },
{
    let script = spend_script(pubkey);
    let ghost sb = spend_script_bytes(xkey_rep(pubkey));
    let nums = labitbu_nums()?;
    let path = build_merkle_path_from_bytes(&payload_bytes);
    if path.len() > TREE_DEPTH_MAX {
        return Err(Error::TreeCombineError);
    }
    let mut node = leaf_node(script);
    let n = path.len();
    let mut i: usize = 0;
    while i < n
        invariant
            n == path@.len(),
            n <= TREE_DEPTH_MAX,
            forall|k: int|
                0 <= k < n ==> #[trigger] path@[k]@ =~= chunk_at(payload_bytes@, k)
                    && path@[k]@.len() == 32,
            0 <= i <= n,
            node_leaf_depth(node) <= i,
            node == folded_node(sb, payload_bytes@, i as int),
            node_hash_rep(node) =~= commit_root_upto(sb, payload_bytes@, i as int),
            node_has_script_leaf(node, sb),
        decreases n - i,
    {
        node = combine_with_hidden(node, &path[i]);
        i = i + 1;
    }
    Ok(spend_info_from_node(&nums, node))
}


/// Derives the fixed-network deposit address that commits to the payload
/// under the key: parse the key, build the commitment tree, tweak the
/// identity key by its root, and render the address text.
pub fn create_deposit_address(pubkey_hex: &str, payload_bytes: Vec<u8>) -> (r: Result<
    String,
    Error,
>)
    requires
        payload_bytes@.len() + 32 <= usize::MAX,
    ensures
        match r {
            Ok(s) => {
                &&& hex64_ok(pubkey_hex.spec_bytes())
                &&& is_curve_x(hex_decode32(pubkey_hex.spec_bytes()))
                &&& nums_exists()
                &&& chunk_count(payload_bytes@.len() as int) <= TREE_DEPTH_MAX
                &&& s@ =~= p2tr_addr(
                    nums_key_bytes(),
                    commit_root(
                        spend_script_bytes(hex_decode32(pubkey_hex.spec_bytes())),
                        payload_bytes@,
                    ),
                )
            },
            Err(Error::InvalidKeyEncoding) => !hex64_ok(pubkey_hex.spec_bytes()) || !is_curve_x(
                hex_decode32(pubkey_hex.spec_bytes()),
            ),
            Err(Error::TreeCombineError) => {
                &&& hex64_ok(pubkey_hex.spec_bytes())
                &&& is_curve_x(hex_decode32(pubkey_hex.spec_bytes()))
                &&& (!nums_exists() || chunk_count(payload_bytes@.len() as int) > TREE_DEPTH_MAX)
            },
            Err(_) => false,
        },
{
    let kb = decode_pubkey_hex(pubkey_hex)?;
    let pk = xonly_from_bytes(&kb)?;
    let info = create_taproot_spend_info(pk, payload_bytes)?;
    Ok(p2tr_mainnet_address(&info))
}


/// Padding law: a payload whose length is a whole number of chunks is
/// unchanged by padding; any other payload is extended with just enough
/// zero bytes to reach the next multiple of 32, its own bytes untouched.
pub proof fn lemma_padding_rule(bytes: Seq<u8>)
    ensures
        bytes.len() % 32 == 0 ==> pad32(bytes) =~= bytes,
        bytes.len() % 32 != 0 ==> pad32(bytes).len() == bytes.len() + (32 - bytes.len() % 32),
        pad32(bytes).len() % 32 == 0,
        pad32(bytes).take(bytes.len() as int) =~= bytes,
        forall|j: int| bytes.len() <= j < pad32(bytes).len() ==> #[trigger] pad32(bytes)[j] == 0,
{
}

} // verus!


