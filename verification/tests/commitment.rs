//! Commitment-path tests: the padding rule, the control block round trip,
//! and the deposit address held against an independent construction of the
//! same tree through the bitcoin library.

use labitbu::commit::{build_merkle_path_from_bytes, create_deposit_address, create_taproot_spend_info};
use labitbu::keys::spend_script;
use labitbu::Error;

use bitcoin::hashes::{sha256, HashEngine};
use bitcoin::opcodes::all::OP_CHECKSIG;
use bitcoin::script::Builder;
use bitcoin::taproot::{LeafVersion, NodeInfo, TaprootSpendInfo};
use bitcoin::{Address, Network, TapNodeHash, XOnlyPublicKey};

const KEY_HEX: &str = "79be667ef9dcbbac55a06295ce870b07029bfcdb2dce28d959f2815b16f81798";

fn key() -> XOnlyPublicKey {
    XOnlyPublicKey::from_slice(&hex::decode(KEY_HEX).unwrap()).unwrap()
}

fn reference_nums() -> XOnlyPublicKey {
    let mut ctr = 0u32;
    loop {
        let mut eng = sha256::HashEngine::default();
        eng.input(b"Labitbu");
        eng.input(&ctr.to_le_bytes());
        let h = <sha256::Hash as bitcoin::hashes::Hash>::from_engine(eng);
        let candidate = <sha256::Hash as bitcoin::hashes::Hash>::to_byte_array(h);
        if let Ok(pk) = XOnlyPublicKey::from_slice(&candidate) {
            return pk;
        }
        ctr += 1;
    }
}

fn reference_spend_info(pk: XOnlyPublicKey, payload: &[u8]) -> TaprootSpendInfo {
    let secp = bitcoin::secp256k1::Secp256k1::new();
    let script = Builder::new().push_x_only_key(&pk).push_opcode(OP_CHECKSIG).into_script();
    let nums = reference_nums();
    let mut root = NodeInfo::new_leaf_with_ver(script, LeafVersion::TapScript);
    let mut padded = payload.to_vec();
    while padded.len() % 32 != 0 {
        padded.push(0);
    }
    for chunk in padded.chunks(32) {
        let h = TapNodeHash::assume_hidden(chunk.try_into().unwrap());
        root = NodeInfo::combine(root, NodeInfo::new_hidden_node(h)).unwrap();
    }
    TaprootSpendInfo::from_node_info(&secp, nums, root)
}

#[test]
fn padding_leaves_whole_chunks_alone() {
    let payload: Vec<u8> = (0u8..32).collect();
    let path = build_merkle_path_from_bytes(&payload);
    assert_eq!(path.len(), 1);
    assert_eq!(path[0], payload);

    let two: Vec<u8> = (0u8..64).collect();
    let path2 = build_merkle_path_from_bytes(&two);
    assert_eq!(path2.len(), 2);
    assert_eq!(path2[0], two[..32].to_vec());
    assert_eq!(path2[1], two[32..].to_vec());
}

#[test]
fn padding_fills_partial_chunks_with_zeros() {
    let payload: Vec<u8> = (1u8..=33).collect();
    let path = build_merkle_path_from_bytes(&payload);
    assert_eq!(path.len(), 2);
    assert_eq!(path[0], payload[..32].to_vec());
    let mut expected_last = vec![33u8];
    expected_last.extend_from_slice(&[0u8; 31]);
    assert_eq!(path[1], expected_last);

    let short = vec![9u8; 5];
    let path2 = build_merkle_path_from_bytes(&short);
    assert_eq!(path2.len(), 1);
    let mut expected = vec![9u8; 5];
    expected.extend_from_slice(&[0u8; 27]);
    assert_eq!(path2[0], expected);
}

#[test]
fn empty_payload_has_no_chunks() {
    let path = build_merkle_path_from_bytes(&Vec::new());
    assert_eq!(path.len(), 0);
}

#[test]
fn control_block_proves_the_spend_script() {
    let secp = bitcoin::secp256k1::Secp256k1::new();
    for payload in [Vec::new(), vec![1u8; 32], (0u8..200).collect::<Vec<u8>>()] {
        let info = create_taproot_spend_info(key(), payload).unwrap();
        let script = spend_script(key());
        let cb = info
            .control_block(&(script.clone(), LeafVersion::TapScript))
            .expect("the spending script must be a leaf of the tree");
        assert!(cb.verify_taproot_commitment(&secp, info.output_key().to_x_only_public_key(), &script));
    }
}

#[test]
fn spend_info_matches_reference_construction() {
    let payload: Vec<u8> = (0u8..100).collect();
    let ours = create_taproot_spend_info(key(), payload.clone()).unwrap();
    let reference = reference_spend_info(key(), &payload);
    assert_eq!(ours.internal_key(), reference.internal_key());
    assert_eq!(ours.merkle_root(), reference.merkle_root());
    assert_eq!(ours.output_key(), reference.output_key());
}

#[test]
fn deposit_address_matches_reference_construction() {
    let payload = b"hello world".to_vec();
    let ours = create_deposit_address(KEY_HEX, payload.clone()).unwrap();
    let reference = Address::p2tr_tweaked(
        reference_spend_info(key(), &payload).output_key(),
        Network::Bitcoin,
    )
    .to_string();
    assert_eq!(ours, reference);
}

#[test]
fn spend_script_is_key_push_then_checksig() {
    let script = spend_script(key());
    let mut expected = vec![0x20u8];
    expected.extend_from_slice(&hex::decode(KEY_HEX).unwrap());
    expected.push(0xac);
    assert_eq!(script.as_bytes(), &expected[..]);

    let reference = Builder::new().push_x_only_key(&key()).push_opcode(OP_CHECKSIG).into_script();
    assert_eq!(script, reference);
}

#[test]
fn oversized_payload_is_refused() {
    // 129 chunks exceed the tree's depth limit of 128.
    let payload = vec![1u8; 128 * 32 + 1];
    assert!(matches!(
        create_taproot_spend_info(key(), payload),
        Err(Error::TreeCombineError)
    ));
    // 128 chunks exactly still fit.
    let payload = vec![1u8; 128 * 32];
    assert!(create_taproot_spend_info(key(), payload).is_ok());
}

#[test]
fn bad_keys_are_refused() {
    assert!(matches!(
        create_deposit_address("nothex", Vec::new()),
        Err(Error::InvalidKeyEncoding)
    ));
    // 64 valid hex digits that are not a curve x coordinate.
    let zeros = "0".repeat(64);
    assert!(matches!(
        create_deposit_address(&zeros, Vec::new()),
        Err(Error::InvalidKeyEncoding)
    ));
}

#[test]
fn deposit_address_is_deterministic() {
    let payload = vec![5u8; 40];
    let a = create_deposit_address(KEY_HEX, payload.clone()).unwrap();
    let b = create_deposit_address(KEY_HEX, payload).unwrap();
    assert_eq!(a, b);
}
