//! Assembling the mint transaction: one output pays the destination the
//! amount less the fee, the unsigned transaction is wrapped in a partially
//! signed structure, and every input is given the previous output, the
//! identity key, the script with its proof path, and the sighash mode it
//! needs for external signing.

use vstd::prelude::*;
use vstd::string::StringSliceAdditionalSpecFns;

use bitcoin::taproot::{ControlBlock, LeafVersion, TaprootSpendInfo};
use bitcoin::{Psbt, ScriptBuf, Transaction, TxIn, TxOut, XOnlyPublicKey};

use crate::commit::{
    chunk_count, committed_spend_info, create_taproot_spend_info, nums_exists, nums_key_bytes,
    spend_info_has_leaf, TREE_DEPTH_MAX,
};
use crate::keys::{
    is_curve_x, script_of, script_rep, spend_script, spend_script_bytes, xkey_of, xkey_rep,
    xonly_from_bytes,
};
use crate::seed::{decode_pubkey_hex, hex64_ok, hex_decode32};
use crate::Error;

verus! {

#[verifier::external_type_specification]
#[verifier::external_body]
pub struct ExTxIn(TxIn);

#[verifier::external_type_specification]
#[verifier::external_body]
pub struct ExTxOut(TxOut);

#[verifier::external_type_specification]
#[verifier::external_body]
pub struct ExTransaction(Transaction);

#[verifier::external_type_specification]
#[verifier::external_body]
pub struct ExPsbt(Psbt);

#[verifier::external_type_specification]
#[verifier::external_body]
pub struct ExControlBlock(ControlBlock);

/// An input carries no signature data yet: empty unlocking script and empty
/// witness.
pub uninterp spec fn txin_unsigned(t: TxIn) -> bool;

/// The input list of a transaction.
pub uninterp spec fn tx_inputs(t: Transaction) -> Seq<TxIn>;

/// The output list of a transaction.
pub uninterp spec fn tx_outputs(t: Transaction) -> Seq<TxOut>;

/// The version number of a transaction.
pub uninterp spec fn tx_version(t: Transaction) -> int;

/// The lock time of a transaction.
pub uninterp spec fn tx_lock_time(t: Transaction) -> int;

/// Every input of the transaction is unsigned.
pub uninterp spec fn tx_unsigned(t: Transaction) -> bool;

/// The transaction the constructor builds from an input and an output list:
/// a pure function of the two, with the fixed version and lock time.
pub uninterp spec fn tx_of(inputs: Seq<TxIn>, outputs: Seq<TxOut>) -> Transaction;

/// The output paying a value to a script: a pure function of the two.
pub uninterp spec fn txout_of(value_sat: u64, script: Seq<u8>) -> TxOut;

/// The value in satoshi an output carries.
pub uninterp spec fn txout_value(t: TxOut) -> int;

/// The output script an output pays to.
pub uninterp spec fn txout_script(t: TxOut) -> Seq<u8>;

/// How many inputs a partially signed transaction tracks.
pub uninterp spec fn psbt_input_count(p: Psbt) -> int;

/// The fresh partially signed transaction wrapping an unsigned transaction:
/// a pure function of it.
pub uninterp spec fn psbt_of(tx: Transaction) -> Psbt;

/// The unsigned transaction a partially signed transaction wraps.
pub uninterp spec fn psbt_tx(p: Psbt) -> Transaction;

/// The partially signed transaction after filling one input's signing data:
/// a pure function of the structure and the data filled in.
pub uninterp spec fn psbt_filled(
    p: Psbt,
    idx: int,
    prev: TxOut,
    internal: XOnlyPublicKey,
    script: ScriptBuf,
    cb: ControlBlock,
) -> Psbt;

/// Input `idx` of the partially signed transaction carries this signing
/// data: the previous output as its witness utxo, the internal key, the
/// default taproot sighash, and an entry mapping the control block to the
/// script under the tapscript version.
pub uninterp spec fn psbt_in_filled_with(
    p: Psbt,
    idx: int,
    prev: TxOut,
    internal: XOnlyPublicKey,
    script: Seq<u8>,
    cb: ControlBlock,
) -> bool;

/// The serialized form of a partially signed transaction: a pure function
/// of the value.
pub uninterp spec fn psbt_rep(p: Psbt) -> Seq<u8>;

/// The control block a spend structure yields for a script under the
/// tapscript version: a pure function of the two.
pub uninterp spec fn cb_of(t: TaprootSpendInfo, script: Seq<u8>) -> ControlBlock;

/// The destination text parses as an address valid on the fixed mainnet
/// network.
pub uninterp spec fn mainnet_addr_ok(s: Seq<char>) -> bool;

/// The output script a destination address text resolves to.
pub uninterp spec fn addr_script_of(s: Seq<char>) -> Seq<u8>;

/// Relies on `Address::from_str`, `Address::require_network` with the fixed
/// mainnet network, and `Address::script_pubkey`: the text resolves to its
/// output script exactly when it parses as a mainnet address, and the
/// script is a function of the text alone.
#[verifier::external_body]
fn resolve_mainnet_address(s: &str) -> (r: Result<ScriptBuf, Error>)
    ensures
        match r {
            Ok(sb) => mainnet_addr_ok(s@) && script_rep(sb) == addr_script_of(s@),
            Err(e) => e == Error::AddressParseFailure && !mainnet_addr_ok(s@),
        },
{
    let addr = match <bitcoin::Address<
        bitcoin::address::NetworkUnchecked,
    > as core::str::FromStr>::from_str(s) {
        Ok(a) => a,
        Err(_) => {
            return Err(Error::AddressParseFailure);
        },
    };
    match addr.require_network(bitcoin::Network::Bitcoin) {
        Ok(a) => Ok(a.script_pubkey()),
        Err(_) => Err(Error::AddressParseFailure),
    }
}

/// Relies on the `TxOut` constructor and `Amount::from_sat`: the output is
/// the one paying exactly the given value to the given script.
#[verifier::external_body]
fn build_txout(value_sat: u64, spk: ScriptBuf) -> (r: TxOut)
    ensures
        r == txout_of(value_sat, script_rep(spk)),
        txout_value(r) == value_sat,
        txout_script(r) == script_rep(spk),
{
    TxOut { value: bitcoin::Amount::from_sat(value_sat), script_pubkey: spk }
}

/// Relies on the `Transaction` constructor with version 2 and a zero lock
/// time: the transaction holds exactly the given inputs and outputs in
/// order, and is unsigned exactly when every given input is.
#[verifier::external_body]
fn build_transaction(inputs: Vec<TxIn>, outputs: Vec<TxOut>) -> (r: Transaction)
    ensures
        r == tx_of(inputs@, outputs@),
        tx_inputs(r) == inputs@,
        tx_outputs(r) == outputs@,
        tx_version(r) == 2,
        tx_lock_time(r) == 0,
        tx_unsigned(r) == (forall|i: int|
            0 <= i < inputs@.len() ==> #[trigger] txin_unsigned(inputs@[i])),
{
    Transaction {
        version: bitcoin::transaction::Version(2),
        lock_time: bitcoin::absolute::LockTime::ZERO,
        input: inputs,
        output: outputs,
    }
}

/// Relies on `Psbt::from_unsigned_tx`: it succeeds exactly when every input
/// of the transaction carries no signature data yet, wraps that very
/// transaction, and creates one fresh partially-signed input per
/// transaction input.
#[verifier::external_body]
fn psbt_from_unsigned(tx: Transaction) -> (r: Result<Psbt, Error>)
    ensures
        match r {
            Ok(p) => {
                &&& tx_unsigned(tx)
                &&& p == psbt_of(tx)
                &&& psbt_tx(p) == tx
                &&& psbt_input_count(p) == tx_inputs(tx).len()
            },
            Err(e) => e == Error::SerializationFailure && !tx_unsigned(tx),
        },
{
    Psbt::from_unsigned_tx(tx).map_err(|_| Error::SerializationFailure)
}

/// Relies on `TaprootSpendInfo::control_block`: a spend structure that
/// carries a proof path for the script always yields its control block for
/// it under the tapscript version.
#[verifier::external_body]
fn control_block_for(t: &TaprootSpendInfo, script: &ScriptBuf) -> (r: Option<ControlBlock>)
    ensures
        spend_info_has_leaf(*t, script_rep(*script)) ==> r == Some(
            cb_of(*t, script_rep(*script)),
        ),
{
    t.control_block(&(script.clone(), LeafVersion::TapScript))
}

/// Relies on field assignments of `bitcoin::psbt::Input` and on
/// `BTreeMap::insert`: filling one input's signing data yields the filled
/// structure, sets exactly the four fields on that input, and touches
/// neither the wrapped transaction, the input count, nor any other input's
/// signing data.
#[verifier::external_body]
fn psbt_fill_input(
    p: &mut Psbt,
    idx: usize,
    prev: &TxOut,
    internal: &XOnlyPublicKey,
    script: &ScriptBuf,
    cb: &ControlBlock,
)
    requires
        idx < psbt_input_count(*old(p)),
    ensures
        *final(p) == psbt_filled(*old(p), idx as int, *prev, *internal, *script, *cb),
        psbt_input_count(*final(p)) == psbt_input_count(*old(p)),
        psbt_tx(*final(p)) == psbt_tx(*old(p)),
        psbt_in_filled_with(*final(p), idx as int, *prev, *internal, script_rep(*script), *cb),
        forall|j: int, pr: TxOut, ik: XOnlyPublicKey, sb: Seq<u8>, c: ControlBlock|
            j != idx && #[trigger] psbt_in_filled_with(*old(p), j, pr, ik, sb, c)
                ==> psbt_in_filled_with(*final(p), j, pr, ik, sb, c),
{
    let psbt_in = &mut p.inputs[idx];
    psbt_in.witness_utxo = Some(prev.clone());
    psbt_in.tap_internal_key = Some(*internal);
    psbt_in.tap_scripts.insert(cb.clone(), (script.clone(), LeafVersion::TapScript));
    psbt_in.sighash_type = Some(bitcoin::TapSighashType::Default.into());
}

/// Relies on `Psbt::serialize`: the bytes are a pure function of the value
/// (every map inside is ordered), and the buffer opens with the four magic
/// bytes "psbt" and the separator byte, as the format requires.
#[verifier::external_body]
fn psbt_serialize(p: &Psbt) -> (r: Vec<u8>)
    ensures
        r@ == psbt_rep(*p),
        r@.len() >= 5,
        r@[0] == 0x70u8 && r@[1] == 0x73u8 && r@[2] == 0x62u8 && r@[3] == 0x74u8 && r@[4]
            == 0xffu8,
{
    p.serialize()
}

/// How many inputs get signing data: one per input, as far as previous
/// outputs were supplied.
pub open spec fn fill_count(n_inputs: int, n_prevs: int) -> int {
    if n_inputs <= n_prevs {
        n_inputs
    } else {
        n_prevs
    }
}

/// The partially signed transaction after filling the first `k` inputs in
/// order, each with its previous output and the shared signing data.
pub open spec fn psbt_filled_upto(
    p0: Psbt,
    prevs: Seq<TxOut>,
    k: int,
    internal: XOnlyPublicKey,
    script: ScriptBuf,
    cb: ControlBlock,
) -> Psbt
    decreases k,
{
    if k <= 0 {
        p0
    } else {
        psbt_filled(
            psbt_filled_upto(p0, prevs, k - 1, internal, script, cb),
            k - 1,
            prevs[k - 1],
            internal,
            script,
            cb,
        )
    }
}

/// The value the single mint output pays: the amount less the fee, refused
/// outright when the fee exceeds the amount — unsigned arithmetic must
/// never wrap here.
pub fn output_value(amount: u64, fee: u64) -> (r: Result<u64, Error>)
    ensures
        match r {
            Ok(v) => fee <= amount && v == amount - fee,
            Err(e) => e == Error::ArithmeticUnderflow && fee > amount,
        },
{
    if fee <= amount {
        Ok(amount - fee)
    } else {
        Err(Error::ArithmeticUnderflow)
    }
}

/// What the mint path serializes on success: the fresh partially signed
/// wrapper of the transaction paying `value` to the destination's script
/// from the given inputs, with the first `fill_count` inputs annotated with
/// their previous output, the identity key, and the spending script's
/// control block under the commitment to the payload.
pub open spec fn mint_result_psbt(
    key: Seq<u8>,
    payload: Seq<u8>,
    value: u64,
    dest: Seq<char>,
    inputs: Seq<TxIn>,
    prevs: Seq<TxOut>,
) -> Psbt {
    psbt_filled_upto(
        psbt_of(tx_of(inputs, seq![txout_of(value, addr_script_of(dest))])),
        prevs,
        fill_count(inputs.len() as int, prevs.len() as int),
        xkey_of(nums_key_bytes()),
        script_of(spend_script_bytes(key)),
        cb_of(committed_spend_info(key, payload), spend_script_bytes(key)),
    )
}

/// Builds the serialized partially-signed mint transaction.  The first and
/// only output pays `amount - fee` to the destination; every input is
/// annotated with its previous output, the identity key, the spending
/// script with its proof path, and the default sighash mode.  The checks
/// run in a fixed order: fee against amount, then the key, then the
/// commitment tree, then the destination, then the inputs.  The serialized
/// result is pinned as a function of the arguments alone, so identical
/// calls yield byte-identical buffers.
pub fn mint(
    pubkey_hex: &str,
    payload_bytes: Vec<u8>,
    amount: u64,
    destination_address: String,
    fee: u64,
    inputs: Vec<TxIn>,
    prev_txouts: Vec<TxOut>,
) -> (r: Result<Vec<u8>, Error>)
    requires
        payload_bytes@.len() + 32 <= usize::MAX,
    ensures
        match r {
            Ok(v) => {
                &&& fee <= amount
                &&& hex64_ok(pubkey_hex.spec_bytes())
                &&& is_curve_x(hex_decode32(pubkey_hex.spec_bytes()))
                &&& nums_exists()
                &&& chunk_count(payload_bytes@.len() as int) <= TREE_DEPTH_MAX
                &&& mainnet_addr_ok(destination_address@)
                &&& (forall|i: int|
                    0 <= i < inputs@.len() ==> #[trigger] txin_unsigned(inputs@[i]))
                &&& ({
                    let key = hex_decode32(pubkey_hex.spec_bytes());
                    let value = (amount - fee) as u64;
                    let out = txout_of(value, addr_script_of(destination_address@));
                    let tx = tx_of(inputs@, seq![out]);
                    let filled = mint_result_psbt(
                        key,
                        payload_bytes@,
                        value,
                        destination_address@,
                        inputs@,
                        prev_txouts@,
                    );
                    &&& txout_value(out) == amount - fee
                    &&& txout_script(out) == addr_script_of(destination_address@)
                    &&& tx_inputs(tx) == inputs@
                    &&& tx_outputs(tx) == seq![out]
                    &&& tx_version(tx) == 2
                    &&& tx_lock_time(tx) == 0
                    &&& psbt_tx(filled) == tx
                    &&& (forall|i: int|
                        0 <= i < fill_count(inputs@.len() as int, prev_txouts@.len() as int)
                            ==> psbt_in_filled_with(
                            filled,
                            i,
                            #[trigger] prev_txouts@[i],
                            xkey_of(nums_key_bytes()),
                            spend_script_bytes(key),
                            cb_of(committed_spend_info(key, payload_bytes@), spend_script_bytes(key)),
                        ))
                    &&& v@ == psbt_rep(filled)
                })
            },
            Err(Error::ArithmeticUnderflow) => fee > amount,
            Err(Error::InvalidKeyEncoding) => {
                &&& fee <= amount
                &&& (!hex64_ok(pubkey_hex.spec_bytes()) || !is_curve_x(
                    hex_decode32(pubkey_hex.spec_bytes()),
                ))
            },
            Err(Error::TreeCombineError) => {
                &&& fee <= amount
                &&& hex64_ok(pubkey_hex.spec_bytes())
                &&& is_curve_x(hex_decode32(pubkey_hex.spec_bytes()))
                &&& (!nums_exists() || chunk_count(payload_bytes@.len() as int) > TREE_DEPTH_MAX)
            },
            Err(Error::AddressParseFailure) => {
                &&& fee <= amount
                &&& hex64_ok(pubkey_hex.spec_bytes())
                &&& is_curve_x(hex_decode32(pubkey_hex.spec_bytes()))
                &&& !mainnet_addr_ok(destination_address@)
            },
            Err(Error::SerializationFailure) => {
                &&& fee <= amount
                &&& !(forall|i: int|
                    0 <= i < inputs@.len() ==> #[trigger] txin_unsigned(inputs@[i]))
            },
            Err(_) => false,
        },
{
    let value = output_value(amount, fee)?;
    let kb = decode_pubkey_hex(pubkey_hex)?;
    let pubkey = xonly_from_bytes(&kb)?;
    let taproot_spend_info = create_taproot_spend_info(pubkey, payload_bytes)?;
    let spk = resolve_mainnet_address(destination_address.as_str())?;
    let mut tx_outs: Vec<TxOut> = Vec::new();
    tx_outs.push(build_txout(value, spk));
    let n_inputs = inputs.len();
    let ghost inputs0 = inputs@;
    let unsigned_tx = build_transaction(inputs, tx_outs);
    let mut psbt = psbt_from_unsigned(unsigned_tx)?;
    let ghost p0 = psbt;
    let script = spend_script(pubkey);
    let nums = crate::commit::labitbu_nums()?;
    let ctrl_block = match control_block_for(&taproot_spend_info, &script) {
        Some(cb) => cb,
        None => {
            proof {
                assert(false);
            }
            return Err(Error::TreeCombineError);
        },
    };
    let k = if n_inputs <= prev_txouts.len() {
        n_inputs
    } else {
        prev_txouts.len()
    };
    proof {
        assert(k == fill_count(inputs0.len() as int, prev_txouts@.len() as int));
    }
    let mut i: usize = 0;
    while i < k
        invariant
            psbt_input_count(psbt) == n_inputs,
            k <= n_inputs,
            k <= prev_txouts@.len(),
            0 <= i <= k,
            psbt == psbt_filled_upto(p0, prev_txouts@, i as int, nums, script, ctrl_block),
            psbt_tx(psbt) == psbt_tx(p0),
            forall|j: int|
                0 <= j < i ==> psbt_in_filled_with(
                    psbt,
                    j,
                    #[trigger] prev_txouts@[j],
                    nums,
                    script_rep(script),
                    ctrl_block,
                ),
        decreases k - i,
    {
        psbt_fill_input(&mut psbt, i, &prev_txouts[i], &nums, &script, &ctrl_block);
        i = i + 1;
    }
    Ok(psbt_serialize(&psbt))
}

} // verus!
