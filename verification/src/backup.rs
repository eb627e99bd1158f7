//! Building a coin's next backup transaction.
//!
//! A backup spends the funding outpoint by the key path to one output, is
//! locked `interval` blocks before its predecessor, and pays a fee at the
//! current rate. What the co-signer sees of it is blinded.

use vstd::prelude::*;
use crate::error::{CryptoItem, Error};
use crate::evidence::spec_transaction_of;
use crate::fee::{spec_fee, spec_fee_within_tolerance};
use crate::locktime::{next_locktime, spec_checked_next_locktime};
use crate::primitives::{
    address_script, hex_encode, lemma_hex_round_trip, serialize_transaction, sha256,
    spec_address_script,
    spec_decode_transaction, spec_hex_encode, spec_same_transaction, spec_serialize_transaction,
    spec_sha256, spec_taproot_sighash, spec_txid_bytes, taproot_sighash,
};
use crate::tx::{
    Network, Tx, TxInput, TxInputView, TxOutpoint, TxOutpointView, TxOutput, TxOutputView, TxView,
};

verus! {

/// The virtual size of a signed backup transaction: one taproot key-path
/// input with its signature, one taproot output.
pub const BACKUP_TX_VSIZE: u64 = 111;

/// The version of the transactions that the wallet builds.
pub const TX_VERSION: i32 = 2;

/// The sequence number of the one input of a transaction that the wallet
/// builds: the highest that still lets the lock time bind.
pub const LOCKTIME_SEQUENCE: u32 = 0xFFFF_FFFE;

/// The transaction that spends output `vout` of `txid` to one output of
/// `value` satoshis locked by `script`, locked until `lock_time`, with the
/// given witness: one input with an empty signature script and a sequence
/// number that lets the lock time bind, and one output.
pub open spec fn spec_spend(
    txid: Seq<char>,
    vout: u32,
    value: u64,
    script: Seq<u8>,
    lock_time: u32,
    witness: Seq<Seq<u8>>,
) -> TxView {
    TxView {
        version: TX_VERSION,
        inputs: seq![
            TxInputView {
                txid,
                vout,
                script_sig: Seq::empty(),
                sequence: LOCKTIME_SEQUENCE,
                witness,
            },
        ],
        outputs: seq![TxOutputView { value, script_pubkey: script }],
        lock_time,
    }
}

/// The views of a witness stack.
pub open spec fn witness_view(witness: Seq<Vec<u8>>) -> Seq<Seq<u8>> {
    Seq::new(witness.len(), |j: int| witness[j]@)
}

/// Builds the transaction that spends one output to one output.
pub fn spend(
    txid: &str,
    vout: u32,
    value: u64,
    script: &[u8],
    lock_time: u32,
    witness: Vec<Vec<u8>>,
) -> (tx: Tx)
    ensures
        tx@ == spec_spend(txid@, vout, value, script@, lock_time, witness_view(witness@)),
{
    let ghost stack = witness_view(witness@);
    let mut inputs: Vec<TxInput> = Vec::new();
    inputs.push(
        TxInput {
            txid: txid.to_owned(),
            vout,
            script_sig: Vec::new(),
            sequence: LOCKTIME_SEQUENCE,
            witness,
        },
    );
    let mut outputs: Vec<TxOutput> = Vec::new();
    outputs.push(TxOutput { value, script_pubkey: vstd::slice::slice_to_vec(script) });
    let tx = Tx { version: TX_VERSION, inputs, outputs, lock_time };
    proof {
        let expected = spec_spend(txid@, vout, value, script@, lock_time, stack);
        assert(tx.inputs@[0]@.witness =~= stack);
        assert(tx@.inputs =~= expected.inputs);
        assert(tx@.outputs =~= expected.outputs);
    }
    tx
}

/// The encoding of the unsigned transaction that spends output `vout` of
/// `txid` to one output; `None` where `txid` is no transaction id.
pub open spec fn spec_encode_transaction(
    txid: Seq<char>,
    vout: u32,
    value: u64,
    script: Seq<u8>,
    lock_time: u32,
) -> Option<Seq<u8>> {
    spec_serialize_transaction(spec_spend(txid, vout, value, script, lock_time, Seq::empty()))
}

/// Encodes the unsigned transaction that spends one output to one output.
/// What is encoded decodes to that transaction again.
pub fn encode_transaction(txid: &str, vout: u32, value: u64, script: &[u8], lock_time: u32) -> (raw:
    Option<Vec<u8>>)
    ensures
        raw is Some <==> spec_txid_bytes(txid@) is Some,
        raw matches Some(r) ==> spec_encode_transaction(txid@, vout, value, script@, lock_time)
            == Some(r@) && spec_same_transaction(
            spec_spend(txid@, vout, value, script@, lock_time, Seq::empty()),
            spec_decode_transaction(r@),
        ),
        raw is None ==> spec_encode_transaction(txid@, vout, value, script@, lock_time) is None,
{
    let tx = spend(txid, vout, value, script, lock_time, Vec::new());
    assert(witness_view(Seq::<Vec<u8>>::empty()) =~= Seq::<Seq<u8>>::empty());
    assert(tx@.inputs[0].txid == txid@);
    serialize_transaction(&tx)
}

/// The signed transaction in hex: the transaction that spends one output
/// to one output, with `signature` as the whole witness of its input.
pub open spec fn spec_signed_spend(
    txid: Seq<char>,
    vout: u32,
    value: u64,
    script: Seq<u8>,
    lock_time: u32,
    signature: Seq<u8>,
) -> Option<Seq<char>> {
    match spec_serialize_transaction(
        spec_spend(txid, vout, value, script, lock_time, seq![signature]),
    ) {
        Some(raw) => Some(spec_hex_encode(raw)),
        None => None,
    }
}

/// Puts a signature into the transaction that spends one output to one
/// output, and gives the signed transaction in hex. With a signature of a
/// key-path spend, what is given decodes to that transaction again.
pub fn signed_spend(
    txid: &str,
    vout: u32,
    value: u64,
    script: &[u8],
    lock_time: u32,
    signature: Vec<u8>,
) -> (signed: Option<String>)
    ensures
        signed is Some <==> spec_txid_bytes(txid@) is Some,
        crate::wallet::opt_text(signed) == spec_signed_spend(
            txid@,
            vout,
            value,
            script@,
            lock_time,
            signature@,
        ),
        signed matches Some(s) ==> (signature@.len() <= 65 ==> spec_same_transaction(
            spec_spend(txid@, vout, value, script@, lock_time, seq![signature@]),
            spec_transaction_of(s@),
        )),
{
    let ghost given = signature@;
    let mut witness: Vec<Vec<u8>> = Vec::new();
    witness.push(signature);
    assert(witness_view(witness@) =~= seq![given]);
    let tx = spend(txid, vout, value, script, lock_time, witness);
    assert(tx@.inputs[0].txid == txid@);
    match serialize_transaction(&tx) {
        Some(raw) => {
            proof {
                lemma_hex_round_trip(raw@);
            }
            Some(hex_encode(raw.as_slice()))
        },
        None => None,
    }
}

/// The hash that the signature of a transaction covers, where the
/// transaction's only input spends an output of `value` satoshis locked by
/// `script` by the key path.
pub fn key_spend_sighash(raw: &[u8], value: u64, script: &[u8]) -> (hash: Option<Vec<u8>>)
    ensures
        match hash {
            Some(h) => spec_taproot_sighash(raw@, value, script@) == Some(h@) && h@.len() == 32,
            None => spec_taproot_sighash(raw@, value, script@) is None,
        },
{
    taproot_sighash(raw, value, script)
}

/// The lock time and the output value of a coin's next backup: the lock
/// time as the interval rule gives it, the value as the funded amount less
/// the fee at `fee_rate` for `vsize` virtual bytes. A fee that leaves
/// nothing is refused.
pub open spec fn spec_backup_terms(
    height: u32,
    interval: u32,
    initial_locktime: u32,
    previous: Option<u32>,
    amount: u64,
    fee_rate: u32,
    vsize: u64,
) -> Result<(u32, u64), Error> {
    match spec_checked_next_locktime(height, interval, initial_locktime, previous) {
        Ok(lock_time) => if spec_fee(fee_rate as int, vsize as int) < amount {
            Ok((lock_time, (amount - spec_fee(fee_rate as int, vsize as int)) as u64))
        } else {
            Err(Error::InsufficientValue)
        },
        Err(error) => Err(error),
    }
}

/// Decides the lock time and the output value of a coin's next backup.
pub fn backup_terms(
    height: u32,
    interval: u32,
    initial_locktime: u32,
    previous: Option<u32>,
    amount: u64,
    fee_rate: u32,
    vsize: u64,
) -> (terms: Result<(u32, u64), Error>)
    requires
        previous is None ==> height + initial_locktime <= u32::MAX,
    ensures
        terms == spec_backup_terms(
            height,
            interval,
            initial_locktime,
            previous,
            amount,
            fee_rate,
            vsize,
        ),
{
    let lock_time = match next_locktime(height, interval, initial_locktime, previous) {
        Ok(lock_time) => lock_time,
        Err(error) => { return Err(error); },
    };
    assert((fee_rate as u128) * (vsize as u128) <= 0x1_0000_0000 * 0x1_0000_0000_0000_0000)
        by (nonlinear_arith)
        requires
            fee_rate <= 0x1_0000_0000,
            vsize <= 0x1_0000_0000_0000_0000,
    ;
    let fee: u128 = (fee_rate as u128) * (vsize as u128);
    if fee < amount as u128 {
        Ok((lock_time, (amount as u128 - fee) as u64))
    } else {
        Err(Error::InsufficientValue)
    }
}

/// The fee of a backup built on these terms is exactly the fee at the rate
/// it was built for, and so within any tolerance of it; and where the
/// backup has a predecessor, it is locked at least `interval` blocks
/// before it.
pub proof fn lemma_backup_terms_sound(
    height: u32,
    interval: u32,
    initial_locktime: u32,
    previous: Option<u32>,
    amount: u64,
    fee_rate: u32,
    vsize: u64,
    tolerance: u32,
)
    requires
        previous is None ==> height + initial_locktime <= u32::MAX,
        spec_backup_terms(height, interval, initial_locktime, previous, amount, fee_rate, vsize)
            is Ok,
    ensures
        ({
            let terms = spec_backup_terms(
                height,
                interval,
                initial_locktime,
                previous,
                amount,
                fee_rate,
                vsize,
            ).unwrap();
            &&& terms.1 <= amount
            &&& spec_fee_within_tolerance(
                amount - terms.1,
                fee_rate as int,
                tolerance as int,
                vsize as int,
            )
            &&& terms.0 >= height
            &&& previous matches Some(lock) ==> lock - terms.0 >= interval
        }),
{
    let low = crate::fee::spec_lowest_rate(fee_rate as int, tolerance as int);
    assert(low * vsize <= fee_rate * vsize) by (nonlinear_arith)
        requires
            0 <= low <= fee_rate,
            0 <= vsize,
    ;
    assert(fee_rate * vsize <= (fee_rate + tolerance) * vsize) by (nonlinear_arith)
        requires
            0 <= tolerance,
            0 <= fee_rate,
            0 <= vsize,
    ;
    assert(fee_rate * vsize >= 0) by (nonlinear_arith)
        requires
            0 <= fee_rate,
            0 <= vsize,
    ;
}

/// An unsigned backup transaction.
#[derive(Clone, Debug, PartialEq, Eq)]
pub struct UnsignedBackup {
    /// The encoded transaction.
    pub raw: Vec<u8>,
    pub lock_time: u32,
    /// What the one output pays, in satoshis.
    pub value: u64,
}

/// What a backup transaction is built from.
#[derive(Clone, Debug, PartialEq, Eq)]
pub struct BackupRequest {
    /// The height of the chain's tip.
    pub height: u32,
    pub interval: u32,
    /// How far above the tip a coin's first backup is locked.
    pub initial_locktime: u32,
    /// The lock time of the coin's newest backup, if it has one.
    pub previous_locktime: Option<u32>,
    /// The outpoint that funds the coin.
    pub outpoint: TxOutpoint,
    /// The funded amount in satoshis.
    pub amount: u64,
    /// The script that the backup pays to.
    pub destination: Vec<u8>,
    /// The fee rate in satoshis per virtual byte.
    pub fee_rate: u32,
}

/// The next backup of a coin: built on `spec_backup_terms` for a
/// transaction of `BACKUP_TX_VSIZE` virtual bytes, spending the funding
/// outpoint and paying to the destination script.
pub open spec fn spec_new_backup(
    height: u32,
    interval: u32,
    initial_locktime: u32,
    previous: Option<u32>,
    outpoint: TxOutpointView,
    amount: u64,
    destination: Seq<u8>,
    fee_rate: u32,
) -> Result<(Seq<u8>, u32, u64), Error> {
    match spec_backup_terms(
        height,
        interval,
        initial_locktime,
        previous,
        amount,
        fee_rate,
        BACKUP_TX_VSIZE,
    ) {
        Ok((lock_time, value)) => match spec_encode_transaction(
            outpoint.txid,
            outpoint.vout,
            value,
            destination,
            lock_time,
        ) {
            Some(raw) => Ok((raw, lock_time, value)),
            None => Err(Error::CryptoInvalid { which: CryptoItem::Txid }),
        },
        Err(error) => Err(error),
    }
}

/// The view of a result that holds an unsigned backup.
pub open spec fn backup_result(result: Result<UnsignedBackup, Error>) -> Result<
    (Seq<u8>, u32, u64),
    Error,
> {
    match result {
        Ok(backup) => Ok((backup.raw@, backup.lock_time, backup.value)),
        Err(error) => Err(error),
    }
}

/// Builds the unsigned next backup transaction of a coin.
///
/// Fails with `LocktimeExhausted` where the lock time would lie below the
/// chain's tip, with `InsufficientValue` where the fee leaves nothing, and
/// with `CryptoInvalid` where the funding outpoint names no transaction.
/// What is built decodes to one input that spends the funding outpoint and
/// lets the lock time bind, and one output that pays to the destination.
pub fn new_backup_transaction(request: &BackupRequest) -> (backup: Result<UnsignedBackup, Error>)
    requires
        request.previous_locktime is None ==> request.height + request.initial_locktime
            <= u32::MAX,
    ensures
        backup matches Ok(built) ==> spec_same_transaction(
            spec_spend(
                request.outpoint@.txid,
                request.outpoint.vout,
                built.value,
                request.destination@,
                built.lock_time,
                Seq::empty(),
            ),
            spec_decode_transaction(built.raw@),
        ),
        backup_result(backup) == spec_new_backup(
            request.height,
            request.interval,
            request.initial_locktime,
            request.previous_locktime,
            request.outpoint@,
            request.amount,
            request.destination@,
            request.fee_rate,
        ),
{
    let (lock_time, value) = match backup_terms(
        request.height,
        request.interval,
        request.initial_locktime,
        request.previous_locktime,
        request.amount,
        request.fee_rate,
        BACKUP_TX_VSIZE,
    ) {
        Ok(terms) => terms,
        Err(error) => { return Err(error); },
    };
    match encode_transaction(
        request.outpoint.txid.as_str(),
        request.outpoint.vout,
        value,
        request.destination.as_slice(),
        lock_time,
    ) {
        Some(raw) => Ok(UnsignedBackup { raw, lock_time, value }),
        None => Err(Error::CryptoInvalid { which: CryptoItem::Txid }),
    }
}

/// The script of the address `address` on `network`, or `CryptoInvalid` for
/// the address.
pub fn destination_script(address: &String, network: Network) -> (script: Result<Vec<u8>, Error>)
    ensures
        match script {
            Ok(s) => spec_address_script(address@, network) == Some(s@),
            Err(e) => spec_address_script(address@, network) is None && e == (Error::CryptoInvalid {
                which: CryptoItem::Address,
            }),
        },
{
    match address_script(address.as_str(), network) {
        Some(script) => Ok(script),
        None => Err(Error::CryptoInvalid { which: CryptoItem::Address }),
    }
}

/// What the co-signer is given to sign: the digest of the signature hash
/// followed by the blinding factor.
pub open spec fn spec_blinded_message(sighash: Seq<u8>, blinding_factor: Seq<u8>) -> Seq<u8> {
    spec_sha256(sighash + blinding_factor)
}

/// Blinds a signature hash with a blinding factor.
pub fn blinded_message(sighash: &[u8], blinding_factor: &[u8]) -> (message: Vec<u8>)
    ensures
        message@ == spec_blinded_message(sighash@, blinding_factor@),
        message@.len() == 32,
{
    let mut data: Vec<u8> = Vec::new();
    data.extend_from_slice(sighash);
    data.extend_from_slice(blinding_factor);
    assert(data@ =~= sighash@ + blinding_factor@);
    sha256(data.as_slice())
}

/// The row that is stored for a signed backup transaction: its number, the
/// signed transaction in hex, the nonces and key shares that signed it,
/// the blinding factor in hex, and the statecoin it belongs to.
pub open spec fn spec_backup_row(
    signed: Seq<char>,
    tx_n: u32,
    client_public_nonce: Seq<char>,
    server_public_nonce: Seq<char>,
    client_public_key: Seq<char>,
    server_public_key: Seq<char>,
    blinding_factor: Seq<u8>,
    statechain_id: Seq<char>,
) -> crate::wallet::BackupTxView {
    crate::wallet::BackupTxView {
        tx_n,
        tx: signed,
        client_public_nonce,
        server_public_nonce,
        client_public_key,
        server_public_key,
        blinding_factor: spec_hex_encode(blinding_factor),
        statechain_id,
    }
}

/// Puts the co-signed signature into a built backup transaction and makes
/// the row to store for it; the stored transaction decodes to the backup
/// as it was built, with the signature as its witness. There is no row
/// where the funding outpoint names no transaction.
pub fn backup_row(
    request: &BackupRequest,
    built: &UnsignedBackup,
    signature: Vec<u8>,
    tx_n: u32,
    client_public_nonce: String,
    server_public_nonce: String,
    client_public_key: String,
    server_public_key: String,
    blinding_factor: &[u8],
    statechain_id: String,
) -> (row: Option<crate::wallet::BackupTx>)
    ensures
        match spec_signed_spend(
            request.outpoint@.txid,
            request.outpoint.vout,
            built.value,
            request.destination@,
            built.lock_time,
            signature@,
        ) {
            Some(signed) => row matches Some(r) && r@ == spec_backup_row(
                signed,
                tx_n,
                client_public_nonce@,
                server_public_nonce@,
                client_public_key@,
                server_public_key@,
                blinding_factor@,
                statechain_id@,
            ),
            None => row is None,
        },
        row matches Some(r) ==> (signature@.len() <= 65 ==> spec_same_transaction(
            spec_spend(
                request.outpoint@.txid,
                request.outpoint.vout,
                built.value,
                request.destination@,
                built.lock_time,
                seq![signature@],
            ),
            spec_transaction_of(r.tx@),
        )),
{
    match signed_spend(
        request.outpoint.txid.as_str(),
        request.outpoint.vout,
        built.value,
        request.destination.as_slice(),
        built.lock_time,
        signature,
    ) {
        Some(tx) => Some(
            crate::wallet::BackupTx {
                tx_n,
                tx,
                client_public_nonce,
                server_public_nonce,
                client_public_key,
                server_public_key,
                blinding_factor: hex_encode(blinding_factor),
                statechain_id,
            },
        ),
        None => None,
    }
}

} // verus!
