//! Establishes what the validator reads about a received chain of backup
//! transactions: decodes them, measures them, verifies their signatures and
//! derives the scripts they are compared with.

use vstd::prelude::*;
use crate::error::Error;
use crate::primitives::{
    combine_public_keys, decode_transaction, hex_decode, hex_encode, p2tr_script, schnorr_verify,
    sha256, spec_combine_public_keys, spec_decode_transaction, spec_hex_decode, spec_hex_encode,
    spec_p2tr_script, spec_schnorr_verify, spec_sha256, spec_taproot_sighash,
    spec_transaction_vsize, taproot_sighash, transaction_vsize,
};
use crate::transfer::{StatechainInfo, StatechainInfoView, TransferMsg, TransferMsgView};
use crate::tx::{
    is_p2tr, p2tr_output_key, spec_is_p2tr, spec_p2tr_output_key, Tx, TxOutpoint, TxOutpointView,
    TxOutput, TxOutputView, TxView,
};
use crate::validator::{
    opt_bytes, spec_validate, validate_evidence, BackupEvidence, BackupEvidenceView, ChainEvidence,
    ChainEvidenceView,
};
use crate::wallet::{BackupTx, BackupTxView};

verus! {

/// The view of an optional transaction.
pub open spec fn opt_tx(tx: Option<Tx>) -> Option<TxView> {
    match tx {
        Some(t) => Some(t@),
        None => None,
    }
}

/// The view of an optional output.
pub open spec fn opt_output(output: Option<TxOutput>) -> Option<TxOutputView> {
    match output {
        Some(o) => Some(o@),
        None => None,
    }
}

/// The transaction that the hex text `text` encodes.
pub open spec fn spec_transaction_of(text: Seq<char>) -> Option<TxView> {
    match spec_hex_decode(text) {
        Some(raw) => spec_decode_transaction(raw),
        None => None,
    }
}

/// The virtual size of the transaction that the hex text `text` encodes, or
/// zero where it encodes none.
pub open spec fn spec_vsize_of(text: Seq<char>) -> u64 {
    match spec_hex_decode(text) {
        Some(raw) => match spec_transaction_vsize(raw) {
            Some(vsize) => vsize,
            None => 0,
        },
        None => 0,
    }
}

/// Output number `vout` of the transaction that `text` encodes in hex.
pub open spec fn spec_output_of(text: Seq<char>, vout: u32) -> Option<TxOutputView> {
    match spec_transaction_of(text) {
        Some(tx) => if vout < tx.outputs.len() {
            Some(tx.outputs[vout as int])
        } else {
            None
        },
        None => None,
    }
}

/// Whether the transaction that `text` encodes in hex spends `funding` by
/// the key path: `funding` is a taproot output, the transaction has one
/// input whose witness is one signature of 64 bytes, and that signature
/// verifies for the transaction's signature hash under the output key.
pub open spec fn spec_signature_covers(text: Seq<char>, funding: Option<TxOutputView>) -> bool {
    &&& spec_hex_decode(text) matches Some(raw)
    &&& spec_decode_transaction(raw) matches Some(tx)
    &&& funding matches Some(spent)
    &&& spec_is_p2tr(spent.script_pubkey)
    &&& tx.inputs.len() == 1
    &&& tx.inputs[0].witness.len() == 1
    &&& tx.inputs[0].witness[0].len() == 64
    &&& spec_taproot_sighash(raw, spent.value, spent.script_pubkey) matches Some(hash)
    &&& spec_schnorr_verify(
        tx.inputs[0].witness[0],
        hash,
        spec_p2tr_output_key(spent.script_pubkey),
    )
}

/// The commitment to the blinding factor that `text` gives in hex: the
/// digest of its 32 bytes, in lower-case hex.
pub open spec fn spec_commitment_of(text: Seq<char>) -> Option<Seq<char>> {
    match spec_hex_decode(text) {
        Some(factor) => if factor.len() == 32 {
            Some(spec_hex_encode(spec_sha256(factor)))
        } else {
            None
        },
        None => None,
    }
}

/// Whether `text` gives a public nonce: 66 bytes in hex.
pub open spec fn spec_is_nonce(text: Seq<char>) -> bool {
    spec_hex_decode(text) matches Some(nonce) && nonce.len() == 66
}

/// The taproot script, with no script path, of the sum of two public keys
/// given in hex.
pub open spec fn spec_shared_script(first: Seq<char>, second: Seq<char>) -> Option<Seq<u8>> {
    match spec_combine_public_keys(first, second) {
        Some(sum) => spec_p2tr_script(sum),
        None => None,
    }
}

/// What is established about one backup transaction of the statecoin
/// `statechain_id` whose funding output is `funding`.
pub open spec fn spec_backup_evidence(
    backup: BackupTxView,
    statechain_id: Seq<char>,
    funding: Option<TxOutputView>,
) -> BackupEvidenceView {
    BackupEvidenceView {
        tx_n: backup.tx_n,
        belongs: backup.statechain_id == statechain_id,
        tx: spec_transaction_of(backup.tx),
        vsize: spec_vsize_of(backup.tx),
        signature_valid: spec_signature_covers(backup.tx, funding),
        commitment: spec_commitment_of(backup.blinding_factor),
        nonces_well_formed: spec_is_nonce(backup.client_public_nonce) && spec_is_nonce(
            backup.server_public_nonce,
        ),
        key_script: spec_shared_script(backup.client_public_key, backup.server_public_key),
    }
}

/// What is established about the chain of backup transactions of a transfer
/// message, for a receiver whose key share is `new_user_pubkey`, given the
/// funding transaction in hex.
pub open spec fn spec_chain_evidence(
    message: TransferMsgView,
    info: StatechainInfoView,
    tx0_hex: Seq<char>,
    outpoint: TxOutpointView,
    new_user_pubkey: Seq<char>,
) -> ChainEvidenceView {
    let funding = spec_output_of(tx0_hex, outpoint.vout);
    ChainEvidenceView {
        backups: Seq::new(
            message.backup_transactions.len(),
            |i: int|
                spec_backup_evidence(message.backup_transactions[i], message.statechain_id, funding),
        ),
        outpoint,
        funding,
        destination_script: spec_shared_script(new_user_pubkey, info.enclave_public_key),
        owner_script: spec_shared_script(message.user_public_key, info.enclave_public_key),
    }
}

/// Decodes the transaction that `text` gives in hex.
pub fn transaction_of(text: &String) -> (tx: Option<Tx>)
    ensures
        opt_tx(tx) == spec_transaction_of(text@),
{
    match hex_decode(text.as_str()) {
        Some(raw) => decode_transaction(raw.as_slice()),
        None => None,
    }
}

/// Output number `vout` of the transaction that `text` gives in hex.
pub fn output_of(text: &String, vout: u32) -> (output: Option<TxOutput>)
    ensures
        opt_output(output) == spec_output_of(text@, vout),
{
    match transaction_of(text) {
        Some(tx) => {
            if (vout as usize) < tx.outputs.len() {
                let found = &tx.outputs[vout as usize];
                Some(TxOutput { value: found.value, script_pubkey: found.script_pubkey.clone() })
            } else {
                None
            }
        },
        None => None,
    }
}

fn vsize_of(text: &String) -> (vsize: u64)
    ensures
        vsize == spec_vsize_of(text@),
{
    match hex_decode(text.as_str()) {
        Some(raw) => match transaction_vsize(raw.as_slice()) {
            Some(vsize) => vsize,
            None => 0,
        },
        None => 0,
    }
}

fn signature_covers(text: &String, funding: &Option<TxOutput>) -> (valid: bool)
    ensures
        valid == spec_signature_covers(text@, opt_output(*funding)),
{
    let raw = match hex_decode(text.as_str()) {
        Some(raw) => raw,
        None => { return false; },
    };
    let tx = match decode_transaction(raw.as_slice()) {
        Some(tx) => tx,
        None => { return false; },
    };
    let spent = match funding {
        Some(spent) => spent,
        None => { return false; },
    };
    if !is_p2tr(spent.script_pubkey.as_slice()) || tx.inputs.len() != 1 {
        return false;
    }
    if tx.inputs[0].witness.len() != 1 || tx.inputs[0].witness[0].len() != 64 {
        return false;
    }
    let hash = match taproot_sighash(raw.as_slice(), spent.value, spent.script_pubkey.as_slice()) {
        Some(hash) => hash,
        None => { return false; },
    };
    let key = p2tr_output_key(spent.script_pubkey.as_slice());
    schnorr_verify(tx.inputs[0].witness[0].as_slice(), hash.as_slice(), key.as_slice())
}

fn commitment_of(text: &String) -> (commitment: Option<String>)
    ensures
        crate::wallet::opt_text(commitment) == spec_commitment_of(text@),
{
    match hex_decode(text.as_str()) {
        Some(factor) => {
            if factor.len() == 32 {
                let digest = sha256(factor.as_slice());
                Some(hex_encode(digest.as_slice()))
            } else {
                None
            }
        },
        None => None,
    }
}

fn is_nonce(text: &String) -> (yes: bool)
    ensures
        yes == spec_is_nonce(text@),
{
    match hex_decode(text.as_str()) {
        Some(nonce) => nonce.len() == 66,
        None => false,
    }
}

/// The taproot script of the sum of two public keys given in hex.
pub fn shared_script(first: &String, second: &String) -> (script: Option<Vec<u8>>)
    ensures
        opt_bytes(script) == spec_shared_script(first@, second@),
{
    match combine_public_keys(first.as_str(), second.as_str()) {
        Some(sum) => p2tr_script(sum.as_str()),
        None => None,
    }
}

/// Establishes what the validator reads about one backup transaction.
pub fn backup_evidence(backup: &BackupTx, statechain_id: &String, funding: &Option<TxOutput>) -> (evidence:
    BackupEvidence)
    ensures
        evidence@ == spec_backup_evidence(backup@, statechain_id@, opt_output(*funding)),
{
    BackupEvidence {
        tx_n: backup.tx_n,
        belongs: backup.statechain_id == *statechain_id,
        tx: transaction_of(&backup.tx),
        vsize: vsize_of(&backup.tx),
        signature_valid: signature_covers(&backup.tx, funding),
        commitment: commitment_of(&backup.blinding_factor),
        nonces_well_formed: is_nonce(&backup.client_public_nonce) && is_nonce(
            &backup.server_public_nonce,
        ),
        key_script: shared_script(&backup.client_public_key, &backup.server_public_key),
    }
}

/// Establishes what the validator reads about the chain of a transfer
/// message, given the funding transaction in hex, the funding outpoint and
/// the receiver's key share.
pub fn gather_evidence(
    message: &TransferMsg,
    info: &StatechainInfo,
    tx0_hex: &String,
    outpoint: &TxOutpoint,
    new_user_pubkey: &String,
) -> (evidence: ChainEvidence)
    ensures
        evidence@ == spec_chain_evidence(message@, info@, tx0_hex@, outpoint@, new_user_pubkey@),
{
    let funding = output_of(tx0_hex, outpoint.vout);
    let mut backups: Vec<BackupEvidence> = Vec::new();
    let mut i: usize = 0;
    while i < message.backup_transactions.len()
        invariant
            0 <= i <= message.backup_transactions@.len(),
            backups@.len() == i,
            opt_output(funding) == spec_output_of(tx0_hex@, outpoint.vout),
            forall|j: int|
                0 <= j < i ==> (#[trigger] backups@[j])@ == spec_backup_evidence(
                    message.backup_transactions@[j]@,
                    message.statechain_id@,
                    opt_output(funding),
                ),
        decreases message.backup_transactions@.len() - i,
    {
        let one = backup_evidence(&message.backup_transactions[i], &message.statechain_id, &funding);
        backups.push(one);
        i = i + 1;
    }
    let evidence = ChainEvidence {
        backups,
        outpoint: outpoint.duplicate(),
        funding,
        destination_script: shared_script(new_user_pubkey, &info.enclave_public_key),
        owner_script: shared_script(&message.user_public_key, &info.enclave_public_key),
    };
    proof {
        let expected = spec_chain_evidence(
            message@,
            info@,
            tx0_hex@,
            outpoint@,
            new_user_pubkey@,
        );
        assert(evidence@.backups =~= expected.backups);
    }
    evidence
}

/// In a transfer message that validates, the key shares recorded with
/// every backup transaction sum to a key whose taproot script locks the
/// funding output, and so do the message's key share and the entity's.
pub proof fn lemma_validated_shares_lock_funding(
    message: TransferMsgView,
    info: StatechainInfoView,
    tx0_hex: Seq<char>,
    outpoint: TxOutpointView,
    new_user_pubkey: Seq<char>,
    tolerance: u32,
    position: int,
)
    requires
        spec_validate(
            spec_chain_evidence(message, info, tx0_hex, outpoint, new_user_pubkey),
            info,
            tolerance,
        ) is Ok,
        0 <= position < message.backup_transactions.len(),
    ensures
        spec_output_of(tx0_hex, outpoint.vout) matches Some(funding) && spec_shared_script(
            message.backup_transactions[position].client_public_key,
            message.backup_transactions[position].server_public_key,
        ) == Some(funding.script_pubkey) && spec_shared_script(
            message.user_public_key,
            info.enclave_public_key,
        ) == Some(funding.script_pubkey),
{
    let evidence = spec_chain_evidence(message, info, tx0_hex, outpoint, new_user_pubkey);
    assert(crate::validator::spec_funding_ok(evidence));
    assert(evidence.backups[position].key_script == Some(
        evidence.funding.unwrap().script_pubkey,
    ));
}

/// In a transfer message that validates, the lock times of consecutive
/// backup transactions fall by at least the interval, and the lock time
/// that validation gives is that of the last.
pub proof fn lemma_validated_message_locktimes_fall(
    message: TransferMsgView,
    info: StatechainInfoView,
    tx0_hex: Seq<char>,
    outpoint: TxOutpointView,
    new_user_pubkey: Seq<char>,
    tolerance: u32,
    position: int,
)
    requires
        spec_validate(
            spec_chain_evidence(message, info, tx0_hex, outpoint, new_user_pubkey),
            info,
            tolerance,
        ) is Ok,
        0 <= position < message.backup_transactions.len() - 1,
    ensures
        spec_transaction_of(message.backup_transactions[position].tx) matches Some(earlier)
            && spec_transaction_of(message.backup_transactions[position + 1].tx) matches Some(
            later,
        ) && earlier.lock_time - later.lock_time >= info.interval,
{
    let evidence = spec_chain_evidence(message, info, tx0_hex, outpoint, new_user_pubkey);
    assert(crate::validator::spec_shape_ok(evidence, info));
    assert(crate::validator::spec_backup_shape_ok(
        evidence.backups[position],
        position,
        evidence.outpoint,
    ));
    assert(crate::validator::spec_backup_shape_ok(
        evidence.backups[position + 1],
        position + 1,
        evidence.outpoint,
    ));
    assert(crate::validator::spec_locktimes_ok(evidence, info.interval));
    assert(crate::validator::spec_lock(evidence, position) - crate::validator::spec_lock(
        evidence,
        position + 1,
    ) >= info.interval);
}

/// Validates the chain of backup transactions of a transfer message against
/// the statechain entity's record: shape, amounts, lock times, destination,
/// signatures and funding key, in that order.
///
/// Gives the lock time of the newest backup, or `ChainValidationFailed` with
/// the first check that failed.
pub fn validate_signature_scheme(
    transfer_msg: &TransferMsg,
    statechain_info: &StatechainInfo,
    tx0_hex: &String,
    tx0_outpoint: &TxOutpoint,
    new_user_pubkey: &String,
    fee_rate_tolerance: u32,
) -> (result: Result<u32, Error>)
    ensures
        result == spec_validate(
            spec_chain_evidence(
                transfer_msg@,
                statechain_info@,
                tx0_hex@,
                tx0_outpoint@,
                new_user_pubkey@,
            ),
            statechain_info@,
            fee_rate_tolerance,
        ),
{
    let evidence = gather_evidence(
        transfer_msg,
        statechain_info,
        tx0_hex,
        tx0_outpoint,
        new_user_pubkey,
    );
    validate_evidence(&evidence, statechain_info, fee_rate_tolerance)
}

} // verus!
