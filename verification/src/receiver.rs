//! The receiver's half of a transfer: opening the message, finding the
//! funding outpoint, and checking the sender's signature.

use vstd::prelude::*;
use vstd::bytes::{spec_u32_to_le_bytes, u32_to_le_bytes};
use crate::error::{CryptoItem, Entity, Error, ValidationStep};
use crate::evidence::{spec_transaction_of, transaction_of};
use crate::primitives::{
    ecies_decrypt, hex_decode, public_key_bytes, schnorr_verify, secret_key_from_wif, sha256,
    signature_bytes, spec_hex_decode, spec_public_key_bytes, spec_schnorr_verify,
    spec_secret_key_from_wif, spec_sha256, spec_signature_bytes, spec_txid_bytes,
    spec_x_only_public_key, string_from_utf8, txid_bytes, x_only_public_key,
};
use crate::transfer::{TransferMsg, TransferMsgView};
use crate::tx::{Tx, TxOutpoint, TxOutpointView, TxView};
use crate::wallet::{backup_views, BackupTx, BackupTxView};

verus! {

/// What a receiver posts to the statechain entity to take a coin.
#[derive(Clone, Debug, PartialEq, Eq)]
pub struct TransferReceiverRequestPayload {
    pub statechain_id: String,
    pub batch_data: Option<String>,
    pub t2: String,
    pub auth_sig: String,
}

/// What the statechain entity keeps of a key update.
#[derive(Clone, Debug, PartialEq, Eq)]
pub struct KeyUpdateResponsePayload {
    pub statechain_id: String,
    pub t2: String,
    pub x1: String,
}

/// The encrypted transfer messages that wait for one authentication key.
#[derive(Clone, Debug, PartialEq, Eq)]
pub struct GetMsgAddrResponsePayload {
    pub list_enc_transfer_msg: Vec<String>,
}

/// What a receiver posts to release a coin from a batch.
#[derive(Clone, Debug, PartialEq, Eq)]
pub struct TransferUnlockRequestPayload {
    pub statechain_id: String,
    pub auth_sig: String,
    pub auth_pub_key: Option<String>,
}

/// The text of a decrypted transfer message: the characters that the
/// plaintext encodes, or `CryptoInvalid` for the ciphertext where decryption
/// gave nothing or something that is not UTF-8.
pub open spec fn spec_message_text(plaintext: Option<Seq<u8>>) -> Result<Seq<char>, Error> {
    match plaintext {
        Some(bytes) => if vstd::utf8::valid_utf8(bytes) {
            Ok(vstd::utf8::decode_utf8(bytes))
        } else {
            Err(Error::CryptoInvalid { which: CryptoItem::Ciphertext })
        },
        None => Err(Error::CryptoInvalid { which: CryptoItem::Ciphertext }),
    }
}

/// The view of a result that holds text.
pub open spec fn text_result(result: Result<String, Error>) -> Result<Seq<char>, Error> {
    match result {
        Ok(text) => Ok(text@),
        Err(error) => Err(error),
    }
}

/// Reads what decryption gave as the text of a transfer message.
pub fn message_text(plaintext: Option<Vec<u8>>) -> (text: Result<String, Error>)
    ensures
        text_result(text) == spec_message_text(crate::validator::opt_bytes(plaintext)),
{
    match plaintext {
        Some(bytes) => match string_from_utf8(bytes) {
            Some(text) => Ok(text),
            None => Err(Error::CryptoInvalid { which: CryptoItem::Ciphertext }),
        },
        None => Err(Error::CryptoInvalid { which: CryptoItem::Ciphertext }),
    }
}

/// What is handed to decryption: the secret key that `private_key_wif`
/// holds and the bytes that `encrypted_message` gives in hex.
pub open spec fn spec_decryption_input(encrypted_message: Seq<char>, private_key_wif: Seq<char>) -> Result<
    (Seq<u8>, Seq<u8>),
    Error,
> {
    match spec_secret_key_from_wif(private_key_wif) {
        Some(key) => match spec_hex_decode(encrypted_message) {
            Some(ciphertext) => Ok((key, ciphertext)),
            None => Err(Error::CryptoInvalid { which: CryptoItem::Ciphertext }),
        },
        None => Err(Error::CryptoInvalid { which: CryptoItem::PrivateKey }),
    }
}

/// Makes what is handed to decryption.
pub fn decryption_input(encrypted_message: &str, private_key_wif: &str) -> (input: Result<
    (Vec<u8>, Vec<u8>),
    Error,
>)
    ensures
        match input {
            Ok((key, ciphertext)) => spec_decryption_input(encrypted_message@, private_key_wif@)
                == Ok::<(Seq<u8>, Seq<u8>), Error>((key@, ciphertext@)),
            Err(e) => spec_decryption_input(encrypted_message@, private_key_wif@) == Err::<
                (Seq<u8>, Seq<u8>),
                Error,
            >(e),
        },
{
    let key = match secret_key_from_wif(private_key_wif) {
        Some(key) => key,
        None => { return Err(Error::CryptoInvalid { which: CryptoItem::PrivateKey }); },
    };
    match hex_decode(encrypted_message) {
        Some(ciphertext) => Ok((key, ciphertext)),
        None => Err(Error::CryptoInvalid { which: CryptoItem::Ciphertext }),
    }
}

/// Opens an encrypted transfer message, given in hex, with the private key
/// `private_key_wif`, and gives its text: `decryption_input` makes what is
/// decrypted, and `message_text` reads what decryption gives.
///
/// Fails with `CryptoInvalid` for the private key where it is not in wallet
/// import format, and for the ciphertext where that is not hex, does not
/// decrypt, or decrypts to something that is not UTF-8.
pub fn decrypt_transfer_msg(encrypted_message: &str, private_key_wif: &str) -> (text: Result<
    String,
    Error,
>)
    ensures
        match spec_decryption_input(encrypted_message@, private_key_wif@) {
            Ok(_) => exists|plaintext: Option<Seq<u8>>|
                text_result(text) == #[trigger] spec_message_text(plaintext),
            Err(e) => text == Err::<String, Error>(e),
        },
{
    let (key, ciphertext) = match decryption_input(encrypted_message, private_key_wif) {
        Ok(input) => input,
        Err(error) => { return Err(error); },
    };
    let plaintext = ecies_decrypt(key.as_slice(), ciphertext.as_slice());
    let ghost given = crate::validator::opt_bytes(plaintext);
    let text = message_text(plaintext);
    assert(text_result(text) == spec_message_text(given));
    text
}

/// The position of the backup that comes first when a list is put in the
/// order of its numbers: the earliest of those with the lowest number.
pub open spec fn spec_first_backup(backups: Seq<BackupTxView>) -> int
    decreases backups.len(),
{
    if backups.len() <= 1 {
        0
    } else {
        let before = spec_first_backup(backups.drop_last());
        if backups.last().tx_n < backups[before].tx_n {
            backups.len() - 1
        } else {
            before
        }
    }
}

/// `spec_first_backup` gives a position in the list whose number none
/// undercuts and none before it equals.
pub proof fn lemma_first_backup_is_least(backups: Seq<BackupTxView>)
    requires
        backups.len() > 0,
    ensures
        0 <= spec_first_backup(backups) < backups.len(),
        forall|j: int|
            0 <= j < backups.len() ==> backups[spec_first_backup(backups)].tx_n <= (
            #[trigger] backups[j]).tx_n,
        forall|j: int|
            0 <= j < spec_first_backup(backups) ==> backups[spec_first_backup(backups)].tx_n < (
            #[trigger] backups[j]).tx_n,
    decreases backups.len(),
{
    if backups.len() > 1 {
        let shorter = backups.drop_last();
        lemma_first_backup_is_least(shorter);
        let before = spec_first_backup(shorter);
        assert(forall|j: int| 0 <= j < shorter.len() ==> shorter[j] == backups[j]);
        assert forall|j: int| 0 <= j < backups.len() implies backups[spec_first_backup(
            backups,
        )].tx_n <= (#[trigger] backups[j]).tx_n by {
            if j < shorter.len() {
                assert(shorter[j] == backups[j]);
            }
        }
        assert forall|j: int| 0 <= j < spec_first_backup(backups) implies backups[spec_first_backup(
            backups,
        )].tx_n < (#[trigger] backups[j]).tx_n by {
            assert(shorter[j] == backups[j]);
        }
    }
}

/// The position of the first backup in the order of the numbers.
pub fn first_backup(backups: &Vec<BackupTx>) -> (position: usize)
    requires
        backups@.len() > 0,
    ensures
        position == spec_first_backup(backup_views(backups@)),
        position < backups@.len(),
{
    let mut best: usize = 0;
    let mut i: usize = 1;
    assert(backup_views(backups@).take(1).len() == 1);
    while i < backups.len()
        invariant
            1 <= i <= backups@.len(),
            best < i,
            best == spec_first_backup(backup_views(backups@).take(i as int)),
        decreases backups@.len() - i,
    {
        proof {
            let views = backup_views(backups@);
            assert(views.take(i + 1).drop_last() =~= views.take(i as int));
            assert(views.take(i + 1).last() == backups@[i as int]@);
            assert(views.take(i + 1)[best as int] == backups@[best as int]@);
        }
        if backups[i].tx_n < backups[best].tx_n {
            best = i;
        }
        i = i + 1;
    }
    assert(backup_views(backups@).take(i as int) =~= backup_views(backups@));
    best
}

/// The outpoint that a first backup transaction spends: that of its only
/// input. A transaction that does not have exactly one input and exactly
/// one output is refused.
pub open spec fn spec_spent_outpoint(tx: TxView) -> Result<TxOutpointView, Error> {
    if tx.inputs.len() == 1 && tx.outputs.len() == 1 {
        Ok(TxOutpointView { txid: tx.inputs[0].txid, vout: tx.inputs[0].vout })
    } else {
        Err(Error::ChainValidationFailed { step: ValidationStep::Shape })
    }
}

/// The view of a result that holds an outpoint.
pub open spec fn outpoint_result(result: Result<TxOutpoint, Error>) -> Result<TxOutpointView, Error> {
    match result {
        Ok(outpoint) => Ok(outpoint@),
        Err(error) => Err(error),
    }
}

/// The outpoint that the first backup transaction `tx` spends.
pub fn spent_outpoint(tx: &Tx) -> (outpoint: Result<TxOutpoint, Error>)
    ensures
        outpoint_result(outpoint) == spec_spent_outpoint(tx@),
{
    if tx.inputs.len() == 1 && tx.outputs.len() == 1 {
        Ok(TxOutpoint { txid: tx.inputs[0].txid.clone(), vout: tx.inputs[0].vout })
    } else {
        Err(Error::ChainValidationFailed { step: ValidationStep::Shape })
    }
}

/// The funding outpoint of a chain of backup transactions: what the backup
/// with the lowest number spends.
pub open spec fn spec_tx0_outpoint(backups: Seq<BackupTxView>) -> Result<TxOutpointView, Error> {
    if backups.len() == 0 {
        Err(Error::NotFound { entity: Entity::BackupTransaction })
    } else {
        match spec_transaction_of(backups[spec_first_backup(backups)].tx) {
            Some(tx) => spec_spent_outpoint(tx),
            None => Err(Error::ChainValidationFailed { step: ValidationStep::Shape }),
        }
    }
}

/// The outpoint that funds a coin, read from its backup transactions.
///
/// Fails with `NotFound` where there is no backup transaction, and with
/// `ChainValidationFailed` at the shape check where the first one does not
/// decode or does not have exactly one input and exactly one output.
pub fn get_tx0_outpoint(backup_transactions: &Vec<BackupTx>) -> (outpoint: Result<TxOutpoint, Error>)
    ensures
        outpoint_result(outpoint) == spec_tx0_outpoint(backup_views(backup_transactions@)),
{
    if backup_transactions.len() == 0 {
        return Err(Error::NotFound { entity: Entity::BackupTransaction });
    }
    let first = first_backup(backup_transactions);
    match transaction_of(&backup_transactions[first].tx) {
        Some(tx) => spent_outpoint(&tx),
        None => Err(Error::ChainValidationFailed { step: ValidationStep::Shape }),
    }
}

/// What a sender signs to authorise a transfer: the funding transaction's
/// id, the funding output's position in little-endian bytes, and the
/// receiver's public key.
pub open spec fn spec_transfer_commitment(txid: Seq<u8>, vout: u32, receiver_key: Seq<u8>) -> Seq<u8> {
    txid + spec_u32_to_le_bytes(vout) + receiver_key
}

/// The bytes that a sender signs to authorise a transfer.
pub fn transfer_commitment(txid: &[u8], vout: u32, receiver_key: &[u8]) -> (data: Vec<u8>)
    ensures
        data@ == spec_transfer_commitment(txid@, vout, receiver_key@),
{
    let mut data: Vec<u8> = Vec::new();
    data.extend_from_slice(txid);
    let position = u32_to_le_bytes(vout);
    data.extend_from_slice(position.as_slice());
    data.extend_from_slice(receiver_key);
    assert(data@ =~= spec_transfer_commitment(txid@, vout, receiver_key@));
    data
}

/// Whether the transfer signature of `message` is the sender's signature of
/// the funding outpoint and the receiver's key; an error where a key, the
/// transaction id or the signature is malformed.
pub open spec fn spec_verify_transfer_signature(
    new_user_pubkey: Seq<char>,
    outpoint: TxOutpointView,
    message: TransferMsgView,
) -> Result<bool, Error> {
    match (
        spec_public_key_bytes(new_user_pubkey),
        spec_x_only_public_key(message.user_public_key),
    ) {
        (Some(receiver_key), Some(sender_key)) => match spec_txid_bytes(outpoint.txid) {
            Some(txid) => match spec_signature_bytes(message.transfer_signature) {
                Some(signature) => Ok(
                    spec_schnorr_verify(
                        signature,
                        spec_sha256(spec_transfer_commitment(txid, outpoint.vout, receiver_key)),
                        sender_key,
                    ),
                ),
                None => Err(Error::CryptoInvalid { which: CryptoItem::Signature }),
            },
            None => Err(Error::CryptoInvalid { which: CryptoItem::Txid }),
        },
        _ => Err(Error::CryptoInvalid { which: CryptoItem::PublicKey }),
    }
}

/// Checks that the sender of `transfer_msg` signed the funding outpoint
/// together with the receiver's key share `new_user_pubkey`.
pub fn verify_transfer_signature(
    new_user_pubkey: &str,
    tx0_outpoint: &TxOutpoint,
    transfer_msg: &TransferMsg,
) -> (valid: Result<bool, Error>)
    ensures
        valid == spec_verify_transfer_signature(new_user_pubkey@, tx0_outpoint@, transfer_msg@),
{
    let receiver_key = match public_key_bytes(new_user_pubkey) {
        Some(key) => key,
        None => { return Err(Error::CryptoInvalid { which: CryptoItem::PublicKey }); },
    };
    let sender_key = match x_only_public_key(transfer_msg.user_public_key.as_str()) {
        Some(key) => key,
        None => { return Err(Error::CryptoInvalid { which: CryptoItem::PublicKey }); },
    };
    let txid = match txid_bytes(tx0_outpoint.txid.as_str()) {
        Some(txid) => txid,
        None => { return Err(Error::CryptoInvalid { which: CryptoItem::Txid }); },
    };
    let signature = match signature_bytes(transfer_msg.transfer_signature.as_str()) {
        Some(signature) => signature,
        None => { return Err(Error::CryptoInvalid { which: CryptoItem::Signature }); },
    };
    let data = transfer_commitment(txid.as_slice(), tx0_outpoint.vout, receiver_key.as_slice());
    let digest = sha256(data.as_slice());
    Ok(schnorr_verify(signature.as_slice(), digest.as_slice(), sender_key.as_slice()))
}

} // verus!
