//! The sender's half of a transfer.
//!
//! Before anything is asked of the statechain entity the sender checks that
//! the coin can be sent and that a further backup still fits above the
//! chain's tip. It then builds the receiver's backup, signs the transfer,
//! and hands the coin over.

use vstd::prelude::*;
use crate::backup::BackupRequest;
use crate::error::{CryptoItem, Entity, Error};
use crate::evidence::{shared_script, spec_shared_script};
use crate::keys::{parse_transfer_address, spec_parse_transfer_address};
use crate::locktime::spec_checked_next_locktime;
use crate::primitives::{
    hex_decode, hex_encode, public_key_bytes, scalar_sum, secret_key_from_wif,
    sha256, spec_hex_decode, spec_hex_encode, spec_public_key_bytes, spec_scalar_sum,
    spec_secret_key_from_wif, spec_txid_bytes, txid_bytes,
};
use crate::receiver::{text_result, transfer_commitment};
use crate::status::{spec_transition, transition, CoinEvent, CoinStatus};
use crate::transfer::{TransferMsg, TransferMsgView};
use crate::tx::{TxOutpoint, TxOutpointView};
use crate::wallet::{
    backup_views, Activity, ActivityAction, ActivityView, BackupTx, Coin, CoinView,
};

verus! {

/// Whether a coin can be sent at chain tip `height`, and the lock time of
/// the backup that the receiver would get: the coin must be confirmed and
/// have a backup, and the next lock time must not lie below the tip.
pub open spec fn spec_check_send(coin: CoinView, height: u32, interval: u32) -> Result<u32, Error> {
    if spec_transition(coin.status, CoinEvent::TransferSent) is None {
        Err(Error::NotFound { entity: Entity::Coin })
    } else {
        match coin.locktime {
            Some(lock) => spec_checked_next_locktime(height, interval, 0, Some(lock)),
            None => Err(Error::NotFound { entity: Entity::BackupTransaction }),
        }
    }
}

/// Checks that `coin` can be sent at chain tip `height`, before any request
/// is made, and gives the lock time of the receiver's backup.
///
/// Fails with `NotFound` where the coin is not confirmed or has no backup,
/// and with `LocktimeExhausted` where the next backup would be locked below
/// the tip.
pub fn check_transfer_send(coin: &Coin, height: u32, interval: u32) -> (lock_time: Result<u32, Error>)
    ensures
        lock_time == spec_check_send(coin@, height, interval),
{
    if transition(coin.status, CoinEvent::TransferSent).is_none() {
        return Err(Error::NotFound { entity: Entity::Coin });
    }
    match coin.locktime {
        Some(lock) => crate::locktime::next_locktime(height, interval, 0, Some(lock)),
        None => Err(Error::NotFound { entity: Entity::BackupTransaction }),
    }
}

/// A confirmed coin whose newest backup is locked at exactly `interval`
/// cannot be sent at any chain tip above zero: its lock times are
/// exhausted.
pub proof fn lemma_send_at_last_interval_exhausted(coin: CoinView, height: u32, interval: u32)
    requires
        coin.status == CoinStatus::Confirmed,
        coin.locktime == Some(interval),
        height > 0,
    ensures
        spec_check_send(coin, height, interval) == Err::<u32, Error>(Error::LocktimeExhausted),
{
}

/// The receiver's key share and authentication key in a transfer address,
/// where both are public keys.
pub open spec fn spec_receiver_keys(address: Seq<char>) -> Result<(Seq<char>, Seq<char>), Error> {
    match spec_parse_transfer_address(address) {
        Some((user, auth)) => if spec_public_key_bytes(user) is Some && spec_public_key_bytes(auth)
            is Some {
            Ok((user, auth))
        } else {
            Err(Error::CryptoInvalid { which: CryptoItem::Address })
        },
        None => Err(Error::CryptoInvalid { which: CryptoItem::Address }),
    }
}

/// Reads the receiver's key share and authentication key from a transfer
/// address.
pub fn receiver_keys(address: &String) -> (keys: Result<(String, String), Error>)
    ensures
        match keys {
            Ok((user, auth)) => spec_receiver_keys(address@) == Ok::<(Seq<char>, Seq<char>), Error>(
                (user@, auth@),
            ),
            Err(e) => spec_receiver_keys(address@) == Err::<(Seq<char>, Seq<char>), Error>(e),
        },
{
    match parse_transfer_address(address) {
        Some((user, auth)) => {
            if public_key_bytes(user.as_str()).is_some() && public_key_bytes(auth.as_str()).is_some() {
                Ok((user, auth))
            } else {
                Err(Error::CryptoInvalid { which: CryptoItem::Address })
            }
        },
        None => Err(Error::CryptoInvalid { which: CryptoItem::Address }),
    }
}

/// What the receiver's backup is built from: the coin's funding outpoint
/// and amount, the lock time rule from the coin's newest backup, and as
/// destination the taproot script of the receiver's key share summed with
/// the entity's.
pub open spec fn spec_transfer_backup(
    coin: CoinView,
    receiver_user_pubkey: Seq<char>,
) -> Result<(TxOutpointView, u64, Seq<u8>), Error> {
    match (coin.utxo_txid, coin.utxo_vout, coin.amount, coin.server_pubkey) {
        (Some(txid), Some(vout), Some(amount), Some(server_pubkey)) => match spec_shared_script(
            receiver_user_pubkey,
            server_pubkey,
        ) {
            Some(script) => Ok((TxOutpointView { txid, vout }, amount, script)),
            None => Err(Error::CryptoInvalid { which: CryptoItem::KeyAggregation }),
        },
        _ => Err(Error::NotFound { entity: Entity::FundingOutput }),
    }
}

/// Puts together the request for the receiver's backup transaction.
pub fn transfer_backup_request(
    coin: &Coin,
    receiver_user_pubkey: &String,
    height: u32,
    interval: u32,
    fee_rate: u32,
) -> (request: Result<BackupRequest, Error>)
    ensures
        match request {
            Ok(r) => spec_transfer_backup(coin@, receiver_user_pubkey@) == Ok::<
                (TxOutpointView, u64, Seq<u8>),
                Error,
            >((r.outpoint@, r.amount, r.destination@)) && r.height == height && r.interval
                == interval && r.initial_locktime == 0 && r.previous_locktime == coin.locktime
                && r.fee_rate == fee_rate,
            Err(e) => spec_transfer_backup(coin@, receiver_user_pubkey@) == Err::<
                (TxOutpointView, u64, Seq<u8>),
                Error,
            >(e),
        },
{
    match (&coin.utxo_txid, coin.utxo_vout, coin.amount, &coin.server_pubkey) {
        (Some(txid), Some(vout), Some(amount), Some(server_pubkey)) => {
            match shared_script(receiver_user_pubkey, server_pubkey) {
                Some(destination) => Ok(
                    BackupRequest {
                        height,
                        interval,
                        initial_locktime: 0,
                        previous_locktime: coin.locktime,
                        outpoint: TxOutpoint { txid: txid.clone(), vout },
                        amount,
                        destination,
                        fee_rate,
                    },
                ),
                None => Err(Error::CryptoInvalid { which: CryptoItem::KeyAggregation }),
            }
        },
        _ => Err(Error::NotFound { entity: Entity::FundingOutput }),
    }
}

/// The digest that the sender signs: of the funding outpoint and the
/// receiver's key share.
pub open spec fn spec_transfer_digest(outpoint: TxOutpointView, receiver_user_pubkey: Seq<char>) -> Result<
    Seq<u8>,
    Error,
> {
    match spec_public_key_bytes(receiver_user_pubkey) {
        Some(key) => match spec_txid_bytes(outpoint.txid) {
            Some(txid) => Ok(
                crate::primitives::spec_sha256(
                    crate::receiver::spec_transfer_commitment(txid, outpoint.vout, key),
                ),
            ),
            None => Err(Error::CryptoInvalid { which: CryptoItem::Txid }),
        },
        None => Err(Error::CryptoInvalid { which: CryptoItem::PublicKey }),
    }
}

/// Computes the digest that the sender signs to authorise a transfer.
pub fn transfer_digest(outpoint: &TxOutpoint, receiver_user_pubkey: &String) -> (digest: Result<
    Vec<u8>,
    Error,
>)
    ensures
        match digest {
            Ok(d) => spec_transfer_digest(outpoint@, receiver_user_pubkey@) == Ok::<Seq<u8>, Error>(
                d@,
            ) && d@.len() == 32,
            Err(e) => spec_transfer_digest(outpoint@, receiver_user_pubkey@) == Err::<
                Seq<u8>,
                Error,
            >(e),
        },
{
    let key = match public_key_bytes(receiver_user_pubkey.as_str()) {
        Some(key) => key,
        None => { return Err(Error::CryptoInvalid { which: CryptoItem::PublicKey }); },
    };
    let txid = match txid_bytes(outpoint.txid.as_str()) {
        Some(txid) => txid,
        None => { return Err(Error::CryptoInvalid { which: CryptoItem::Txid }); },
    };
    let data = transfer_commitment(txid.as_slice(), outpoint.vout, key.as_slice());
    Ok(sha256(data.as_slice()))
}

/// Signs the transfer of the coin at `outpoint` to the receiver's key
/// share, under the sender's own key share, so that the receiver can check
/// it against the key share that the message names.
///
/// Fails as `spec_transfer_digest` does, and with `CryptoInvalid` for the
/// private key exactly where the sender's key share is not in wallet
/// import format; else the signature is made, and it verifies for the
/// transfer's digest under the sender's key share.
pub fn sign_transfer(coin: &Coin, outpoint: &TxOutpoint, receiver_user_pubkey: &String) -> (signature:
    Result<String, Error>)
    ensures
        match spec_transfer_digest(outpoint@, receiver_user_pubkey@) {
            Ok(digest) => match signature {
                Ok(s) => crate::keys::spec_digest_signed_by(coin.user_privkey@, digest, s@),
                Err(e) => crate::primitives::spec_public_key_of(coin.user_privkey@) is None && e
                    == (Error::CryptoInvalid { which: CryptoItem::PrivateKey }),
            },
            Err(e) => signature == Err::<String, Error>(e),
        },
{
    let digest = match transfer_digest(outpoint, receiver_user_pubkey) {
        Ok(digest) => digest,
        Err(error) => { return Err(error); },
    };
    crate::keys::sign_digest(&coin.user_privkey, digest.as_slice())
}

/// The tweak `t1` that the sender puts into the message, in hex: the
/// sender's secret key share plus the scalar `x1` that the entity gave.
pub open spec fn spec_t1(user_privkey: Seq<char>, x1: Seq<char>) -> Result<Seq<char>, Error> {
    match spec_secret_key_from_wif(user_privkey) {
        Some(secret) => match spec_hex_decode(x1) {
            Some(scalar) => match spec_scalar_sum(secret, scalar) {
                Some(sum) => Ok(spec_hex_encode(sum)),
                None => Err(Error::CryptoInvalid { which: CryptoItem::Scalar }),
            },
            None => Err(Error::CryptoInvalid { which: CryptoItem::Scalar }),
        },
        None => Err(Error::CryptoInvalid { which: CryptoItem::PrivateKey }),
    }
}

/// Computes `t1` from the sender's private key share and the entity's
/// scalar `x1`.
pub fn compute_t1(user_privkey: &String, x1: &String) -> (t1: Result<String, Error>)
    ensures
        text_result(t1) == spec_t1(user_privkey@, x1@),
{
    let secret = match secret_key_from_wif(user_privkey.as_str()) {
        Some(secret) => secret,
        None => { return Err(Error::CryptoInvalid { which: CryptoItem::PrivateKey }); },
    };
    let scalar = match hex_decode(x1.as_str()) {
        Some(scalar) => scalar,
        None => { return Err(Error::CryptoInvalid { which: CryptoItem::Scalar }); },
    };
    match scalar_sum(secret.as_slice(), scalar.as_slice()) {
        Some(sum) => Ok(hex_encode(sum.as_slice())),
        None => Err(Error::CryptoInvalid { which: CryptoItem::Scalar }),
    }
}

/// What the sender signs, the receiver accepts: a signature that the
/// sender made for a transfer verifies for the receiver where the message
/// names the public key of the sender's private key share.
pub proof fn lemma_signed_transfer_is_accepted(
    user_privkey: Seq<char>,
    outpoint: TxOutpointView,
    receiver_user_pubkey: Seq<char>,
    message: TransferMsgView,
)
    requires
        spec_transfer_digest(outpoint, receiver_user_pubkey) matches Ok(digest)
            && crate::keys::spec_digest_signed_by(user_privkey, digest, message.transfer_signature),
        crate::primitives::spec_public_key_of(user_privkey) == Some(message.user_public_key),
    ensures
        crate::receiver::spec_verify_transfer_signature(receiver_user_pubkey, outpoint, message)
            == Ok::<bool, Error>(true),
{
}

/// Hands the coin over: with the receiver's backup signed and the
/// transfer signed, the message for the receiver is put together, the
/// coin's lock time moves to that of the new backup and its status to
/// in-transfer, and a record for the activity log comes back with the
/// message.
///
/// A coin that is not confirmed, or has no statecoin or funding outpoint,
/// is left as it is and `NotFound` comes back.
pub fn complete_transfer_send(
    coin: &mut Coin,
    backup_transactions: Vec<BackupTx>,
    new_locktime: u32,
    t1: String,
    transfer_signature: String,
    date: String,
) -> (sent: Result<(TransferMsg, Activity), Error>)
    ensures
        match (
            spec_transition(old(coin).status, CoinEvent::TransferSent),
            old(coin)@.statechain_id,
            old(coin)@.utxo_txid,
            old(coin)@.utxo_vout,
            old(coin)@.amount,
        ) {
            (Some(status), Some(statechain_id), Some(txid), Some(vout), Some(amount)) => {
                &&& sent matches Ok((message, activity))
                &&& message@ == (TransferMsgView {
                    statechain_id,
                    user_public_key: old(coin)@.user_pubkey,
                    t1: t1@,
                    transfer_signature: transfer_signature@,
                    backup_transactions: backup_views(backup_transactions@),
                })
                &&& activity@ == (ActivityView {
                    utxo: txid,
                    vout,
                    amount,
                    action: ActivityAction::Send,
                    date: date@,
                })
                &&& final(coin)@ == (CoinView {
                    status: CoinStatus::InTransfer,
                    locktime: Some(new_locktime),
                    ..old(coin)@
                })
            },
            _ => *final(coin) == *old(coin) && sent matches Err(Error::NotFound { .. }),
        },
{
    let status = match transition(coin.status, CoinEvent::TransferSent) {
        Some(status) => status,
        None => { return Err(Error::NotFound { entity: Entity::Coin }); },
    };
    let (statechain_id, txid, vout, amount) = match (
        &coin.statechain_id,
        &coin.utxo_txid,
        coin.utxo_vout,
        coin.amount,
    ) {
        (Some(statechain_id), Some(txid), Some(vout), Some(amount)) => (
            statechain_id.clone(),
            txid.clone(),
            vout,
            amount,
        ),
        _ => { return Err(Error::NotFound { entity: Entity::Coin }); },
    };
    let message = TransferMsg {
        statechain_id,
        user_public_key: coin.user_pubkey.clone(),
        t1,
        transfer_signature,
        backup_transactions,
    };
    coin.status = status;
    coin.locktime = Some(new_locktime);
    Ok((message, Activity { utxo: txid, vout, amount, action: ActivityAction::Send, date }))
}

} // verus!
