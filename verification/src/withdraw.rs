//! Withdrawing a coin: a last backup transaction that pays to an address of
//! the owner's choice, and the coin's way out of the wallet.

use vstd::prelude::*;
use crate::backup::{
    backup_result, destination_script, new_backup_transaction, spec_new_backup, BackupRequest,
    UnsignedBackup,
};
use crate::broadcast_backup_tx::{latest_backup, spec_latest_backup};
use crate::error::{CryptoItem, Entity, Error};
use crate::primitives::spec_address_script;
use crate::status::{spec_transition, transition, CoinEvent, CoinStatus};
use crate::tx::{Network, TxOutpoint, TxOutpointView};
use crate::wallet::{
    backup_views, Activity, ActivityAction, ActivityView, BackupTx, BackupTxView, Coin, CoinView,
};

verus! {

/// What a withdrawal needs to know of a coin.
#[derive(Clone, Debug, PartialEq, Eq)]
pub struct CoinKeyDetails {
    /// The number that the coin's next backup transaction takes.
    pub new_tx_n: u32,
    pub client_seckey: String,
    pub client_pubkey: String,
    pub amount: u64,
    pub server_pubkey: String,
    pub aggregated_pubkey: String,
    pub p2tr_agg_address: String,
    pub auth_seckey: String,
    pub signed_statechain_id: String,
    pub utxo_tx_hash: String,
    pub utxo_vout: u32,
    /// The lock time of the coin's newest backup transaction.
    pub locktime: Option<u32>,
}

/// The number of a coin's next backup transaction: one above the highest
/// so far, one for the first; none where the numbers have run out.
pub open spec fn spec_new_tx_n(backups: Seq<BackupTxView>) -> Option<u32> {
    if backups.len() == 0 {
        Some(1u32)
    } else if backups[spec_latest_backup(backups)].tx_n < u32::MAX {
        Some((backups[spec_latest_backup(backups)].tx_n + 1) as u32)
    } else {
        None
    }
}

/// The number that the next backup transaction of a coin takes.
pub fn new_tx_n(backups: &Vec<BackupTx>) -> (number: Option<u32>)
    ensures
        number == spec_new_tx_n(backup_views(backups@)),
{
    if backups.len() == 0 {
        return Some(1);
    }
    let newest = backups[latest_backup(backups)].tx_n;
    if newest < u32::MAX {
        Some(newest + 1)
    } else {
        None
    }
}

/// Whether a coin is complete: every field that a deposit or a transfer
/// fills in is there.
pub open spec fn spec_is_complete(coin: CoinView) -> bool {
    &&& coin.amount is Some
    &&& coin.server_pubkey is Some
    &&& coin.aggregated_pubkey is Some
    &&& coin.aggregated_address is Some
    &&& coin.signed_statechain_id is Some
    &&& coin.utxo_txid is Some
    &&& coin.utxo_vout is Some
}

/// Gathers what a withdrawal needs to know of `coin`, whose backup
/// transactions so far are `backups`.
///
/// Fails with `NotFound` for the coin where the coin is not complete, and
/// for the backup transaction where their numbers have run out.
pub fn coin_key_details(coin: &Coin, backups: &Vec<BackupTx>) -> (details: Result<
    CoinKeyDetails,
    Error,
>)
    ensures
        match details {
            Ok(d) => {
                &&& spec_is_complete(coin@)
                &&& spec_new_tx_n(backup_views(backups@)) == Some(d.new_tx_n)
                &&& d.client_seckey@ == coin@.user_privkey
                &&& d.client_pubkey@ == coin@.user_pubkey
                &&& d.auth_seckey@ == coin@.auth_privkey
                &&& Some(d.amount) == coin@.amount
                &&& Some(d.server_pubkey@) == coin@.server_pubkey
                &&& Some(d.aggregated_pubkey@) == coin@.aggregated_pubkey
                &&& Some(d.p2tr_agg_address@) == coin@.aggregated_address
                &&& Some(d.signed_statechain_id@) == coin@.signed_statechain_id
                &&& Some(d.utxo_tx_hash@) == coin@.utxo_txid
                &&& Some(d.utxo_vout) == coin@.utxo_vout
                &&& d.locktime == coin@.locktime
            },
            Err(e) => if spec_is_complete(coin@) {
                spec_new_tx_n(backup_views(backups@)) is None && e == (Error::NotFound {
                    entity: Entity::BackupTransaction,
                })
            } else {
                e == (Error::NotFound { entity: Entity::Coin })
            },
        },
{
    match (
        coin.amount,
        &coin.server_pubkey,
        &coin.aggregated_pubkey,
        &coin.aggregated_address,
        &coin.signed_statechain_id,
        &coin.utxo_txid,
        coin.utxo_vout,
    ) {
        (
            Some(amount),
            Some(server_pubkey),
            Some(aggregated_pubkey),
            Some(aggregated_address),
            Some(signed_statechain_id),
            Some(utxo_txid),
            Some(utxo_vout),
        ) => {
            let number = match new_tx_n(backups) {
                Some(number) => number,
                None => { return Err(Error::NotFound { entity: Entity::BackupTransaction }); },
            };
            Ok(
                CoinKeyDetails {
                    new_tx_n: number,
                    client_seckey: coin.user_privkey.clone(),
                    client_pubkey: coin.user_pubkey.clone(),
                    amount,
                    server_pubkey: server_pubkey.clone(),
                    aggregated_pubkey: aggregated_pubkey.clone(),
                    p2tr_agg_address: aggregated_address.clone(),
                    auth_seckey: coin.auth_privkey.clone(),
                    signed_statechain_id: signed_statechain_id.clone(),
                    utxo_tx_hash: utxo_txid.clone(),
                    utxo_vout,
                    locktime: coin.locktime,
                },
            )
        },
        _ => Err(Error::NotFound { entity: Entity::Coin }),
    }
}

/// The backup transaction that withdraws a coin to `to_address`: built as
/// every backup is, from the coin's funding outpoint and amount and the
/// lock time of its newest backup, paying to the script of the address.
pub open spec fn spec_withdrawal(
    details: CoinKeyDetails,
    to_address: Seq<char>,
    height: u32,
    interval: u32,
    initial_locktime: u32,
    fee_rate: u32,
    network: Network,
) -> Result<(Seq<u8>, u32, u64), Error> {
    match spec_address_script(to_address, network) {
        Some(script) => spec_new_backup(
            height,
            interval,
            initial_locktime,
            details.locktime,
            TxOutpointView { txid: details.utxo_tx_hash@, vout: details.utxo_vout },
            details.amount,
            script,
            fee_rate,
        ),
        None => Err(Error::CryptoInvalid { which: CryptoItem::Address }),
    }
}

/// Builds the unsigned backup transaction that withdraws a coin to
/// `to_address` at chain tip `block_height`.
pub fn execute(
    details: &CoinKeyDetails,
    to_address: &String,
    block_height: u32,
    interval: u32,
    initial_locktime: u32,
    fee_rate: u32,
    network: Network,
) -> (backup: Result<UnsignedBackup, Error>)
    requires
        details.locktime is None ==> block_height + initial_locktime <= u32::MAX,
    ensures
        backup_result(backup) == spec_withdrawal(
            *details,
            to_address@,
            block_height,
            interval,
            initial_locktime,
            fee_rate,
            network,
        ),
{
    let destination = match destination_script(to_address, network) {
        Ok(destination) => destination,
        Err(error) => { return Err(error); },
    };
    let request = BackupRequest {
        height: block_height,
        interval,
        initial_locktime,
        previous_locktime: details.locktime,
        outpoint: TxOutpoint { txid: details.utxo_tx_hash.clone(), vout: details.utxo_vout },
        amount: details.amount,
        destination,
        fee_rate,
    };
    new_backup_transaction(&request)
}

/// Moves a coin by one event of its lifecycle. Where the lifecycle does
/// not allow the event in the coin's state, the coin is left as it is.
pub fn apply_event(coin: &mut Coin, event: CoinEvent) -> (moved: bool)
    ensures
        match spec_transition(old(coin).status, event) {
            Some(status) => moved && final(coin)@ == (CoinView { status, ..old(coin)@ }),
            None => !moved && *final(coin) == *old(coin),
        },
{
    match transition(coin.status, event) {
        Some(status) => {
            coin.status = status;
            true
        },
        None => false,
    }
}

/// Ends a withdrawal once its transaction has been seen on the network:
/// the coin leaves the wallet's active coins and a record for the activity
/// log comes back.
///
/// A coin that is not withdrawing, or has no funding outpoint or amount,
/// is left as it is and `NotFound` comes back.
pub fn finish_withdraw(coin: &mut Coin, date: String) -> (activity: Result<Activity, Error>)
    ensures
        match (
            spec_transition(old(coin).status, CoinEvent::BroadcastSeen),
            old(coin)@.utxo_txid,
            old(coin)@.utxo_vout,
            old(coin)@.amount,
        ) {
            (Some(status), Some(txid), Some(vout), Some(amount)) => {
                &&& status == CoinStatus::Withdrawn
                &&& activity matches Ok(record)
                &&& record@ == (ActivityView {
                    utxo: txid,
                    vout,
                    amount,
                    action: ActivityAction::Withdraw,
                    date: date@,
                })
                &&& final(coin)@ == (CoinView { status, ..old(coin)@ })
            },
            _ => *final(coin) == *old(coin) && activity == Err::<Activity, Error>(
                Error::NotFound { entity: Entity::Coin },
            ),
        },
{
    let status = match transition(coin.status, CoinEvent::BroadcastSeen) {
        Some(status) => status,
        None => { return Err(Error::NotFound { entity: Entity::Coin }); },
    };
    match (&coin.utxo_txid, coin.utxo_vout, coin.amount) {
        (Some(txid), Some(vout), Some(amount)) => {
            let record = Activity {
                utxo: txid.clone(),
                vout,
                amount,
                action: ActivityAction::Withdraw,
                date,
            };
            coin.status = status;
            Ok(record)
        },
        _ => Err(Error::NotFound { entity: Entity::Coin }),
    }
}

} // verus!
