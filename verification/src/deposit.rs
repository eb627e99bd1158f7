//! Depositing into a new statecoin.
//!
//! A deposit asks the statechain entity for its key share, waits for the
//! funding output to appear at the aggregate address, and then has the
//! coin's first backup transaction made.

use vstd::prelude::*;
use crate::backup::{destination_script, BackupRequest};
use crate::broadcast_backup_tx::{latest_backup, spec_latest_backup};
use crate::error::{CryptoItem, Entity, Error, ValidationStep};
use crate::indexer::{
    confirmations, find_funding, spec_confirmations, spec_find_funding, unspent_views,
    UnspentOutput, UnspentOutputView,
};
use crate::install::spec_signing_failed;
use crate::keys::sign_message;
use crate::primitives::{
    combine_public_keys, hex_decode, hex_encode, p2tr_address, spec_address_script,
    spec_combine_public_keys, spec_hex_decode, spec_hex_encode, spec_p2tr_address,
    spec_x_only_public_key, x_only_public_key,
};
use crate::status::{spec_transition, transition, CoinEvent, CoinStatus};
use crate::tx::{Network, TxOutpoint, TxOutpointView};
use crate::wallet::{
    backup_views, Activity, ActivityAction, ActivityView, BackupTx, BackupTxView, Coin, CoinView,
};

verus! {

/// What a depositor posts to the statechain entity to open a statecoin.
#[derive(Clone, Debug, PartialEq, Eq)]
pub struct DepositRequestPayload {
    pub amount: u64,
    /// The depositor's authentication key in x-only form, in hex.
    pub auth_key: String,
    pub token_id: String,
    /// A signature of the token id under the authentication key.
    pub signed_token_id: String,
}

/// Builds the request that opens a statecoin of `amount` satoshis for
/// `coin`, paid for with the token `token_id`.
///
/// Fails with `CryptoInvalid` for the public key where the coin's
/// authentication key is none, and for the private key where the coin's
/// private authentication key is not in wallet import format.
pub fn init(coin: &Coin, token_id: &String, amount: u64) -> (payload: Result<
    DepositRequestPayload,
    Error,
>)
    ensures
        match spec_x_only_public_key(coin.auth_pubkey@) {
            Some(key) => match payload {
                Ok(p) => p.amount == amount && p.auth_key@ == spec_hex_encode(key) && p.token_id@
                    == token_id@ && crate::keys::spec_signed_by(
                    coin.auth_privkey@,
                    token_id@,
                    p.signed_token_id@,
                ),
                Err(e) => spec_signing_failed(coin.auth_privkey@, e),
            },
            None => payload == Err::<DepositRequestPayload, Error>(
                Error::CryptoInvalid { which: CryptoItem::PublicKey },
            ),
        },
{
    let key = match x_only_public_key(coin.auth_pubkey.as_str()) {
        Some(key) => key,
        None => { return Err(Error::CryptoInvalid { which: CryptoItem::PublicKey }); },
    };
    let signed_token_id = match sign_message(token_id, coin) {
        Ok(signature) => signature,
        Err(error) => { return Err(error); },
    };
    Ok(
        DepositRequestPayload {
            amount,
            auth_key: hex_encode(key.as_slice()),
            token_id: token_id.clone(),
            signed_token_id,
        },
    )
}

/// The aggregate key of a coin and its address: the sum of the depositor's
/// key share and the entity's, and the taproot address of that sum.
pub open spec fn spec_aggregate(user_pubkey: Seq<char>, server_pubkey: Seq<char>, network: Network) -> Result<
    (Seq<char>, Seq<char>),
    Error,
> {
    match spec_combine_public_keys(user_pubkey, server_pubkey) {
        Some(aggregate) => match spec_p2tr_address(aggregate, network) {
            Some(address) => Ok((aggregate, address)),
            None => Err(Error::CryptoInvalid { which: CryptoItem::KeyAggregation }),
        },
        None => Err(Error::CryptoInvalid { which: CryptoItem::KeyAggregation }),
    }
}

/// Takes the entity's answer to a deposit request into the coin: the
/// statecoin's id, the entity's key share, the aggregate key and its
/// address, the amount to deposit, and a signature of the statecoin's id.
/// The deposit address is the aggregate address.
///
/// Fails as `spec_aggregate` does, and with `CryptoInvalid` for the private
/// key where the coin's authentication key is not in wallet import format.
/// On failure the coin is unchanged.
pub fn complete_init(
    coin: &mut Coin,
    server_pubkey: &String,
    statechain_id: &String,
    amount: u64,
    network: Network,
) -> (address: Result<String, Error>)
    ensures
        match spec_aggregate(old(coin)@.user_pubkey, server_pubkey@, network) {
            Ok((aggregate, aggregate_address)) => match address {
                Ok(a) => {
                    &&& a@ == aggregate_address
                    &&& final(coin)@.signed_statechain_id matches Some(signature)
                    &&& crate::keys::spec_signed_by(
                        old(coin).auth_privkey@,
                        statechain_id@,
                        signature,
                    )
                    &&& final(coin)@ == (CoinView {
                        server_pubkey: Some(server_pubkey@),
                        aggregated_pubkey: Some(aggregate),
                        aggregated_address: Some(aggregate_address),
                        statechain_id: Some(statechain_id@),
                        signed_statechain_id: final(coin)@.signed_statechain_id,
                        amount: Some(amount),
                        ..old(coin)@
                    })
                },
                Err(e) => *final(coin) == *old(coin) && spec_signing_failed(
                    old(coin).auth_privkey@,
                    e,
                ),
            },
            Err(e) => *final(coin) == *old(coin) && address == Err::<String, Error>(e),
        },
{
    let aggregate = match combine_public_keys(coin.user_pubkey.as_str(), server_pubkey.as_str()) {
        Some(aggregate) => aggregate,
        None => { return Err(Error::CryptoInvalid { which: CryptoItem::KeyAggregation }); },
    };
    let address = match p2tr_address(aggregate.as_str(), network) {
        Some(address) => address,
        None => { return Err(Error::CryptoInvalid { which: CryptoItem::KeyAggregation }); },
    };
    let signed_statechain_id = match sign_message(statechain_id, coin) {
        Ok(signature) => signature,
        Err(error) => { return Err(error); },
    };
    coin.server_pubkey = Some(server_pubkey.clone());
    coin.aggregated_pubkey = Some(aggregate);
    coin.aggregated_address = Some(address.clone());
    coin.statechain_id = Some(statechain_id.clone());
    coin.signed_statechain_id = Some(signed_statechain_id);
    coin.amount = Some(amount);
    Ok(address)
}

/// The status that a funded coin has after `count` confirmations: in the
/// mempool with none, confirmed once they reach `target`, unconfirmed in
/// between.
pub open spec fn spec_funded_status(count: int, target: u32) -> CoinStatus {
    if count == 0 {
        CoinStatus::InMempool
    } else if count >= target {
        CoinStatus::Confirmed
    } else {
        CoinStatus::Unconfirmed
    }
}

/// Walks an initialised coin through the lifecycle as far as `count`
/// confirmations carry it.
fn funded_status(count: u64, target: u32) -> (status: CoinStatus)
    ensures
        status == spec_funded_status(count as int, target),
        spec_reaches_by_funding(status),
{
    let seen = transition(CoinStatus::Initialised, CoinEvent::FundingSeen);
    let mut status = match seen {
        Some(status) => status,
        None => CoinStatus::Initialised,
    };
    if count > 0 {
        status = match transition(status, CoinEvent::TipInclusion) {
            Some(next) => next,
            None => status,
        };
        if count >= target as u64 {
            status = match transition(status, CoinEvent::Confirmations) {
                Some(next) => next,
                None => status,
            };
        }
    }
    status
}

/// Whether the lifecycle leads from initialised to `status` by the events
/// of a funding: seen, included, confirmed.
pub open spec fn spec_reaches_by_funding(status: CoinStatus) -> bool {
    let seen = spec_transition(CoinStatus::Initialised, CoinEvent::FundingSeen);
    let included = spec_transition(seen.unwrap(), CoinEvent::TipInclusion);
    let confirmed = spec_transition(included.unwrap(), CoinEvent::Confirmations);
    Some(status) == seen || Some(status) == included || Some(status) == confirmed
}

/// What the wait for a deposit comes to on one look at the unspent
/// outputs of the deposit address: nothing while none holds exactly the
/// amount to deposit; else the first such output funds the coin.
pub open spec fn spec_funding_of(coin: CoinView, unspent: Seq<UnspentOutputView>) -> Option<int> {
    match coin.amount {
        Some(amount) => if coin.status == CoinStatus::Initialised {
            spec_find_funding(unspent, amount)
        } else {
            None
        },
        None => None,
    }
}

/// Looks at the unspent outputs of the deposit address once. Where one
/// holds exactly the amount to deposit, the coin takes it as its funding
/// outpoint and the status that its confirmations earn, and the outpoint
/// comes back with a record for the activity log. Where none does, or the
/// coin does not wait for a deposit, nothing changes and nothing comes
/// back: look again later.
pub fn execute(
    coin: &mut Coin,
    unspent: &Vec<UnspentOutput>,
    blockheight: u64,
    confirmation_target: u32,
    date: String,
) -> (funded: Option<(TxOutpoint, Activity)>)
    ensures
        match spec_funding_of(old(coin)@, unspent_views(unspent@)) {
            Some(position) => {
                &&& 0 <= position < unspent@.len()
                &&& funded matches Some((outpoint, activity))
                &&& outpoint@ == (TxOutpointView {
                    txid: unspent@[position].tx_hash@,
                    vout: unspent@[position].tx_pos,
                })
                &&& activity@ == (ActivityView {
                    utxo: outpoint@.txid,
                    vout: outpoint@.vout,
                    amount: old(coin).amount.unwrap(),
                    action: ActivityAction::Deposit,
                    date: date@,
                })
                &&& final(coin)@ == (CoinView {
                    utxo_txid: Some(outpoint@.txid),
                    utxo_vout: Some(outpoint@.vout),
                    status: spec_funded_status(
                        spec_confirmations(unspent@[position].height, blockheight),
                        confirmation_target,
                    ),
                    ..old(coin)@
                })
                &&& spec_reaches_by_funding(final(coin).status)
            },
            None => funded is None && *final(coin) == *old(coin),
        },
{
    let amount = match coin.amount {
        Some(amount) => amount,
        None => { return None; },
    };
    match coin.status {
        CoinStatus::Initialised => {},
        _ => { return None; },
    }
    let position = match find_funding(unspent, amount) {
        Some(position) => position,
        None => { return None; },
    };
    let found = &unspent[position];
    let count = confirmations(found.height, blockheight);
    coin.utxo_txid = Some(found.tx_hash.clone());
    coin.utxo_vout = Some(found.tx_pos);
    coin.status = funded_status(count, confirmation_target);
    Some(
        (
            TxOutpoint { txid: found.tx_hash.clone(), vout: found.tx_pos },
            Activity {
                utxo: found.tx_hash.clone(),
                vout: found.tx_pos,
                amount,
                action: ActivityAction::Deposit,
                date,
            },
        ),
    )
}

/// The request for a funded coin's first backup transaction, which pays to
/// the coin's backup address and is locked `initial_locktime` blocks above
/// the chain's tip.
///
/// Fails with `NotFound` where the coin has no funding outpoint or amount,
/// and with `CryptoInvalid` where its backup address is none for the
/// network.
pub fn first_backup_request(
    coin: &Coin,
    height: u32,
    interval: u32,
    initial_locktime: u32,
    fee_rate: u32,
    network: Network,
) -> (request: Result<BackupRequest, Error>)
    ensures
        match (coin@.utxo_txid, coin@.utxo_vout, coin@.amount) {
            (Some(txid), Some(vout), Some(amount)) => match spec_address_script(
                coin@.backup_address,
                network,
            ) {
                Some(script) => {
                    &&& request matches Ok(r)
                    &&& r.outpoint@ == (TxOutpointView { txid, vout })
                    &&& r.amount == amount
                    &&& r.destination@ == script
                    &&& r.height == height
                    &&& r.interval == interval
                    &&& r.initial_locktime == initial_locktime
                    &&& r.previous_locktime is None
                    &&& r.fee_rate == fee_rate
                },
                None => request == Err::<BackupRequest, Error>(
                    Error::CryptoInvalid { which: CryptoItem::Address },
                ),
            },
            _ => request == Err::<BackupRequest, Error>(
                Error::NotFound { entity: Entity::FundingOutput },
            ),
        },
{
    match (&coin.utxo_txid, coin.utxo_vout, coin.amount) {
        (Some(txid), Some(vout), Some(amount)) => {
            let destination = match destination_script(&coin.backup_address, network) {
                Ok(destination) => destination,
                Err(error) => { return Err(error); },
            };
            Ok(
                BackupRequest {
                    height,
                    interval,
                    initial_locktime,
                    previous_locktime: None,
                    outpoint: TxOutpoint { txid: txid.clone(), vout },
                    amount,
                    destination,
                    fee_rate,
                },
            )
        },
        _ => Err(Error::NotFound { entity: Entity::FundingOutput }),
    }
}

/// The newest backup transaction of a coin, ready to broadcast.
pub open spec fn spec_backup_to_broadcast(backups: Seq<BackupTxView>) -> Result<Seq<u8>, Error> {
    if backups.len() == 0 {
        Err(Error::NotFound { entity: Entity::BackupTransaction })
    } else {
        match spec_hex_decode(backups[spec_latest_backup(backups)].tx) {
            Some(raw) => Ok(raw),
            None => Err(Error::ChainValidationFailed { step: ValidationStep::Shape }),
        }
    }
}

/// Picks the newest backup transaction of a coin and gives its bytes for
/// broadcasting.
pub fn broadcast_backup_tx(backups: &Vec<BackupTx>) -> (raw: Result<Vec<u8>, Error>)
    ensures
        match raw {
            Ok(r) => spec_backup_to_broadcast(backup_views(backups@)) == Ok::<Seq<u8>, Error>(r@),
            Err(e) => spec_backup_to_broadcast(backup_views(backups@)) == Err::<Seq<u8>, Error>(e),
        },
{
    if backups.len() == 0 {
        return Err(Error::NotFound { entity: Entity::BackupTransaction });
    }
    match hex_decode(backups[latest_backup(backups)].tx.as_str()) {
        Some(raw) => Ok(raw),
        None => Err(Error::ChainValidationFailed { step: ValidationStep::Shape }),
    }
}

/// The status that a funded coin moves on to after a later look at the
/// indexer: a coin in the mempool becomes unconfirmed once its funding
/// output is in a block, and confirmed once its confirmations also reach
/// the target; an unconfirmed coin becomes confirmed on the same terms. A
/// coin whose funding output is not reported, and a coin in any other
/// state, stays as it is.
pub open spec fn spec_refreshed_status(
    status: CoinStatus,
    found: bool,
    included: bool,
    confirmed: bool,
) -> CoinStatus {
    if !found || !included {
        status
    } else {
        match status {
            CoinStatus::InMempool => if confirmed {
                CoinStatus::Confirmed
            } else {
                CoinStatus::Unconfirmed
            },
            CoinStatus::Unconfirmed => if confirmed {
                CoinStatus::Confirmed
            } else {
                CoinStatus::Unconfirmed
            },
            other => other,
        }
    }
}

/// Moves the status of a funded coin on from a later look at the unspent
/// outputs of its funding script. Only the status changes, and only along
/// the lifecycle; a coin without a funding outpoint is left as it is.
pub fn refresh_status(
    coin: &mut Coin,
    unspent: &Vec<UnspentOutput>,
    blockheight: u64,
    confirmation_target: u32,
) -> (moved: bool)
    ensures
        match (old(coin)@.utxo_txid, old(coin)@.utxo_vout) {
            (Some(txid), Some(vout)) => {
                let outpoint = TxOutpointView { txid, vout };
                let reached = crate::indexer::spec_unspent_status(
                    unspent_views(unspent@),
                    outpoint,
                    blockheight,
                    confirmation_target,
                );
                let included = crate::indexer::spec_unspent_status(
                    unspent_views(unspent@),
                    outpoint,
                    blockheight,
                    1,
                );
                final(coin)@ == (CoinView {
                    status: spec_refreshed_status(
                        old(coin).status,
                        reached.0,
                        included.1 == CoinStatus::Confirmed,
                        reached.1 == CoinStatus::Confirmed,
                    ),
                    ..old(coin)@
                })
            },
            _ => *final(coin) == *old(coin),
        },
        moved == (final(coin).status != old(coin).status),
{
    let outpoint = match (&coin.utxo_txid, coin.utxo_vout) {
        (Some(txid), Some(vout)) => TxOutpoint { txid: txid.clone(), vout },
        _ => { return false; },
    };
    let (found, reached) = crate::indexer::verify_tx0_output_is_unspent_and_confirmed(
        unspent,
        &outpoint,
        blockheight,
        confirmation_target,
    );
    let (_, included) = crate::indexer::verify_tx0_output_is_unspent_and_confirmed(
        unspent,
        &outpoint,
        blockheight,
        1,
    );
    let is_included = match included {
        CoinStatus::Confirmed => true,
        _ => false,
    };
    let is_confirmed = match reached {
        CoinStatus::Confirmed => true,
        _ => false,
    };
    if !found || !is_included {
        return false;
    }
    let before = coin.status;
    let mut status = coin.status;
    match status {
        CoinStatus::InMempool => {
            status = match transition(status, CoinEvent::TipInclusion) {
                Some(next) => next,
                None => status,
            };
        },
        _ => {},
    }
    if is_confirmed {
        status = match transition(status, CoinEvent::Confirmations) {
            Some(next) => next,
            None => status,
        };
    }
    coin.status = status;
    match (before, status) {
        (CoinStatus::InMempool, CoinStatus::InMempool) => false,
        (CoinStatus::Unconfirmed, CoinStatus::Unconfirmed) => false,
        (CoinStatus::InMempool, _) => true,
        (CoinStatus::Unconfirmed, _) => true,
        _ => false,
    }
}

} // verus!
