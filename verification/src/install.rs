//! Taking a received coin into the wallet: the request that claims it, its
//! new key material, and the coin's fields once the entity has agreed.

use vstd::prelude::*;
use crate::error::{CryptoItem, Entity, Error, ValidationStep};
use crate::evidence::{output_of, spec_output_of};
use crate::keys::{
    sign_message, spec_new_coin, spec_signed_by, spec_transfer_address, transfer_address,
};
use crate::primitives::{
    combine_public_keys, hex_decode, hex_encode, p2tr_address, scalar_difference,
    secret_key_from_wif, spec_combine_public_keys, spec_hex_decode, spec_hex_encode,
    spec_p2tr_address, spec_scalar_difference, spec_secret_key_from_wif,
};
use crate::receiver::TransferReceiverRequestPayload;
use crate::status::{spec_transition, transition, CoinEvent, CoinStatus};
use crate::transfer::TransferMsg;
use crate::tx::{bytes_equal, Network, TxOutpoint, TxOutpointView};
use crate::wallet::{coin_views, Activity, ActivityAction, ActivityView, Coin, CoinView, Wallet};

verus! {

/// The scalar `t2` that a receiver hands to the entity, in hex: the
/// sender's blinded tweak less the receiver's secret key share.
pub open spec fn spec_t2(t1: Seq<char>, user_privkey: Seq<char>) -> Result<Seq<char>, Error> {
    match spec_hex_decode(t1) {
        Some(tweak) => match spec_secret_key_from_wif(user_privkey) {
            Some(secret) => match spec_scalar_difference(tweak, secret) {
                Some(difference) => Ok(spec_hex_encode(difference)),
                None => Err(Error::CryptoInvalid { which: CryptoItem::Scalar }),
            },
            None => Err(Error::CryptoInvalid { which: CryptoItem::PrivateKey }),
        },
        None => Err(Error::CryptoInvalid { which: CryptoItem::Scalar }),
    }
}

/// Computes `t2` from the tweak `t1` of a transfer message and the
/// receiver's private key share.
pub fn compute_t2(t1: &String, user_privkey: &String) -> (t2: Result<String, Error>)
    ensures
        crate::receiver::text_result(t2) == spec_t2(t1@, user_privkey@),
{
    let tweak = match hex_decode(t1.as_str()) {
        Some(tweak) => tweak,
        None => { return Err(Error::CryptoInvalid { which: CryptoItem::Scalar }); },
    };
    let secret = match secret_key_from_wif(user_privkey.as_str()) {
        Some(secret) => secret,
        None => { return Err(Error::CryptoInvalid { which: CryptoItem::PrivateKey }); },
    };
    match scalar_difference(tweak.as_slice(), secret.as_slice()) {
        Some(difference) => Ok(hex_encode(difference.as_slice())),
        None => Err(Error::CryptoInvalid { which: CryptoItem::Scalar }),
    }
}

/// How signing under an authentication key fails: with `CryptoInvalid` for
/// the private key, and only where the key is not in wallet import format.
pub open spec fn spec_signing_failed(auth_privkey: Seq<char>, error: Error) -> bool {
    crate::primitives::spec_public_key_of(auth_privkey) is None && error == (Error::CryptoInvalid {
        which: CryptoItem::PrivateKey,
    })
}

/// Builds the request by which the receiver `coin` claims the statecoin of
/// `transfer_msg`: the statecoin's id, no batch data, `t2`, and a signature
/// of `t2` under the coin's authentication key.
///
/// Fails as `spec_t2` does, and with `CryptoInvalid` for the private key
/// where the coin's authentication key is not in wallet import format.
pub fn create_transfer_receiver_request_payload(transfer_msg: &TransferMsg, coin: &Coin) -> (payload:
    Result<TransferReceiverRequestPayload, Error>)
    ensures
        match spec_t2(transfer_msg.t1@, coin.user_privkey@) {
            Ok(t2) => match payload {
                Ok(p) => p.t2@ == t2 && p.statechain_id@ == transfer_msg.statechain_id@
                    && p.batch_data is None && spec_signed_by(coin.auth_privkey@, t2, p.auth_sig@),
                Err(e) => spec_signing_failed(coin.auth_privkey@, e),
            },
            Err(e) => payload == Err::<TransferReceiverRequestPayload, Error>(e),
        },
{
    let t2 = match compute_t2(&transfer_msg.t1, &coin.user_privkey) {
        Ok(t2) => t2,
        Err(error) => { return Err(error); },
    };
    let auth_sig = match sign_message(&t2, coin) {
        Ok(signature) => signature,
        Err(error) => { return Err(error); },
    };
    Ok(
        TransferReceiverRequestPayload {
            statechain_id: transfer_msg.statechain_id.clone(),
            batch_data: None,
            t2,
            auth_sig,
        },
    )
}

/// The key material of a coin after the entity has rotated its share.
#[derive(Clone, Debug, PartialEq, Eq)]
pub struct NewKeyInfo {
    pub aggregate_pubkey: String,
    pub aggregate_address: String,
    pub signed_statechain_id: String,
    /// The funded value in satoshis.
    pub amount: u64,
}

/// The aggregate key, its address and the funded amount of a received
/// coin: the sum of the receiver's key share and the entity's new one, the
/// taproot address of that sum, and the value of the funding output, which
/// the sum must lock.
pub open spec fn spec_new_key_info(
    server_pubkey: Seq<char>,
    user_pubkey: Seq<char>,
    outpoint: TxOutpointView,
    tx0_hex: Seq<char>,
    network: Network,
) -> Result<(Seq<char>, Seq<char>, u64), Error> {
    match spec_combine_public_keys(user_pubkey, server_pubkey) {
        Some(aggregate) => match (
            spec_p2tr_address(aggregate, network),
            crate::primitives::spec_p2tr_script(aggregate),
        ) {
            (Some(address), Some(script)) => match spec_output_of(tx0_hex, outpoint.vout) {
                Some(funding) => if funding.script_pubkey == script {
                    Ok((aggregate, address, funding.value))
                } else {
                    Err(Error::ChainValidationFailed { step: ValidationStep::FundingPubkey })
                },
                None => Err(Error::NotFound { entity: Entity::FundingOutput }),
            },
            _ => Err(Error::CryptoInvalid { which: CryptoItem::KeyAggregation }),
        },
        None => Err(Error::CryptoInvalid { which: CryptoItem::KeyAggregation }),
    }
}

/// A coin does not move on chain when it changes hands: the key of the
/// received coin locks the funding output, as the key of the sender did, so
/// the two keys have one taproot script.
pub proof fn lemma_received_key_locks_what_the_senders_did(
    server_pubkey: Seq<char>,
    user_pubkey: Seq<char>,
    outpoint: TxOutpointView,
    tx0_hex: Seq<char>,
    network: Network,
    sender_aggregate: Seq<char>,
)
    requires
        spec_new_key_info(server_pubkey, user_pubkey, outpoint, tx0_hex, network) is Ok,
        spec_output_of(tx0_hex, outpoint.vout) matches Some(funding)
            && crate::primitives::spec_p2tr_script(sender_aggregate) == Some(funding.script_pubkey),
    ensures
        spec_new_key_info(server_pubkey, user_pubkey, outpoint, tx0_hex, network) matches Ok(info)
            && crate::primitives::spec_p2tr_script(info.0) == crate::primitives::spec_p2tr_script(
            sender_aggregate,
        ),
{
}

/// Derives the key material that `coin` holds once the entity has answered
/// with its new share `server_public_key_hex`, and signs the statecoin's id
/// afresh.
///
/// Fails as `spec_new_key_info` does, and with `CryptoInvalid` for the
/// private key where the coin's authentication key is not in wallet import
/// format.
pub fn get_new_key_info(
    server_public_key_hex: &String,
    coin: &Coin,
    statechain_id: &String,
    tx0_outpoint: &TxOutpoint,
    tx0_hex: &String,
    network: Network,
) -> (info: Result<NewKeyInfo, Error>)
    ensures
        match spec_new_key_info(
            server_public_key_hex@,
            coin.user_pubkey@,
            tx0_outpoint@,
            tx0_hex@,
            network,
        ) {
            Ok((aggregate, address, amount)) => match info {
                Ok(i) => i.aggregate_pubkey@ == aggregate && i.aggregate_address@ == address
                    && i.amount == amount && spec_signed_by(
                    coin.auth_privkey@,
                    statechain_id@,
                    i.signed_statechain_id@,
                ),
                Err(e) => spec_signing_failed(coin.auth_privkey@, e),
            },
            Err(e) => info == Err::<NewKeyInfo, Error>(e),
        },
{
    let aggregate = match combine_public_keys(
        coin.user_pubkey.as_str(),
        server_public_key_hex.as_str(),
    ) {
        Some(aggregate) => aggregate,
        None => { return Err(Error::CryptoInvalid { which: CryptoItem::KeyAggregation }); },
    };
    let address = p2tr_address(aggregate.as_str(), network);
    let script = crate::primitives::p2tr_script(aggregate.as_str());
    let (address, script) = match (address, script) {
        (Some(address), Some(script)) => (address, script),
        _ => { return Err(Error::CryptoInvalid { which: CryptoItem::KeyAggregation }); },
    };
    let funding = match output_of(tx0_hex, tx0_outpoint.vout) {
        Some(funding) => funding,
        None => { return Err(Error::NotFound { entity: Entity::FundingOutput }); },
    };
    if !bytes_equal(funding.script_pubkey.as_slice(), script.as_slice()) {
        return Err(Error::ChainValidationFailed { step: ValidationStep::FundingPubkey });
    }
    let signed_statechain_id = match sign_message(statechain_id, coin) {
        Ok(signature) => signature,
        Err(error) => { return Err(error); },
    };
    Ok(
        NewKeyInfo {
            aggregate_pubkey: aggregate,
            aggregate_address: address,
            signed_statechain_id,
            amount: funding.value,
        },
    )
}

/// A coin after it has taken a transfer: the statecoin's id, the entity's
/// share, the new key material, the funding outpoint, the lock time of the
/// newest backup and the status that the funding output's confirmations
/// earn. Keys, addresses and the fee-bump id stay as they were.
pub open spec fn spec_installed(
    coin: CoinView,
    server_pubkey: Seq<char>,
    aggregate_pubkey: Seq<char>,
    aggregate_address: Seq<char>,
    signed_statechain_id: Seq<char>,
    amount: u64,
    statechain_id: Seq<char>,
    outpoint: TxOutpointView,
    locktime: u32,
    status: CoinStatus,
) -> CoinView {
    CoinView {
        server_pubkey: Some(server_pubkey),
        aggregated_pubkey: Some(aggregate_pubkey),
        aggregated_address: Some(aggregate_address),
        statechain_id: Some(statechain_id),
        signed_statechain_id: Some(signed_statechain_id),
        amount: Some(amount),
        utxo_txid: Some(outpoint.txid),
        utxo_vout: Some(outpoint.vout),
        locktime: Some(locktime),
        status,
        ..coin
    }
}

/// Fills in a coin that has taken a transfer and gives the record for the
/// activity log. The coin's status moves as the lifecycle allows for a
/// received transfer, so only a coin that is still initialised can take
/// one: any other is left as it is and `NotFound` for the coin comes back.
pub fn install_received(
    coin: &mut Coin,
    server_pubkey: String,
    key_info: NewKeyInfo,
    statechain_id: &String,
    outpoint: &TxOutpoint,
    locktime: u32,
    confirmed: bool,
    date: String,
) -> (activity: Result<Activity, Error>)
    ensures
        match spec_transition(old(coin).status, CoinEvent::ReceiveOk { confirmed }) {
            Some(status) => {
                &&& activity matches Ok(record)
                &&& record@ == (ActivityView {
                    utxo: outpoint.txid@,
                    vout: outpoint.vout,
                    amount: key_info.amount,
                    action: ActivityAction::Receive,
                    date: date@,
                })
                &&& final(coin)@ == spec_installed(
                    old(coin)@,
                    server_pubkey@,
                    key_info.aggregate_pubkey@,
                    key_info.aggregate_address@,
                    key_info.signed_statechain_id@,
                    key_info.amount,
                    statechain_id@,
                    outpoint@,
                    locktime,
                    status,
                )
            },
            None => *final(coin) == *old(coin) && activity == Err::<Activity, Error>(
                Error::NotFound { entity: Entity::Coin },
            ),
        },
{
    let status = match transition(coin.status, CoinEvent::ReceiveOk { confirmed }) {
        Some(status) => status,
        None => { return Err(Error::NotFound { entity: Entity::Coin }); },
    };
    let amount = key_info.amount;
    coin.server_pubkey = Some(server_pubkey);
    coin.aggregated_pubkey = Some(key_info.aggregate_pubkey);
    coin.aggregated_address = Some(key_info.aggregate_address);
    coin.statechain_id = Some(statechain_id.clone());
    coin.signed_statechain_id = Some(key_info.signed_statechain_id);
    coin.amount = Some(amount);
    coin.utxo_txid = Some(outpoint.txid.clone());
    coin.utxo_vout = Some(outpoint.vout);
    coin.locktime = Some(locktime);
    coin.status = status;
    Ok(
        Activity {
            utxo: outpoint.txid.clone(),
            vout: outpoint.vout,
            amount,
            action: ActivityAction::Receive,
            date,
        },
    )
}

/// A coin that has taken a transfer holds the statecoin of the message,
/// and was initialised before.
pub proof fn lemma_installed_coin_holds_statecoin(
    coin: CoinView,
    server_pubkey: Seq<char>,
    aggregate_pubkey: Seq<char>,
    aggregate_address: Seq<char>,
    signed_statechain_id: Seq<char>,
    amount: u64,
    statechain_id: Seq<char>,
    outpoint: TxOutpointView,
    locktime: u32,
    confirmed: bool,
)
    requires
        spec_transition(coin.status, CoinEvent::ReceiveOk { confirmed }) is Some,
    ensures
        coin.status == CoinStatus::Initialised,
        ({
            let after = spec_installed(
                coin,
                server_pubkey,
                aggregate_pubkey,
                aggregate_address,
                signed_statechain_id,
                amount,
                statechain_id,
                outpoint,
                locktime,
                spec_transition(coin.status, CoinEvent::ReceiveOk { confirmed }).unwrap(),
            );
            &&& after.statechain_id == Some(statechain_id)
            &&& after.user_pubkey == coin.user_pubkey
            &&& after.status == if confirmed {
                CoinStatus::Confirmed
            } else {
                CoinStatus::Unconfirmed
            }
        }),
{
}

/// The position of the first coin that is still initialised and has the
/// authentication key `auth_pubkey`.
pub open spec fn spec_find_initialised(coins: Seq<CoinView>, auth_pubkey: Seq<char>) -> Option<int>
    decreases coins.len(),
{
    if coins.len() == 0 {
        None
    } else if coins[0].auth_pubkey == auth_pubkey && coins[0].status == CoinStatus::Initialised {
        Some(0)
    } else {
        match spec_find_initialised(coins.drop_first(), auth_pubkey) {
            Some(i) => Some(i + 1),
            None => None,
        }
    }
}

/// Looks for the first coin that waits for a transfer under the
/// authentication key `auth_pubkey`.
pub fn find_initialised(coins: &Vec<Coin>, auth_pubkey: &String) -> (position: Option<usize>)
    ensures
        match position {
            Some(i) => spec_find_initialised(coin_views(coins@), auth_pubkey@) == Some(i as int)
                && i < coins@.len() && coins@[i as int].auth_pubkey@ == auth_pubkey@
                && coins@[i as int].status == CoinStatus::Initialised,
            None => spec_find_initialised(coin_views(coins@), auth_pubkey@) is None,
        },
{
    let ghost all = coin_views(coins@);
    let mut i: usize = 0;
    assert(all.skip(0) =~= all);
    while i < coins.len()
        invariant
            0 <= i <= coins@.len(),
            all == coin_views(coins@),
            spec_find_initialised(all, auth_pubkey@) == match spec_find_initialised(
                all.skip(i as int),
                auth_pubkey@,
            ) {
                Some(k) => Some(k + i),
                None => None,
            },
        decreases coins@.len() - i,
    {
        assert(all.skip(i as int)[0] == coins@[i as int]@);
        assert(all.skip(i as int).drop_first() =~= all.skip(i + 1));
        if coins[i].auth_pubkey == *auth_pubkey && coins[i].status == CoinStatus::Initialised {
            return Some(i);
        }
        i = i + 1;
    }
    assert(all.skip(i as int).len() == 0);
    None
}

/// The position of the first coin with the authentication key
/// `auth_pubkey`.
pub open spec fn spec_find_auth(coins: Seq<CoinView>, auth_pubkey: Seq<char>) -> Option<int>
    decreases coins.len(),
{
    if coins.len() == 0 {
        None
    } else if coins[0].auth_pubkey == auth_pubkey {
        Some(0)
    } else {
        match spec_find_auth(coins.drop_first(), auth_pubkey) {
            Some(i) => Some(i + 1),
            None => None,
        }
    }
}

fn find_auth(coins: &Vec<Coin>, auth_pubkey: &String) -> (position: Option<usize>)
    ensures
        match position {
            Some(i) => spec_find_auth(coin_views(coins@), auth_pubkey@) == Some(i as int) && i
                < coins@.len(),
            None => spec_find_auth(coin_views(coins@), auth_pubkey@) is None,
        },
{
    let ghost all = coin_views(coins@);
    let mut i: usize = 0;
    assert(all.skip(0) =~= all);
    while i < coins.len()
        invariant
            0 <= i <= coins@.len(),
            all == coin_views(coins@),
            spec_find_auth(all, auth_pubkey@) == match spec_find_auth(
                all.skip(i as int),
                auth_pubkey@,
            ) {
                Some(k) => Some(k + i),
                None => None,
            },
        decreases coins@.len() - i,
    {
        assert(all.skip(i as int)[0] == coins@[i as int]@);
        assert(all.skip(i as int).drop_first() =~= all.skip(i + 1));
        if coins[i].auth_pubkey == *auth_pubkey {
            return Some(i);
        }
        i = i + 1;
    }
    assert(all.skip(i as int).len() == 0);
    None
}

/// A coin that can take one more transfer under an authentication key that
/// the wallet has used before: the authentication key of the first coin
/// that has it, a fresh key share at the wallet's next derivation index,
/// and nothing else set.
pub open spec fn spec_scratch_coin(
    coins: Seq<CoinView>,
    seed: Seq<u8>,
    network: Network,
    next_index: u32,
    auth_pubkey: Seq<char>,
) -> Result<CoinView, Error> {
    match spec_find_auth(coins, auth_pubkey) {
        Some(i) => match spec_new_coin(seed, network, next_index) {
            Some(fresh) => Ok(
                CoinView {
                    auth_privkey: coins[i].auth_privkey,
                    auth_pubkey: coins[i].auth_pubkey,
                    address: spec_transfer_address(fresh.user_pubkey, coins[i].auth_pubkey),
                    ..fresh
                },
            ),
            None => Err(Error::CryptoInvalid { which: CryptoItem::PrivateKey }),
        },
        None => Err(Error::NotFound { entity: Entity::Coin }),
    }
}

/// The view of a result that holds a coin.
pub open spec fn coin_result(result: Result<Coin, Error>) -> Result<CoinView, Error> {
    match result {
        Ok(coin) => Ok(coin@),
        Err(error) => Err(error),
    }
}

/// Makes a coin that can take one more transfer under the authentication
/// key `auth_pubkey` of an earlier coin of the wallet. The wallet is not
/// changed: whoever adds the coin to it advances its derivation counter.
///
/// Fails with `NotFound` where no coin has that key, and with
/// `CryptoInvalid` where no fresh key share can be derived.
pub fn duplicate_coin_to_initialized_state(wallet: &Wallet, auth_pubkey: &String) -> (coin: Result<
    Coin,
    Error,
>)
    ensures
        coin_result(coin) == spec_scratch_coin(
            coin_views(wallet.coins@),
            wallet.seed@,
            wallet.network,
            wallet.next_index,
            auth_pubkey@,
        ),
{
    let found = match find_auth(&wallet.coins, auth_pubkey) {
        Some(found) => found,
        None => { return Err(Error::NotFound { entity: Entity::Coin }); },
    };
    let fresh = match wallet.get_new_coin() {
        Ok(fresh) => fresh,
        Err(error) => { return Err(error); },
    };
    let model = &wallet.coins[found];
    let address = transfer_address(&fresh.user_pubkey, &model.auth_pubkey);
    Ok(
        Coin {
            index: fresh.index,
            user_privkey: fresh.user_privkey,
            user_pubkey: fresh.user_pubkey,
            auth_privkey: model.auth_privkey.clone(),
            auth_pubkey: model.auth_pubkey.clone(),
            address,
            backup_address: fresh.backup_address,
            server_pubkey: None,
            aggregated_pubkey: None,
            aggregated_address: None,
            utxo_txid: None,
            utxo_vout: None,
            amount: None,
            statechain_id: None,
            signed_statechain_id: None,
            locktime: None,
            tx_cpfp: None,
            status: CoinStatus::Initialised,
        },
    )
}

} // verus!
