//! Settling a coin on-chain: broadcasting its newest backup transaction
//! together with a child that bumps the fee.

use vstd::prelude::*;
use crate::cpfp::{create, spec_child_terms, spec_created};
use crate::error::{Entity, Error, ValidationStep};
use crate::primitives::{hex_decode, spec_hex_decode};
use crate::wallet::{
    backup_views, coin_views, find_by_statechain, BackupTx, BackupTxView, Coin, CoinView, Wallet,
};

verus! {

/// The position of the newest backup in a list: the last of those with the
/// highest number.
pub open spec fn spec_latest_backup(backups: Seq<BackupTxView>) -> int
    decreases backups.len(),
{
    if backups.len() <= 1 {
        0
    } else {
        let before = spec_latest_backup(backups.drop_last());
        if backups.last().tx_n >= backups[before].tx_n {
            backups.len() - 1
        } else {
            before
        }
    }
}

/// `spec_latest_backup` gives a position in the list whose number none
/// exceeds and none after it equals.
pub proof fn lemma_latest_backup_is_greatest(backups: Seq<BackupTxView>)
    requires
        backups.len() > 0,
    ensures
        0 <= spec_latest_backup(backups) < backups.len(),
        forall|j: int|
            0 <= j < backups.len() ==> (#[trigger] backups[j]).tx_n <= backups[spec_latest_backup(
                backups,
            )].tx_n,
        forall|j: int|
            spec_latest_backup(backups) < j < backups.len() ==> (#[trigger] backups[j]).tx_n
                < backups[spec_latest_backup(backups)].tx_n,
    decreases backups.len(),
{
    if backups.len() > 1 {
        let shorter = backups.drop_last();
        lemma_latest_backup_is_greatest(shorter);
        assert forall|j: int| 0 <= j < backups.len() implies (#[trigger] backups[j]).tx_n
            <= backups[spec_latest_backup(backups)].tx_n by {
            if j < shorter.len() {
                assert(shorter[j] == backups[j]);
            }
        }
        assert forall|j: int| spec_latest_backup(backups) < j < backups.len() implies (
        #[trigger] backups[j]).tx_n < backups[spec_latest_backup(backups)].tx_n by {
            if j < shorter.len() {
                assert(shorter[j] == backups[j]);
            }
        }
    }
}

/// The position of the newest backup transaction.
pub fn latest_backup(backups: &Vec<BackupTx>) -> (position: usize)
    requires
        backups@.len() > 0,
    ensures
        position == spec_latest_backup(backup_views(backups@)),
        position < backups@.len(),
{
    let mut best: usize = 0;
    let mut i: usize = 1;
    assert(backup_views(backups@).take(1).len() == 1);
    while i < backups.len()
        invariant
            1 <= i <= backups@.len(),
            best < i,
            best == spec_latest_backup(backup_views(backups@).take(i as int)),
        decreases backups@.len() - i,
    {
        proof {
            let views = backup_views(backups@);
            assert(views.take(i + 1).drop_last() =~= views.take(i as int));
            assert(views.take(i + 1).last() == backups@[i as int]@);
            assert(views.take(i + 1)[best as int] == backups@[best as int]@);
        }
        if backups[i].tx_n >= backups[best].tx_n {
            best = i;
        }
        i = i + 1;
    }
    assert(backup_views(backups@).take(i as int) =~= backup_views(backups@));
    best
}

/// What is to be broadcast to settle a coin.
#[derive(Clone, Debug, PartialEq, Eq)]
pub struct Broadcast {
    /// The position of the coin in the wallet.
    pub position: usize,
    /// The backup transaction.
    pub backup_tx: Vec<u8>,
    /// The child transaction, in hex.
    pub cpfp_tx: String,
}

/// The position of the first coin that holds the statecoin.
pub open spec fn spec_coin_of(coins: Seq<CoinView>, statechain_id: Seq<char>, position: int) -> bool {
    &&& 0 <= position < coins.len()
    &&& coins[position].statechain_id == Some(statechain_id)
    &&& forall|j: int| 0 <= j < position ==> (#[trigger] coins[j]).statechain_id != Some(statechain_id)
}

/// Whether no coin holds the statecoin.
pub open spec fn spec_no_coin_of(coins: Seq<CoinView>, statechain_id: Seq<char>) -> bool {
    forall|j: int| 0 <= j < coins.len() ==> (#[trigger] coins[j]).statechain_id != Some(statechain_id)
}

/// What settling comes to: `NotFound` where the coin has no backup or the
/// wallet no such coin, else the newest backup and the child built for it.
pub open spec fn spec_settled(
    coins: Seq<CoinView>,
    backups: Seq<BackupTxView>,
    statechain_id: Seq<char>,
    to_address: Seq<char>,
    fee_rate: u64,
    network: crate::tx::Network,
    outcome: Result<Broadcast, Error>,
) -> bool {
    if backups.len() == 0 {
        outcome == Err::<Broadcast, Error>(Error::NotFound { entity: Entity::BackupTransaction })
    } else if spec_no_coin_of(coins, statechain_id) {
        outcome == Err::<Broadcast, Error>(Error::NotFound { entity: Entity::Coin })
    } else {
        let newest = backups[spec_latest_backup(backups)];
        match outcome {
            Ok(broadcast) => {
                &&& spec_coin_of(coins, statechain_id, broadcast.position as int)
                &&& spec_hex_decode(newest.tx) == Some(broadcast.backup_tx@)
                &&& spec_created(
                    spec_child_terms(
                        newest,
                        coins[broadcast.position as int].amount,
                        coins[broadcast.position as int].user_privkey,
                        to_address,
                        fee_rate,
                        network,
                    ),
                    Ok(broadcast.cpfp_tx@),
                )
            },
            Err(error) => exists|position: int|
                {
                    &&& #[trigger] spec_coin_of(coins, statechain_id, position)
                    &&& spec_created(
                        spec_child_terms(
                            newest,
                            coins[position].amount,
                            coins[position].user_privkey,
                            to_address,
                            fee_rate,
                            network,
                        ),
                        Err(error),
                    )
                },
        }
    }
}

/// Prepares the settlement of the statecoin `statechain_id`: picks the
/// newest of its backup transactions and the coin in the wallet, and
/// builds the child that pays to `to_address` at `fee_rate`.
pub fn execute(
    wallet: &Wallet,
    backup_txs: &Vec<BackupTx>,
    statechain_id: &String,
    to_address: &String,
    fee_rate: u64,
) -> (outcome: Result<Broadcast, Error>)
    ensures
        spec_settled(
            coin_views(wallet.coins@),
            backup_views(backup_txs@),
            statechain_id@,
            to_address@,
            fee_rate,
            wallet.network,
            outcome,
        ),
{
    if backup_txs.len() == 0 {
        return Err(Error::NotFound { entity: Entity::BackupTransaction });
    }
    let newest = &backup_txs[latest_backup(backup_txs)];
    let position = match find_by_statechain(&wallet.coins, statechain_id) {
        Some(position) => position,
        None => { return Err(Error::NotFound { entity: Entity::Coin }); },
    };
    assert(spec_coin_of(coin_views(wallet.coins@), statechain_id@, position as int));
    let cpfp_tx = match create(newest, &wallet.coins[position], to_address, fee_rate, wallet.network) {
        Ok(cpfp_tx) => cpfp_tx,
        Err(error) => { return Err(error); },
    };
    match hex_decode(newest.tx.as_str()) {
        Some(backup_tx) => Ok(Broadcast { position, backup_tx, cpfp_tx }),
        None => {
            proof {
                let terms = spec_child_terms(
                    newest@,
                    wallet.coins@[position as int].amount,
                    wallet.coins@[position as int].user_privkey@,
                    to_address@,
                    fee_rate,
                    wallet.network,
                );
                assert(terms is Err);
            }
            Err(Error::ChainValidationFailed { step: ValidationStep::Shape })
        },
    }
}

/// Notes the id of the broadcast child on the coin at `position`. A
/// position that the wallet does not have changes nothing.
pub fn record_cpfp(wallet: &mut Wallet, position: usize, txid: String) -> (done: bool)
    ensures
        done == (position < old(wallet).coins@.len()),
        done ==> coin_views(final(wallet).coins@) == coin_views(old(wallet).coins@).update(
            position as int,
            CoinView { tx_cpfp: Some(txid@), ..old(wallet).coins@[position as int]@ },
        ),
        !done ==> *final(wallet) == *old(wallet),
        final(wallet).name == old(wallet).name,
        final(wallet).network == old(wallet).network,
        final(wallet).seed == old(wallet).seed,
        final(wallet).next_index == old(wallet).next_index,
        final(wallet).activities == old(wallet).activities,
        final(wallet).tokens == old(wallet).tokens,
{
    if position >= wallet.coins.len() {
        return false;
    }
    let mut coin = wallet.coins[position].duplicate();
    coin.tx_cpfp = Some(txid);
    let ghost before = coin_views(wallet.coins@);
    let ghost changed = coin@;
    wallet.coins.set(position, coin);
    assert(coin_views(wallet.coins@) =~= before.update(position as int, changed));
    true
}

} // verus!
