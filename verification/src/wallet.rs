//! The wallet: its coins, their backup transactions and its activity log.

use vstd::prelude::*;
use crate::status::CoinStatus;
use crate::tx::Network;

verus! {

/// The view of an optional text.
pub open spec fn opt_text(text: Option<String>) -> Option<Seq<char>> {
    match text {
        Some(t) => Some(t@),
        None => None,
    }
}

/// A statecoin of the wallet.
#[derive(Clone, Debug, PartialEq, Eq)]
pub struct Coin {
    /// The derivation index of the coin's keys.
    pub index: u32,
    /// The client's share of the coin's key, in wallet import format.
    pub user_privkey: String,
    pub user_pubkey: String,
    /// The key by which the client authenticates to the statechain entity
    /// and opens its mail, in wallet import format.
    pub auth_privkey: String,
    pub auth_pubkey: String,
    /// The address at which the coin can receive a transfer.
    pub address: String,
    /// The address that the coin's backup transactions pay to.
    pub backup_address: String,
    /// The statechain entity's share of the coin's key.
    pub server_pubkey: Option<String>,
    pub aggregated_pubkey: Option<String>,
    pub aggregated_address: Option<String>,
    pub utxo_txid: Option<String>,
    pub utxo_vout: Option<u32>,
    /// The funded value in satoshis.
    pub amount: Option<u64>,
    pub statechain_id: Option<String>,
    /// A signature of the statechain id under the authentication key.
    pub signed_statechain_id: Option<String>,
    /// The lock time of the coin's newest backup transaction.
    pub locktime: Option<u32>,
    /// The id of the child transaction that bumped the backup's fee.
    pub tx_cpfp: Option<String>,
    pub status: CoinStatus,
}

/// A `Coin` as a mathematical value.
pub struct CoinView {
    pub index: u32,
    pub user_privkey: Seq<char>,
    pub user_pubkey: Seq<char>,
    pub auth_privkey: Seq<char>,
    pub auth_pubkey: Seq<char>,
    pub address: Seq<char>,
    pub backup_address: Seq<char>,
    pub server_pubkey: Option<Seq<char>>,
    pub aggregated_pubkey: Option<Seq<char>>,
    pub aggregated_address: Option<Seq<char>>,
    pub utxo_txid: Option<Seq<char>>,
    pub utxo_vout: Option<u32>,
    pub amount: Option<u64>,
    pub statechain_id: Option<Seq<char>>,
    pub signed_statechain_id: Option<Seq<char>>,
    pub locktime: Option<u32>,
    pub tx_cpfp: Option<Seq<char>>,
    pub status: CoinStatus,
}

impl View for Coin {
    type V = CoinView;

    open spec fn view(&self) -> CoinView {
        CoinView {
            index: self.index,
            user_privkey: self.user_privkey@,
            user_pubkey: self.user_pubkey@,
            auth_privkey: self.auth_privkey@,
            auth_pubkey: self.auth_pubkey@,
            address: self.address@,
            backup_address: self.backup_address@,
            server_pubkey: opt_text(self.server_pubkey),
            aggregated_pubkey: opt_text(self.aggregated_pubkey),
            aggregated_address: opt_text(self.aggregated_address),
            utxo_txid: opt_text(self.utxo_txid),
            utxo_vout: self.utxo_vout,
            amount: self.amount,
            statechain_id: opt_text(self.statechain_id),
            signed_statechain_id: opt_text(self.signed_statechain_id),
            locktime: self.locktime,
            tx_cpfp: opt_text(self.tx_cpfp),
            status: self.status,
        }
    }
}

impl Coin {
    /// A copy of this coin.
    pub fn duplicate(&self) -> (copy: Coin)
        ensures
            copy@ == self@,
    {
        Coin {
            index: self.index,
            user_privkey: self.user_privkey.clone(),
            user_pubkey: self.user_pubkey.clone(),
            auth_privkey: self.auth_privkey.clone(),
            auth_pubkey: self.auth_pubkey.clone(),
            address: self.address.clone(),
            backup_address: self.backup_address.clone(),
            server_pubkey: self.server_pubkey.clone(),
            aggregated_pubkey: self.aggregated_pubkey.clone(),
            aggregated_address: self.aggregated_address.clone(),
            utxo_txid: self.utxo_txid.clone(),
            utxo_vout: self.utxo_vout,
            amount: self.amount,
            statechain_id: self.statechain_id.clone(),
            signed_statechain_id: self.signed_statechain_id.clone(),
            locktime: self.locktime,
            tx_cpfp: self.tx_cpfp.clone(),
            status: self.status,
        }
    }
}

/// One link in a coin's chain of backup transactions.
#[derive(Clone, Debug, PartialEq, Eq)]
pub struct BackupTx {
    /// The link's number, counted from one.
    pub tx_n: u32,
    /// The signed transaction in hex.
    pub tx: String,
    pub client_public_nonce: String,
    pub server_public_nonce: String,
    pub client_public_key: String,
    pub server_public_key: String,
    /// The factor that hid the signature hash from the co-signer, in hex.
    pub blinding_factor: String,
    pub statechain_id: String,
}

/// A `BackupTx` as a mathematical value.
pub struct BackupTxView {
    pub tx_n: u32,
    pub tx: Seq<char>,
    pub client_public_nonce: Seq<char>,
    pub server_public_nonce: Seq<char>,
    pub client_public_key: Seq<char>,
    pub server_public_key: Seq<char>,
    pub blinding_factor: Seq<char>,
    pub statechain_id: Seq<char>,
}

impl View for BackupTx {
    type V = BackupTxView;

    open spec fn view(&self) -> BackupTxView {
        BackupTxView {
            tx_n: self.tx_n,
            tx: self.tx@,
            client_public_nonce: self.client_public_nonce@,
            server_public_nonce: self.server_public_nonce@,
            client_public_key: self.client_public_key@,
            server_public_key: self.server_public_key@,
            blinding_factor: self.blinding_factor@,
            statechain_id: self.statechain_id@,
        }
    }
}

impl BackupTx {
    /// A copy of this backup transaction.
    pub fn duplicate(&self) -> (copy: BackupTx)
        ensures
            copy@ == self@,
    {
        BackupTx {
            tx_n: self.tx_n,
            tx: self.tx.clone(),
            client_public_nonce: self.client_public_nonce.clone(),
            server_public_nonce: self.server_public_nonce.clone(),
            client_public_key: self.client_public_key.clone(),
            server_public_key: self.server_public_key.clone(),
            blinding_factor: self.blinding_factor.clone(),
            statechain_id: self.statechain_id.clone(),
        }
    }
}

/// The views of a list of backup transactions, in order.
pub open spec fn backup_views(backups: Seq<BackupTx>) -> Seq<BackupTxView> {
    Seq::new(backups.len(), |i: int| backups[i]@)
}

/// What a wallet did with a coin.
#[derive(Clone, Copy, Debug, PartialEq, Eq, Structural)]
pub enum ActivityAction {
    Deposit,
    Send,
    Receive,
    Withdraw,
}

/// A record of the activity log.
#[derive(Clone, Debug, PartialEq, Eq)]
pub struct Activity {
    /// The id of the funding transaction.
    pub utxo: String,
    /// The position of the funding output.
    pub vout: u32,
    pub amount: u64,
    pub action: ActivityAction,
    /// The time of the action, in ISO 8601.
    pub date: String,
}

/// An `Activity` as a mathematical value.
pub struct ActivityView {
    pub utxo: Seq<char>,
    pub vout: u32,
    pub amount: u64,
    pub action: ActivityAction,
    pub date: Seq<char>,
}

impl View for Activity {
    type V = ActivityView;

    open spec fn view(&self) -> ActivityView {
        ActivityView {
            utxo: self.utxo@,
            vout: self.vout,
            amount: self.amount,
            action: self.action,
            date: self.date@,
        }
    }
}

/// A prepaid token that entitles the wallet to one deposit.
#[derive(Clone, Debug, PartialEq, Eq)]
pub struct Token {
    pub token_id: String,
    pub spent: bool,
}

/// A wallet.
#[derive(Clone, Debug, PartialEq, Eq)]
pub struct Wallet {
    pub name: String,
    pub network: Network,
    /// The seed from which the keys of all coins derive.
    pub seed: Vec<u8>,
    /// The derivation index that the next coin will take.
    pub next_index: u32,
    pub coins: Vec<Coin>,
    pub activities: Vec<Activity>,
    pub tokens: Vec<Token>,
}

/// The views of a list of coins, in order.
pub open spec fn coin_views(coins: Seq<Coin>) -> Seq<CoinView> {
    Seq::new(coins.len(), |i: int| coins[i]@)
}

/// The views of a list of activities, in order.
pub open spec fn activity_views(activities: Seq<Activity>) -> Seq<ActivityView> {
    Seq::new(activities.len(), |i: int| activities[i]@)
}

/// No two coins hold the same statecoin under the same key share.
pub open spec fn spec_coins_distinct(coins: Seq<CoinView>) -> bool {
    forall|i: int, j: int|
        0 <= i < j < coins.len() && (#[trigger] coins[i]).statechain_id is Some && coins[i].statechain_id
            == (#[trigger] coins[j]).statechain_id ==> coins[i].user_pubkey != coins[j].user_pubkey
}

/// Every coin's derivation index lies below the wallet's counter.
pub open spec fn spec_indices_below(coins: Seq<CoinView>, next_index: u32) -> bool {
    forall|i: int| 0 <= i < coins.len() ==> (#[trigger] coins[i]).index < next_index
}

/// Whether a coin holds the statecoin `statechain_id` under the key share
/// `user_pubkey`.
pub open spec fn spec_holds(coin: CoinView, statechain_id: Seq<char>, user_pubkey: Seq<char>) -> bool {
    coin.statechain_id == Some(statechain_id) && coin.user_pubkey == user_pubkey
}

/// Whether some coin of `coins` holds the statecoin under that key share.
pub open spec fn spec_is_held(
    coins: Seq<CoinView>,
    statechain_id: Seq<char>,
    user_pubkey: Seq<char>,
) -> bool {
    exists|i: int| 0 <= i < coins.len() && spec_holds(#[trigger] coins[i], statechain_id, user_pubkey)
}

/// Whether `text` holds an optional text equal to `other`.
pub fn text_is(text: &Option<String>, other: &String) -> (same: bool)
    ensures
        same == (opt_text(*text) == Some(other@)),
{
    match text {
        Some(t) => *t == *other,
        None => false,
    }
}

/// Whether a coin of `coins` already holds the statecoin `statechain_id`
/// under the key share `user_pubkey`: a transfer that was received before.
pub fn is_held(coins: &Vec<Coin>, statechain_id: &String, user_pubkey: &String) -> (held: bool)
    ensures
        held == spec_is_held(coin_views(coins@), statechain_id@, user_pubkey@),
{
    let mut i: usize = 0;
    while i < coins.len()
        invariant
            0 <= i <= coins@.len(),
            forall|j: int|
                0 <= j < i ==> !spec_holds(
                    #[trigger] coin_views(coins@)[j],
                    statechain_id@,
                    user_pubkey@,
                ),
        decreases coins@.len() - i,
    {
        if text_is(&coins[i].statechain_id, statechain_id) && coins[i].user_pubkey == *user_pubkey {
            assert(spec_holds(coin_views(coins@)[i as int], statechain_id@, user_pubkey@));
            return true;
        }
        i = i + 1;
    }
    false
}

/// The position of the first coin of `coins` that holds the statecoin
/// `statechain_id`, if any does.
pub fn find_by_statechain(coins: &Vec<Coin>, statechain_id: &String) -> (found: Option<usize>)
    ensures
        match found {
            Some(i) => i < coins@.len() && coins@[i as int]@.statechain_id == Some(statechain_id@)
                && forall|j: int|
                0 <= j < i ==> (#[trigger] coins@[j])@.statechain_id != Some(statechain_id@),
            None => forall|j: int|
                0 <= j < coins@.len() ==> (#[trigger] coins@[j])@.statechain_id != Some(
                    statechain_id@,
                ),
        },
{
    let mut i: usize = 0;
    while i < coins.len()
        invariant
            0 <= i <= coins@.len(),
            forall|j: int|
                0 <= j < i ==> (#[trigger] coins@[j])@.statechain_id != Some(statechain_id@),
        decreases coins@.len() - i,
    {
        if text_is(&coins[i].statechain_id, statechain_id) {
            return Some(i);
        }
        i = i + 1;
    }
    None
}

} // verus!
