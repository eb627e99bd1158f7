//! A run over the wallet's mailbox.
//!
//! The run works on the wallet as it was read. For each encrypted message
//! it picks the coin that is to take the transfer, and when the message's
//! session has ended it takes the outcome in. The caller writes the wallet
//! back once, at the end.

use vstd::prelude::*;
use crate::error::Error;
use crate::install::{
    duplicate_coin_to_initialized_state, find_initialised, spec_find_initialised,
    spec_scratch_coin,
};
use crate::receive::ReceiveAction;
use crate::wallet::{
    activity_views, coin_views, is_held, spec_coins_distinct, spec_holds, spec_is_held, BackupTx,
    Coin, CoinView, Wallet,
};

verus! {

/// What a run over the mailbox came to.
#[derive(Clone, Debug, PartialEq, Eq)]
pub struct TransferReceiveResult {
    /// Whether some coin is still held in a locked batch.
    pub is_there_batch_locked: bool,
    /// The statecoins that were received, in the order of their messages.
    pub received_statechain_ids: Vec<String>,
}

/// The views of a list of texts, in order.
pub open spec fn texts(list: Seq<String>) -> Seq<Seq<char>> {
    Seq::new(list.len(), |i: int| list[i]@)
}

/// The distinct texts of a list, each at its first occurrence.
pub open spec fn spec_unique(keys: Seq<Seq<char>>) -> Seq<Seq<char>>
    decreases keys.len(),
{
    if keys.len() == 0 {
        Seq::empty()
    } else {
        let before = spec_unique(keys.drop_last());
        if before.contains(keys.last()) {
            before
        } else {
            before.push(keys.last())
        }
    }
}

/// The authentication keys of a list of coins, in order.
pub open spec fn spec_auth_keys(coins: Seq<CoinView>) -> Seq<Seq<char>> {
    Seq::new(coins.len(), |i: int| coins[i].auth_pubkey)
}

/// `spec_unique` holds every text of the list, and none twice.
pub proof fn lemma_unique_is_distinct_cover(keys: Seq<Seq<char>>)
    ensures
        forall|i: int| 0 <= i < keys.len() ==> spec_unique(keys).contains(#[trigger] keys[i]),
        forall|k: Seq<char>| spec_unique(keys).contains(k) ==> keys.contains(k),
        forall|i: int, j: int|
            0 <= i < j < spec_unique(keys).len() ==> spec_unique(keys)[i] != spec_unique(keys)[j],
    decreases keys.len(),
{
    if keys.len() > 0 {
        let shorter = keys.drop_last();
        let before = spec_unique(shorter);
        let after = spec_unique(keys);
        lemma_unique_is_distinct_cover(shorter);
        assert forall|i: int| 0 <= i < keys.len() implies after.contains(#[trigger] keys[i]) by {
            if i < shorter.len() {
                assert(shorter[i] == keys[i]);
                let at = choose|at: int| 0 <= at < before.len() && before[at] == keys[i];
                assert(after[at] == keys[i]);
            } else {
                assert(keys[i] == keys.last());
                if before.contains(keys.last()) {
                } else {
                    assert(after[before.len() as int] == keys.last());
                }
            }
        }
        assert forall|k: Seq<char>| after.contains(k) implies keys.contains(k) by {
            let at = choose|at: int| 0 <= at < after.len() && after[at] == k;
            if at < before.len() {
                assert(before[at] == k);
                assert(before.contains(k));
                assert(shorter.contains(k));
                let within = choose|within: int| 0 <= within < shorter.len() && shorter[within] == k;
                assert(keys[within] == shorter[within]);
                assert(keys.contains(k));
            } else {
                assert(keys[keys.len() - 1] == k);
            }
        }
        assert forall|i: int, j: int| 0 <= i < j < after.len() implies after[i] != after[j] by {
            if j < before.len() {
                assert(after[i] == before[i] && after[j] == before[j]);
            } else {
                assert(after[i] == before[i]);
                assert(before.contains(before[i]));
            }
        }
    }
}

fn holds_text(list: &Vec<String>, text: &String) -> (yes: bool)
    ensures
        yes == texts(list@).contains(text@),
{
    let mut i: usize = 0;
    while i < list.len()
        invariant
            0 <= i <= list@.len(),
            forall|j: int| 0 <= j < i ==> texts(list@)[j] != text@,
        decreases list@.len() - i,
    {
        if list[i] == *text {
            assert(texts(list@)[i as int] == text@);
            return true;
        }
        i = i + 1;
    }
    false
}

/// The distinct authentication keys of the wallet's coins, each at its
/// first occurrence: the mailboxes that a run has to look into.
pub fn unique_auth_pubkeys(coins: &Vec<Coin>) -> (keys: Vec<String>)
    ensures
        texts(keys@) == spec_unique(spec_auth_keys(coin_views(coins@))),
{
    let ghost all = spec_auth_keys(coin_views(coins@));
    let mut keys: Vec<String> = Vec::new();
    let mut i: usize = 0;
    assert(texts(keys@) =~= spec_unique(all.take(0)));
    while i < coins.len()
        invariant
            0 <= i <= coins@.len(),
            all == spec_auth_keys(coin_views(coins@)),
            texts(keys@) == spec_unique(all.take(i as int)),
        decreases coins@.len() - i,
    {
        proof {
            assert(all.take(i + 1).drop_last() =~= all.take(i as int));
            assert(all.take(i + 1).last() == coins@[i as int].auth_pubkey@);
        }
        if !holds_text(&keys, &coins[i].auth_pubkey) {
            let ghost before = texts(keys@);
            keys.push(coins[i].auth_pubkey.clone());
            assert(texts(keys@) =~= before.push(coins@[i as int].auth_pubkey@));
        }
        i = i + 1;
    }
    assert(all.take(i as int) =~= all);
    keys
}

/// The coin that takes a transfer.
#[derive(Clone, Copy, Debug, PartialEq, Eq)]
pub enum CoinChoice {
    /// The coin at this position in the wallet, which waits for a transfer.
    Existing { position: usize },
    /// A coin made for the occasion, which joins the wallet on success.
    Scratch,
}

/// A run over the mailbox: the wallet as it stands, and what the run has
/// come to so far.
#[derive(Clone, Debug, PartialEq, Eq)]
pub struct ReceiveRun {
    pub wallet: Wallet,
    pub result: TransferReceiveResult,
}

/// Which coin takes a transfer under `auth_pubkey`: the first coin of the
/// wallet that waits under that key, else a coin made for the occasion.
pub open spec fn spec_selected(wallet: Wallet, auth_pubkey: Seq<char>) -> Result<
    (CoinChoice, CoinView),
    Error,
> {
    let coins = coin_views(wallet.coins@);
    match spec_find_initialised(coins, auth_pubkey) {
        Some(position) => Ok((CoinChoice::Existing { position: position as usize }, coins[position])),
        None => match spec_scratch_coin(
            coins,
            wallet.seed@,
            wallet.network,
            wallet.next_index,
            auth_pubkey,
        ) {
            Ok(coin) => Ok((CoinChoice::Scratch, coin)),
            Err(error) => Err(error),
        },
    }
}

/// The view of a result that holds a choice and a coin.
pub open spec fn choice_result(result: Result<(CoinChoice, Coin), Error>) -> Result<
    (CoinChoice, CoinView),
    Error,
> {
    match result {
        Ok((choice, coin)) => Ok((choice, coin@)),
        Err(error) => Err(error),
    }
}

/// The wallet after a coin has taken a transfer: the coin in its place or
/// at the end, with the derivation counter past a coin made for the
/// occasion, and the record at the end of the activity log.
pub open spec fn spec_wallet_installed(
    coins: Seq<CoinView>,
    next_index: u32,
    choice: CoinChoice,
    coin: CoinView,
) -> (Seq<CoinView>, u32) {
    match choice {
        CoinChoice::Existing { position } => (coins.update(position as int, coin), next_index),
        CoinChoice::Scratch => (coins.push(coin), (next_index + 1) as u32),
    }
}

/// Whether a coin can be put into the wallet as `choice` says: an existing
/// one into a position that the wallet has, one made for the occasion at
/// the wallet's next derivation index.
pub open spec fn spec_fits(coins: Seq<CoinView>, next_index: u32, choice: CoinChoice, coin: CoinView) -> bool {
    match choice {
        CoinChoice::Existing { position } => position < coins.len(),
        CoinChoice::Scratch => coin.index == next_index && next_index < u32::MAX,
    }
}

/// Whether a session's end installs a coin into these coins: it carries a
/// coin that fits and whose statecoin the wallet does not hold yet under
/// the same key share.
pub open spec fn spec_installs_into(
    coins: Seq<CoinView>,
    next_index: u32,
    choice: CoinChoice,
    action: ReceiveAction,
) -> bool {
    &&& action matches ReceiveAction::Install { coin, .. }
    &&& coin@.statechain_id matches Some(statechain_id)
    &&& !spec_is_held(coins, statechain_id, coin@.user_pubkey)
    &&& spec_fits(coins, next_index, choice, coin@)
}

impl ReceiveRun {
    /// Starts a run on the wallet as it was read.
    pub fn start(wallet: Wallet) -> (run: ReceiveRun)
        ensures
            run.wallet == wallet,
            !run.result.is_there_batch_locked,
            run.result.received_statechain_ids@.len() == 0,
    {
        ReceiveRun {
            wallet,
            result: TransferReceiveResult {
                is_there_batch_locked: false,
                received_statechain_ids: Vec::new(),
            },
        }
    }

    /// Picks the coin that takes a transfer sent to `auth_pubkey`, and
    /// gives a copy of it to work on.
    pub fn select(&self, auth_pubkey: &String) -> (selected: Result<(CoinChoice, Coin), Error>)
        ensures
            choice_result(selected) == spec_selected(self.wallet, auth_pubkey@),
    {
        match find_initialised(&self.wallet.coins, auth_pubkey) {
            Some(position) => Ok(
                (CoinChoice::Existing { position }, self.wallet.coins[position].duplicate()),
            ),
            None => match duplicate_coin_to_initialized_state(&self.wallet, auth_pubkey) {
                Ok(coin) => Ok((CoinChoice::Scratch, coin)),
                Err(error) => Err(error),
            },
        }
    }

    /// Whether the wallet already holds the statecoin `statechain_id` under
    /// the key share `user_pubkey`: its message was taken in before.
    pub fn already_received(&self, statechain_id: &String, user_pubkey: &String) -> (held: bool)
        ensures
            held == spec_is_held(coin_views(self.wallet.coins@), statechain_id@, user_pubkey@),
    {
        is_held(&self.wallet.coins, statechain_id, user_pubkey)
    }

    /// Takes in how a message's session ended.
    ///
    /// A coin to install goes into the wallet, its record onto the
    /// activity log and its statecoin onto the list of those received; the
    /// backup transactions to store come back. A statecoin that the wallet
    /// already holds under the same key share is not installed again. A
    /// locked batch is noted. Anything else leaves the run as it was.
    pub fn conclude(&mut self, choice: CoinChoice, action: ReceiveAction) -> (to_store: Option<
        Vec<BackupTx>,
    >)
        ensures
            final(self).wallet.name == old(self).wallet.name,
            final(self).wallet.network == old(self).wallet.network,
            final(self).wallet.seed == old(self).wallet.seed,
            final(self).wallet.tokens == old(self).wallet.tokens,
            spec_installs_into(
                coin_views(old(self).wallet.coins@),
                old(self).wallet.next_index,
                choice,
                action,
            ) ==> {
                &&& action matches ReceiveAction::Install {
                    coin,
                    activity,
                    backup_transactions,
                    ..
                }
                &&& to_store == Some(backup_transactions)
                &&& (coin_views(final(self).wallet.coins@), final(self).wallet.next_index)
                    == spec_wallet_installed(
                    coin_views(old(self).wallet.coins@),
                    old(self).wallet.next_index,
                    choice,
                    coin@,
                )
                &&& activity_views(final(self).wallet.activities@) == activity_views(
                    old(self).wallet.activities@,
                ).push(activity@)
                &&& texts(final(self).result.received_statechain_ids@) == texts(
                    old(self).result.received_statechain_ids@,
                ).push(coin@.statechain_id.unwrap())
                &&& final(self).result.is_there_batch_locked
                    == old(self).result.is_there_batch_locked
            },
            !spec_installs_into(
                coin_views(old(self).wallet.coins@),
                old(self).wallet.next_index,
                choice,
                action,
            ) ==> {
                &&& to_store is None
                &&& final(self).wallet == old(self).wallet
                &&& final(self).result.received_statechain_ids
                    == old(self).result.received_statechain_ids
                &&& final(self).result.is_there_batch_locked == (
                old(self).result.is_there_batch_locked || action is BatchLocked)
            },
    {
        match action {
            ReceiveAction::Install { coin, activity, backup_transactions, result } => {
                let statechain_id = match &coin.statechain_id {
                    Some(statechain_id) => statechain_id.clone(),
                    None => { return None; },
                };
                if is_held(&self.wallet.coins, &statechain_id, &coin.user_pubkey) {
                    return None;
                }
                let ghost before = coin_views(self.wallet.coins@);
                let ghost log = activity_views(self.wallet.activities@);
                let ghost ids = texts(self.result.received_statechain_ids@);
                let ghost added = coin@;
                match choice {
                    CoinChoice::Existing { position } => {
                        if position >= self.wallet.coins.len() {
                            return None;
                        }
                        self.wallet.coins.set(position, coin);
                        assert(coin_views(self.wallet.coins@) =~= before.update(
                            position as int,
                            added,
                        ));
                    },
                    CoinChoice::Scratch => {
                        if coin.index != self.wallet.next_index || self.wallet.next_index
                            == u32::MAX {
                            return None;
                        }
                        self.wallet.coins.push(coin);
                        self.wallet.next_index = self.wallet.next_index + 1;
                        assert(coin_views(self.wallet.coins@) =~= before.push(added));
                    },
                }
                let ghost record = activity@;
                self.wallet.activities.push(activity);
                assert(activity_views(self.wallet.activities@) =~= log.push(record));
                self.result.received_statechain_ids.push(statechain_id);
                assert(texts(self.result.received_statechain_ids@) =~= ids.push(
                    added.statechain_id.unwrap(),
                ));
                Some(backup_transactions)
            },
            ReceiveAction::BatchLocked { .. } => {
                self.result.is_there_batch_locked = true;
                None
            },
            _ => None,
        }
    }

    /// Ends the run: the wallet to write back, and what the run came to.
    pub fn finish(self) -> (ended: (Wallet, TransferReceiveResult))
        ensures
            ended.0 == self.wallet,
            ended.1 == self.result,
    {
        (self.wallet, self.result)
    }
}

/// Taking in a message twice changes nothing the second time: once the
/// wallet holds a statecoin under a key share, a session that ends with
/// that statecoin under that key share installs nothing.
pub proof fn lemma_replay_installs_nothing(
    coins: Seq<CoinView>,
    next_index: u32,
    choice: CoinChoice,
    action: ReceiveAction,
)
    requires
        action matches ReceiveAction::Install { coin, .. } && coin@.statechain_id matches Some(
            statechain_id,
        ) && spec_is_held(coins, statechain_id, coin@.user_pubkey),
    ensures
        !spec_installs_into(coins, next_index, choice, action),
{
}

/// After a coin is installed every derivation index still lies below the
/// wallet's counter: a coin made for the occasion sits at the counter,
/// which moves past it, and a coin in its place keeps its index.
pub proof fn lemma_install_keeps_indices_below(
    coins: Seq<CoinView>,
    next_index: u32,
    choice: CoinChoice,
    coin: CoinView,
)
    requires
        crate::wallet::spec_indices_below(coins, next_index),
        spec_fits(coins, next_index, choice, coin),
        choice matches CoinChoice::Existing { position } ==> coin.index == coins[position as int].index,
    ensures
        crate::wallet::spec_indices_below(
            spec_wallet_installed(coins, next_index, choice, coin).0,
            spec_wallet_installed(coins, next_index, choice, coin).1,
        ),
        choice is Scratch ==> forall|i: int|
            0 <= i < coins.len() ==> (#[trigger] coins[i]).index != coin.index,
{
    let after = spec_wallet_installed(coins, next_index, choice, coin).0;
    let counter = spec_wallet_installed(coins, next_index, choice, coin).1;
    assert forall|i: int| 0 <= i < after.len() implies (#[trigger] after[i]).index < counter by {
        match choice {
            CoinChoice::Existing { position } => {
                if i != position {
                    assert(after[i] == coins[i]);
                }
            },
            CoinChoice::Scratch => {
                if i < coins.len() {
                    assert(after[i] == coins[i]);
                }
            },
        }
    }
}

/// After a coin is installed the wallet holds its statecoin under its key
/// share, and the coins of the wallet are still distinct.
pub proof fn lemma_install_keeps_coins_distinct(
    coins: Seq<CoinView>,
    next_index: u32,
    choice: CoinChoice,
    coin: CoinView,
)
    requires
        spec_coins_distinct(coins),
        spec_fits(coins, next_index, choice, coin),
        coin.statechain_id matches Some(statechain_id) && !spec_is_held(
            coins,
            statechain_id,
            coin.user_pubkey,
        ),
    ensures
        spec_coins_distinct(spec_wallet_installed(coins, next_index, choice, coin).0),
        spec_is_held(
            spec_wallet_installed(coins, next_index, choice, coin).0,
            coin.statechain_id.unwrap(),
            coin.user_pubkey,
        ),
{
    let after = spec_wallet_installed(coins, next_index, choice, coin).0;
    let statechain_id = coin.statechain_id.unwrap();
    let place: int = match choice {
        CoinChoice::Existing { position } => position as int,
        CoinChoice::Scratch => coins.len() as int,
    };
    assert(after[place] == coin);
    assert(spec_holds(after[place], statechain_id, coin.user_pubkey));
    assert forall|i: int, j: int|
        0 <= i < j < after.len() && (#[trigger] after[i]).statechain_id is Some
            && after[i].statechain_id == (#[trigger] after[j]).statechain_id implies after[i].user_pubkey
        != after[j].user_pubkey by {
        if i != place && j != place {
            assert(after[i] == coins[i] && after[j] == coins[j]);
        } else if i == place {
            assert(after[j] == coins[j]);
            assert(!spec_holds(coins[j], statechain_id, coin.user_pubkey));
        } else {
            assert(after[i] == coins[i]);
            assert(!spec_holds(coins[i], statechain_id, coin.user_pubkey));
        }
    }
}

} // verus!
