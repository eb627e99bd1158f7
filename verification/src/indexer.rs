//! What the wallet concludes from an indexer's answers.

use vstd::prelude::*;
use crate::error::{Entity, Error};
use crate::primitives::{hex_encode, spec_hex_encode};
use crate::status::CoinStatus;
use crate::tx::{TxOutpoint, TxOutpointView};

verus! {

/// An unspent output as an indexer reports it.
#[derive(Clone, Debug, PartialEq, Eq)]
pub struct UnspentOutput {
    /// The id of the transaction that holds the output.
    pub tx_hash: String,
    /// The output's position in that transaction.
    pub tx_pos: u32,
    /// The height of the block that holds the transaction; zero while it
    /// waits in the mempool.
    pub height: u64,
    /// The output's value in satoshis.
    pub value: u64,
}

/// An `UnspentOutput` as a mathematical value.
pub struct UnspentOutputView {
    pub tx_hash: Seq<char>,
    pub tx_pos: u32,
    pub height: u64,
    pub value: u64,
}

impl View for UnspentOutput {
    type V = UnspentOutputView;

    open spec fn view(&self) -> UnspentOutputView {
        UnspentOutputView {
            tx_hash: self.tx_hash@,
            tx_pos: self.tx_pos,
            height: self.height,
            value: self.value,
        }
    }
}

/// The views of a list of unspent outputs, in order.
pub open spec fn unspent_views(unspent: Seq<UnspentOutput>) -> Seq<UnspentOutputView> {
    Seq::new(unspent.len(), |i: int| unspent[i]@)
}

/// The confirmations of a transaction in the block at `height` when the
/// chain's tip is at `tip`: none while it is in the mempool or above the
/// tip, else one for its own block and one for each block after it.
pub open spec fn spec_confirmations(height: u64, tip: u64) -> int {
    if height == 0 || height > tip {
        0
    } else {
        tip - height + 1
    }
}

/// The confirmations of a transaction at `height` under a tip at `tip`.
pub fn confirmations(height: u64, tip: u64) -> (count: u64)
    ensures
        count == spec_confirmations(height, tip),
{
    if height == 0 || height > tip {
        0
    } else {
        tip - height + 1
    }
}

/// Whether an unspent output is the one at `outpoint`.
pub open spec fn spec_is_outpoint(unspent: UnspentOutputView, outpoint: TxOutpointView) -> bool {
    unspent.tx_hash == outpoint.txid && unspent.tx_pos == outpoint.vout
}

/// The status that a number of confirmations earns against a target.
pub open spec fn spec_status_for(confirmations: int, target: u32) -> CoinStatus {
    if confirmations >= target {
        CoinStatus::Confirmed
    } else {
        CoinStatus::Unconfirmed
    }
}

/// Whether the output at `outpoint` is among the unspent outputs, and the
/// status that the first such entry earns: confirmed where its
/// confirmations reach `target`, else unconfirmed. Without such an entry
/// the output counts as spent and the status as unconfirmed.
pub open spec fn spec_unspent_status(
    unspent: Seq<UnspentOutputView>,
    outpoint: TxOutpointView,
    tip: u64,
    target: u32,
) -> (bool, CoinStatus)
    decreases unspent.len(),
{
    if unspent.len() == 0 {
        (false, CoinStatus::Unconfirmed)
    } else if spec_is_outpoint(unspent[0], outpoint) {
        (true, spec_status_for(spec_confirmations(unspent[0].height, tip), target))
    } else {
        spec_unspent_status(unspent.drop_first(), outpoint, tip, target)
    }
}

/// Looks for the funding output among the unspent outputs that an indexer
/// reports for its script, and tells whether it is there and which status
/// its confirmations earn at chain tip `blockheight`.
pub fn verify_tx0_output_is_unspent_and_confirmed(
    unspent: &Vec<UnspentOutput>,
    tx0_outpoint: &TxOutpoint,
    blockheight: u64,
    confirmation_target: u32,
) -> (found: (bool, CoinStatus))
    ensures
        found == spec_unspent_status(
            unspent_views(unspent@),
            tx0_outpoint@,
            blockheight,
            confirmation_target,
        ),
{
    let ghost all = unspent_views(unspent@);
    let mut i: usize = 0;
    assert(all.skip(0) =~= all);
    while i < unspent.len()
        invariant
            0 <= i <= unspent@.len(),
            all == unspent_views(unspent@),
            spec_unspent_status(all, tx0_outpoint@, blockheight, confirmation_target)
                == spec_unspent_status(
                all.skip(i as int),
                tx0_outpoint@,
                blockheight,
                confirmation_target,
            ),
        decreases unspent@.len() - i,
    {
        assert(all.skip(i as int)[0] == unspent@[i as int]@);
        assert(all.skip(i as int).drop_first() =~= all.skip(i + 1));
        if unspent[i].tx_hash == tx0_outpoint.txid && unspent[i].tx_pos == tx0_outpoint.vout {
            let count = confirmations(unspent[i].height, blockheight);
            if count >= confirmation_target as u64 {
                return (true, CoinStatus::Confirmed);
            } else {
                return (true, CoinStatus::Unconfirmed);
            }
        }
        i = i + 1;
    }
    assert(all.skip(i as int).len() == 0);
    (false, CoinStatus::Unconfirmed)
}

/// A funding output that is found confirmed is among the reported unspent
/// outputs, with confirmations that reach the target.
pub proof fn lemma_confirmed_output_is_reported(
    unspent: Seq<UnspentOutputView>,
    outpoint: TxOutpointView,
    tip: u64,
    target: u32,
)
    requires
        spec_unspent_status(unspent, outpoint, tip, target) == (true, CoinStatus::Confirmed),
    ensures
        exists|i: int|
            0 <= i < unspent.len() && spec_is_outpoint(#[trigger] unspent[i], outpoint)
                && spec_confirmations(unspent[i].height, tip) >= target,
    decreases unspent.len(),
{
    if spec_is_outpoint(unspent[0], outpoint) {
        assert(spec_is_outpoint(unspent[0], outpoint) && spec_confirmations(unspent[0].height, tip)
            >= target);
    } else {
        let rest = unspent.drop_first();
        lemma_confirmed_output_is_reported(rest, outpoint, tip, target);
        let i = choose|i: int|
            0 <= i < rest.len() && spec_is_outpoint(#[trigger] rest[i], outpoint)
                && spec_confirmations(rest[i].height, tip) >= target;
        assert(rest[i] == unspent[i + 1]);
    }
}

/// No two of the reported outputs are the same output.
pub open spec fn spec_reports_distinct(unspent: Seq<UnspentOutputView>) -> bool {
    forall|i: int, j: int|
        0 <= i < j < unspent.len() ==> !((#[trigger] unspent[i]).tx_hash == (
        #[trigger] unspent[j]).tx_hash && unspent[i].tx_pos == unspent[j].tx_pos)
}

/// Where an indexer reports no output twice, a funding output that is
/// found confirmed matches exactly one of the reported outputs.
pub proof fn lemma_confirmed_output_is_reported_once(
    unspent: Seq<UnspentOutputView>,
    outpoint: TxOutpointView,
    tip: u64,
    target: u32,
)
    requires
        spec_reports_distinct(unspent),
        spec_unspent_status(unspent, outpoint, tip, target) == (true, CoinStatus::Confirmed),
    ensures
        exists|i: int|
            0 <= i < unspent.len() && spec_is_outpoint(#[trigger] unspent[i], outpoint)
                && spec_confirmations(unspent[i].height, tip) >= target && forall|j: int|
                0 <= j < unspent.len() && j != i ==> !spec_is_outpoint(
                    #[trigger] unspent[j],
                    outpoint,
                ),
{
    lemma_confirmed_output_is_reported(unspent, outpoint, tip, target);
    let i = choose|i: int|
        0 <= i < unspent.len() && spec_is_outpoint(#[trigger] unspent[i], outpoint)
            && spec_confirmations(unspent[i].height, tip) >= target;
    assert forall|j: int| 0 <= j < unspent.len() && j != i implies !spec_is_outpoint(
        #[trigger] unspent[j],
        outpoint,
    ) by {
        if j < i {
            assert(!(unspent[j].tx_hash == unspent[i].tx_hash && unspent[j].tx_pos
                == unspent[i].tx_pos));
        } else {
            assert(!(unspent[i].tx_hash == unspent[j].tx_hash && unspent[i].tx_pos
                == unspent[j].tx_pos));
        }
    }
}

/// Whether the reported outputs that hold `amount` satoshis are those at
/// `outpoint`: the funding output is reported with the coin's amount, and
/// nothing else of that amount was paid to the coin's address.
pub open spec fn spec_amount_marks_outpoint(
    unspent: Seq<UnspentOutputView>,
    outpoint: TxOutpointView,
    amount: u64,
) -> bool {
    forall|i: int|
        0 <= i < unspent.len() ==> ((#[trigger] unspent[i]).value == amount <==> spec_is_outpoint(
            unspent[i],
            outpoint,
        ))
}

/// A confirmed coin is reported once: where an indexer reports no output
/// twice and the coin's amount was paid to its address by the funding
/// output alone, exactly one of the outputs reported for the address holds
/// the coin's amount, and that one is the funding output, with
/// confirmations that reach the target.
pub proof fn lemma_confirmed_coin_is_reported_once(
    unspent: Seq<UnspentOutputView>,
    outpoint: TxOutpointView,
    amount: u64,
    tip: u64,
    target: u32,
)
    requires
        spec_reports_distinct(unspent),
        spec_amount_marks_outpoint(unspent, outpoint, amount),
        spec_unspent_status(unspent, outpoint, tip, target) == (true, CoinStatus::Confirmed),
    ensures
        exists|i: int|
            0 <= i < unspent.len() && (#[trigger] unspent[i]).value == amount && spec_is_outpoint(
                unspent[i],
                outpoint,
            ) && spec_confirmations(unspent[i].height, tip) >= target && forall|j: int|
                0 <= j < unspent.len() && j != i ==> (#[trigger] unspent[j]).value != amount,
{
    lemma_confirmed_output_is_reported_once(unspent, outpoint, tip, target);
    let i = choose|i: int|
        0 <= i < unspent.len() && spec_is_outpoint(#[trigger] unspent[i], outpoint)
            && spec_confirmations(unspent[i].height, tip) >= target && forall|j: int|
            0 <= j < unspent.len() && j != i ==> !spec_is_outpoint(#[trigger] unspent[j], outpoint);
    assert(unspent[i].value == amount);
    assert forall|j: int| 0 <= j < unspent.len() && j != i implies (#[trigger] unspent[j]).value
        != amount by {
        assert(!spec_is_outpoint(unspent[j], outpoint));
    }
}

/// The position of the first unspent output of exactly `amount` satoshis.
pub open spec fn spec_find_funding(unspent: Seq<UnspentOutputView>, amount: u64) -> Option<int>
    decreases unspent.len(),
{
    if unspent.len() == 0 {
        None
    } else if unspent[0].value == amount {
        Some(0)
    } else {
        match spec_find_funding(unspent.drop_first(), amount) {
            Some(i) => Some(i + 1),
            None => None,
        }
    }
}

/// Looks among the unspent outputs of a deposit address for the first that
/// holds exactly the amount that was to be deposited.
pub fn find_funding(unspent: &Vec<UnspentOutput>, amount: u64) -> (position: Option<usize>)
    ensures
        match position {
            Some(i) => spec_find_funding(unspent_views(unspent@), amount) == Some(i as int) && i
                < unspent@.len() && unspent@[i as int].value == amount,
            None => spec_find_funding(unspent_views(unspent@), amount) is None,
        },
{
    let ghost all = unspent_views(unspent@);
    let mut i: usize = 0;
    assert(all.skip(0) =~= all);
    while i < unspent.len()
        invariant
            0 <= i <= unspent@.len(),
            all == unspent_views(unspent@),
            spec_find_funding(all, amount) == match spec_find_funding(all.skip(i as int), amount) {
                Some(k) => Some(k + i),
                None => None,
            },
        decreases unspent@.len() - i,
    {
        assert(all.skip(i as int)[0] == unspent@[i as int]@);
        assert(all.skip(i as int).drop_first() =~= all.skip(i + 1));
        if unspent[i].value == amount {
            return Some(i);
        }
        i = i + 1;
    }
    assert(all.skip(i as int).len() == 0);
    None
}

/// The funding transaction in hex, from the raw transactions that an
/// indexer gave for its id: the first of them.
pub open spec fn spec_tx0_hex(transactions: Seq<Seq<u8>>) -> Result<Seq<char>, Error> {
    if transactions.len() == 0 {
        Err(Error::NotFound { entity: Entity::FundingTransaction })
    } else {
        Ok(spec_hex_encode(transactions[0]))
    }
}

/// The funding transaction in hex, or `NotFound` where the indexer gave no
/// transaction for its id.
pub fn get_tx0(transactions: &Vec<Vec<u8>>) -> (tx0_hex: Result<String, Error>)
    ensures
        crate::receiver::text_result(tx0_hex) == spec_tx0_hex(
            Seq::new(transactions@.len(), |i: int| transactions@[i]@),
        ),
{
    if transactions.len() == 0 {
        return Err(Error::NotFound { entity: Entity::FundingTransaction });
    }
    Ok(hex_encode(transactions[0].as_slice()))
}

} // verus!
