//! The lifecycle of a statecoin.

use vstd::prelude::*;

verus! {

/// The state of a coin in the wallet.
#[derive(Clone, Copy, Debug, PartialEq, Eq, Structural)]
pub enum CoinStatus {
    /// Keys are derived; no funding output has been seen.
    Initialised,
    /// The funding transaction is in the mempool.
    InMempool,
    /// The funding transaction is in a block, below the confirmation target.
    Unconfirmed,
    /// The funding transaction has reached the confirmation target.
    Confirmed,
    /// The coin was sent; the receiver has not taken it yet.
    InTransfer,
    /// A withdrawal was started.
    Withdrawing,
    /// The coin has left the wallet.
    Withdrawn,
}

/// What can happen to a coin.
#[derive(Clone, Copy, Debug, PartialEq, Eq, Structural)]
pub enum CoinEvent {
    /// The funding transaction appeared in the mempool.
    FundingSeen,
    /// The funding transaction was included in the chain tip.
    TipInclusion,
    /// The funding transaction reached the confirmation target.
    Confirmations,
    /// The owner sent the coin to a receiver.
    TransferSent,
    /// The receiver took the coin.
    ReceiverAcks,
    /// The owner started a withdrawal.
    Withdraw,
    /// The withdrawal transaction was seen on the network.
    BroadcastSeen,
    /// A transfer was received and the funding output has `confirmed` or not
    /// reached the confirmation target.
    ReceiveOk { confirmed: bool },
}

/// The state that follows `status` on `event`, if the event is permitted there.
pub open spec fn spec_transition(status: CoinStatus, event: CoinEvent) -> Option<CoinStatus> {
    match (status, event) {
        (CoinStatus::Initialised, CoinEvent::FundingSeen) => Some(CoinStatus::InMempool),
        (CoinStatus::InMempool, CoinEvent::TipInclusion) => Some(CoinStatus::Unconfirmed),
        (CoinStatus::Unconfirmed, CoinEvent::Confirmations) => Some(CoinStatus::Confirmed),
        (CoinStatus::Confirmed, CoinEvent::TransferSent) => Some(CoinStatus::InTransfer),
        (CoinStatus::InTransfer, CoinEvent::ReceiverAcks) => Some(CoinStatus::Withdrawn),
        (CoinStatus::Confirmed, CoinEvent::Withdraw) => Some(CoinStatus::Withdrawing),
        (CoinStatus::Withdrawing, CoinEvent::BroadcastSeen) => Some(CoinStatus::Withdrawn),
        (CoinStatus::Initialised, CoinEvent::ReceiveOk { confirmed }) => Some(
            if confirmed {
                CoinStatus::Confirmed
            } else {
                CoinStatus::Unconfirmed
            },
        ),
        _ => None,
    }
}

/// Applies `event` to `status`: the next state, or `None` where the event is
/// not permitted in that state.
pub fn transition(status: CoinStatus, event: CoinEvent) -> (next: Option<CoinStatus>)
    ensures
        next == spec_transition(status, event),
{
    match (status, event) {
        (CoinStatus::Initialised, CoinEvent::FundingSeen) => Some(CoinStatus::InMempool),
        (CoinStatus::InMempool, CoinEvent::TipInclusion) => Some(CoinStatus::Unconfirmed),
        (CoinStatus::Unconfirmed, CoinEvent::Confirmations) => Some(CoinStatus::Confirmed),
        (CoinStatus::Confirmed, CoinEvent::TransferSent) => Some(CoinStatus::InTransfer),
        (CoinStatus::InTransfer, CoinEvent::ReceiverAcks) => Some(CoinStatus::Withdrawn),
        (CoinStatus::Confirmed, CoinEvent::Withdraw) => Some(CoinStatus::Withdrawing),
        (CoinStatus::Withdrawing, CoinEvent::BroadcastSeen) => Some(CoinStatus::Withdrawn),
        (CoinStatus::Initialised, CoinEvent::ReceiveOk { confirmed }) => {
            if confirmed {
                Some(CoinStatus::Confirmed)
            } else {
                Some(CoinStatus::Unconfirmed)
            }
        },
        _ => None,
    }
}

/// No event leads out of the withdrawn state.
pub proof fn lemma_withdrawn_is_terminal(event: CoinEvent)
    ensures
        spec_transition(CoinStatus::Withdrawn, event) is None,
{
}

/// No event leads back to the initialised state, and only the receipt of
/// a transfer or the last confirmation makes a coin confirmed.
pub proof fn lemma_transitions_move_forward(status: CoinStatus, event: CoinEvent)
    ensures
        spec_transition(status, event) != Some(CoinStatus::Initialised),
        spec_transition(status, event) == Some(CoinStatus::Confirmed) ==> (status
            == CoinStatus::Unconfirmed && event == CoinEvent::Confirmations) || (status
            == CoinStatus::Initialised && event == (CoinEvent::ReceiveOk { confirmed: true })),
{
}

} // verus!
