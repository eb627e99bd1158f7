use statecoin::status::{transition, CoinEvent, CoinStatus};

#[test]
fn funding_moves_an_initialised_coin_to_the_mempool() {
    assert_eq!(
        transition(CoinStatus::Initialised, CoinEvent::FundingSeen),
        Some(CoinStatus::InMempool)
    );
}

#[test]
fn withdrawn_is_terminal() {
    let events = [
        CoinEvent::FundingSeen,
        CoinEvent::TipInclusion,
        CoinEvent::Confirmations,
        CoinEvent::TransferSent,
        CoinEvent::ReceiverAcks,
        CoinEvent::Withdraw,
        CoinEvent::BroadcastSeen,
        CoinEvent::ReceiveOk { confirmed: true },
        CoinEvent::ReceiveOk { confirmed: false },
    ];
    for event in events {
        assert_eq!(transition(CoinStatus::Withdrawn, event), None);
    }
}
