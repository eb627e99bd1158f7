use statecoin::backup::backup_terms;
use statecoin::cpfp::{child_value, CPFP_TX_VSIZE, DUST_LIMIT};
use statecoin::entity::{
    is_success, send_transfer_receiver_request_payload, unlock_statecoin, ReceiverResponse,
    TransferReceiveRequestResult,
};
use statecoin::error::{CryptoItem, Entity, Error, ServerCode, TransferReceiverError, ValidationStep};
use statecoin::fee::{capped_rate, fee_within_tolerance, rate_per_vbyte};
use statecoin::indexer::{
    confirmations, find_funding, get_tx0, verify_tx0_output_is_unspent_and_confirmed,
    UnspentOutput,
};
use statecoin::locktime::{is_expired, next_locktime};
use statecoin::status::{transition, CoinEvent, CoinStatus};
use statecoin::store::BackupStore;
use statecoin::tx::{bytes_equal, is_p2tr, p2tr_output_key, TxOutpoint};
use statecoin::wallet::BackupTx;

#[test]
fn the_lifecycle_allows_the_listed_transitions_and_no_others() {
    let states = [
        CoinStatus::Initialised,
        CoinStatus::InMempool,
        CoinStatus::Unconfirmed,
        CoinStatus::Confirmed,
        CoinStatus::InTransfer,
        CoinStatus::Withdrawing,
        CoinStatus::Withdrawn,
    ];
    let events = [
        CoinEvent::FundingSeen,
        CoinEvent::TipInclusion,
        CoinEvent::Confirmations,
        CoinEvent::TransferSent,
        CoinEvent::ReceiverAcks,
        CoinEvent::Withdraw,
        CoinEvent::BroadcastSeen,
        CoinEvent::ReceiveOk { confirmed: true },
        CoinEvent::ReceiveOk { confirmed: false },
    ];
    let allowed = [
        (CoinStatus::Initialised, CoinEvent::FundingSeen, CoinStatus::InMempool),
        (CoinStatus::InMempool, CoinEvent::TipInclusion, CoinStatus::Unconfirmed),
        (CoinStatus::Unconfirmed, CoinEvent::Confirmations, CoinStatus::Confirmed),
        (CoinStatus::Confirmed, CoinEvent::TransferSent, CoinStatus::InTransfer),
        (CoinStatus::InTransfer, CoinEvent::ReceiverAcks, CoinStatus::Withdrawn),
        (CoinStatus::Confirmed, CoinEvent::Withdraw, CoinStatus::Withdrawing),
        (CoinStatus::Withdrawing, CoinEvent::BroadcastSeen, CoinStatus::Withdrawn),
        (CoinStatus::Initialised, CoinEvent::ReceiveOk { confirmed: true }, CoinStatus::Confirmed),
        (CoinStatus::Initialised, CoinEvent::ReceiveOk { confirmed: false }, CoinStatus::Unconfirmed),
    ];
    let mut count = 0;
    for state in states {
        for event in events {
            let expected =
                allowed.iter().find(|(from, on, _)| *from == state && *on == event).map(|t| t.2);
            assert_eq!(transition(state, event), expected);
            if expected.is_some() {
                count += 1;
            }
        }
    }
    assert_eq!(count, 9);
}

#[test]
fn the_first_backup_is_locked_above_the_tip() {
    assert_eq!(next_locktime(800_000, 6, 1_000, None), Ok(801_000));
    assert_eq!(next_locktime(0, 6, 0, None), Ok(0));
}

#[test]
fn each_backup_is_locked_one_interval_earlier() {
    assert_eq!(next_locktime(100, 10, 1_000, Some(500)), Ok(490));
    assert_eq!(next_locktime(490, 10, 1_000, Some(500)), Ok(490));
    assert_eq!(next_locktime(491, 10, 1_000, Some(500)), Err(Error::LocktimeExhausted));
    assert_eq!(next_locktime(100, 10, 1_000, Some(5)), Err(Error::LocktimeExhausted));
}

#[test]
fn a_backup_locked_at_the_interval_has_no_successor() {
    assert_eq!(next_locktime(1, 144, 1_000, Some(144)), Err(Error::LocktimeExhausted));
    assert_eq!(next_locktime(700_000, 144, 1_000, Some(144)), Err(Error::LocktimeExhausted));
    assert_eq!(next_locktime(0, 144, 1_000, Some(144)), Ok(0));
}

#[test]
fn a_coin_expires_when_the_tip_reaches_its_lock_time() {
    assert!(!is_expired(500, 499));
    assert!(is_expired(500, 500));
    assert!(is_expired(500, 501));
}

#[test]
fn fees_within_tolerance_are_accepted() {
    assert!(fee_within_tolerance(1_110, 10, 0, 111));
    assert!(!fee_within_tolerance(1_111, 10, 0, 111));
    assert!(!fee_within_tolerance(1_109, 10, 0, 111));
    assert!(fee_within_tolerance(12 * 111, 10, 2, 111));
    assert!(!fee_within_tolerance(12 * 111 + 1, 10, 2, 111));
    assert!(!fee_within_tolerance(13 * 111, 10, 2, 111));
    assert!(fee_within_tolerance(8 * 111, 10, 2, 111));
    assert!(!fee_within_tolerance(8 * 111 - 1, 10, 2, 111));
    assert!(fee_within_tolerance(0, 1, 5, 111));
    assert!(fee_within_tolerance(u64::MAX, u32::MAX, u32::MAX, u64::MAX));
    assert!(fee_within_tolerance(0, 7, 3, 0));
    assert!(!fee_within_tolerance(1, 7, 3, 0));
}

#[test]
fn rates_are_rounded_down_and_capped() {
    assert_eq!(rate_per_vbyte(1_999), 1);
    assert_eq!(rate_per_vbyte(2_000), 2);
    assert_eq!(rate_per_vbyte(999), 0);
    assert_eq!(capped_rate(7, 5), 5);
    assert_eq!(capped_rate(4, 5), 4);
    assert_eq!(capped_rate(5, 5), 5);
}

#[test]
fn backup_terms_follow_the_rules() {
    assert_eq!(backup_terms(100, 10, 1_000, None, 50_000, 3, 112), Ok((1_100, 50_000 - 336)));
    assert_eq!(backup_terms(100, 10, 1_000, Some(500), 50_000, 3, 112), Ok((490, 49_664)));
    assert_eq!(
        backup_terms(495, 10, 1_000, Some(500), 50_000, 3, 112),
        Err(Error::LocktimeExhausted)
    );
    assert_eq!(backup_terms(100, 10, 1_000, None, 336, 3, 112), Err(Error::InsufficientValue));
    assert_eq!(backup_terms(100, 10, 1_000, None, 337, 3, 112), Ok((1_100, 1)));
    assert_eq!(
        backup_terms(100, 10, 1_000, None, u64::MAX, u32::MAX, u64::MAX),
        Err(Error::InsufficientValue)
    );
}

#[test]
fn the_child_pays_what_the_parent_owes() {
    assert_eq!(CPFP_TX_VSIZE, 111);
    assert_eq!(DUST_LIMIT, 330);
    // the parent paid 333 for 111 virtual bytes; at rate 10 the two owe 2220
    assert_eq!(child_value(49_667, 333, 111, 111, 10), Ok(49_667 - (2_220 - 333)));
    // a parent that paid enough leaves the child nothing to add
    assert_eq!(child_value(49_667, 5_000, 111, 111, 10), Ok(49_667));
    assert_eq!(child_value(2_217, 333, 111, 111, 10), Ok(330));
    assert_eq!(child_value(2_216, 333, 111, 111, 10), Err(Error::InsufficientValue));
    assert_eq!(child_value(100, 333, 111, 111, 10), Err(Error::InsufficientValue));
    assert_eq!(child_value(329, 0, 111, 111, 0), Err(Error::InsufficientValue));
    assert_eq!(
        child_value(u64::MAX, 0, u64::MAX, u64::MAX, u64::MAX),
        Err(Error::InsufficientValue)
    );
}

fn unspent(hash: &str, pos: u32, height: u64, value: u64) -> UnspentOutput {
    UnspentOutput { tx_hash: hash.to_string(), tx_pos: pos, height, value }
}

#[test]
fn confirmations_count_from_the_block_of_the_transaction() {
    assert_eq!(confirmations(0, 100), 0);
    assert_eq!(confirmations(100, 100), 1);
    assert_eq!(confirmations(95, 100), 6);
    assert_eq!(confirmations(101, 100), 0);
    assert_eq!(confirmations(1, u64::MAX), u64::MAX);
}

#[test]
fn the_funding_output_is_found_among_the_unspent() {
    let outpoint = TxOutpoint { txid: "aa".to_string(), vout: 1 };
    let list = vec![
        unspent("aa", 0, 90, 5),
        unspent("bb", 1, 90, 5),
        unspent("aa", 1, 98, 5),
        unspent("aa", 1, 90, 5),
    ];
    assert_eq!(
        verify_tx0_output_is_unspent_and_confirmed(&list, &outpoint, 100, 3),
        (true, CoinStatus::Confirmed)
    );
    assert_eq!(
        verify_tx0_output_is_unspent_and_confirmed(&list, &outpoint, 100, 4),
        (true, CoinStatus::Unconfirmed)
    );
    assert_eq!(
        verify_tx0_output_is_unspent_and_confirmed(&list[..2].to_vec(), &outpoint, 100, 3),
        (false, CoinStatus::Unconfirmed)
    );
    assert_eq!(
        verify_tx0_output_is_unspent_and_confirmed(&Vec::new(), &outpoint, 100, 0),
        (false, CoinStatus::Unconfirmed)
    );
    let waiting = vec![unspent("aa", 1, 0, 5)];
    assert_eq!(
        verify_tx0_output_is_unspent_and_confirmed(&waiting, &outpoint, 100, 1),
        (true, CoinStatus::Unconfirmed)
    );
}

#[test]
fn a_confirmed_coin_is_reported_once_with_its_amount() {
    let outpoint = TxOutpoint { txid: "aa".to_string(), vout: 1 };
    let list = vec![unspent("aa", 0, 90, 4), unspent("aa", 1, 95, 5), unspent("bb", 1, 90, 6)];
    assert_eq!(
        verify_tx0_output_is_unspent_and_confirmed(&list, &outpoint, 100, 6),
        (true, CoinStatus::Confirmed)
    );
    let holding: Vec<&UnspentOutput> = list.iter().filter(|u| u.value == 5).collect();
    assert_eq!(holding.len(), 1);
    assert_eq!((holding[0].tx_hash.as_str(), holding[0].tx_pos), ("aa", 1));
    assert_eq!(find_funding(&list, 5), Some(1));
}

#[test]
fn a_deposit_is_found_by_its_amount() {
    let list = vec![unspent("aa", 0, 0, 5), unspent("bb", 1, 0, 7), unspent("cc", 2, 0, 7)];
    assert_eq!(find_funding(&list, 7), Some(1));
    assert_eq!(find_funding(&list, 5), Some(0));
    assert_eq!(find_funding(&list, 6), None);
    assert_eq!(find_funding(&Vec::new(), 6), None);
}

#[test]
fn the_funding_transaction_is_given_in_hex() {
    assert_eq!(get_tx0(&vec![vec![0x00, 0x0f, 0xa5, 0xff], vec![1]]), Ok("000fa5ff".to_string()));
    assert_eq!(get_tx0(&vec![Vec::new()]), Ok(String::new()));
    assert_eq!(get_tx0(&Vec::new()), Err(Error::NotFound { entity: Entity::FundingTransaction }));
}

fn response(status: u16, code: Option<TransferReceiverError>, key: Option<&str>) -> ReceiverResponse {
    ReceiverResponse {
        status,
        code,
        message: None,
        server_pubkey: key.map(|k| k.to_string()),
        body: "what the entity said".to_string(),
    }
}

fn refused(code: ServerCode) -> Result<TransferReceiveRequestResult, Error> {
    Err(Error::SEProtocolError { code, message: "what the entity said".to_string() })
}

#[test]
fn the_entitys_answer_to_a_receiver_is_read() {
    assert_eq!(
        send_transfer_receiver_request_payload(response(200, None, Some("02ab"))),
        Ok(TransferReceiveRequestResult {
            is_batch_locked: false,
            server_pubkey: Some("02ab".to_string())
        })
    );
    assert_eq!(
        send_transfer_receiver_request_payload(response(
            400,
            Some(TransferReceiverError::StatecoinBatchLockedError),
            None
        )),
        Ok(TransferReceiveRequestResult { is_batch_locked: true, server_pubkey: None })
    );
    assert_eq!(
        send_transfer_receiver_request_payload(response(
            400,
            Some(TransferReceiverError::ExpiredBatchTimeError),
            None
        )),
        refused(ServerCode::ExpiredBatchTime)
    );
    assert_eq!(
        send_transfer_receiver_request_payload(response(400, None, Some("02ab"))),
        refused(ServerCode::Status(400))
    );
    assert_eq!(
        send_transfer_receiver_request_payload(response(200, None, None)),
        refused(ServerCode::Status(200))
    );
    assert_eq!(
        send_transfer_receiver_request_payload(response(503, None, Some("02ab"))),
        refused(ServerCode::Status(503))
    );
}

#[test]
fn an_expired_batch_is_described_by_the_entitys_message() {
    let answer = ReceiverResponse {
        status: 400,
        code: Some(TransferReceiverError::ExpiredBatchTimeError),
        message: Some("expired".to_string()),
        server_pubkey: None,
        body: "{\"code\":\"ExpiredBatchTimeError\",\"message\":\"expired\"}".to_string(),
    };
    let result = send_transfer_receiver_request_payload(answer);
    assert_eq!(
        result,
        Err(Error::SEProtocolError {
            code: ServerCode::ExpiredBatchTime,
            message: "expired".to_string()
        })
    );
    assert_eq!(result.unwrap_err().message(), "expired");
}

#[test]
fn an_unlock_succeeds_on_any_success_status() {
    assert!(is_success(200) && is_success(204) && is_success(299));
    assert!(!is_success(199) && !is_success(300) && !is_success(400));
    assert_eq!(unlock_statecoin(201), Ok(()));
    assert_eq!(
        unlock_statecoin(404),
        Err(Error::SEProtocolError {
            code: ServerCode::Status(404),
            message: "the entity refused to unlock the coin".to_string()
        })
    );
}

#[test]
fn every_kind_of_error_has_its_exit_code() {
    let errors = vec![
        Error::NetworkUnavailable,
        Error::SEProtocolError { code: ServerCode::Status(500), message: "down".to_string() },
        Error::CryptoInvalid { which: CryptoItem::Signature },
        Error::ChainValidationFailed { step: ValidationStep::Amount },
        Error::LocktimeExhausted,
        Error::PersistenceError,
        Error::NotFound { entity: Entity::Coin },
        Error::InsufficientValue,
    ];
    let codes: Vec<u8> = errors.iter().map(|e| e.exit_code()).collect();
    assert_eq!(codes, vec![1, 2, 3, 4, 5, 6, 7, 8]);
    assert_eq!(errors[1].message(), "down");
    assert!(errors[0].is_retryable());
    assert!(errors[1..].iter().all(|e| !e.is_retryable() && !e.message().is_empty()));
}

#[test]
fn taproot_scripts_are_recognised() {
    let mut script = vec![0x51, 0x20];
    script.extend_from_slice(&[7u8; 32]);
    assert!(is_p2tr(&script));
    assert_eq!(p2tr_output_key(&script), vec![7u8; 32]);
    assert!(!is_p2tr(&script[..33]));
    script[0] = 0x00;
    assert!(!is_p2tr(&script));
    assert!(bytes_equal(&[1, 2, 3], &[1, 2, 3]));
    assert!(!bytes_equal(&[1, 2, 3], &[1, 2, 4]));
    assert!(!bytes_equal(&[1, 2, 3], &[1, 2]));
    assert!(bytes_equal(&[], &[]));
}

fn row(statechain_id: &str, tx_n: u32, tx: &str) -> BackupTx {
    BackupTx {
        tx_n,
        tx: tx.to_string(),
        client_public_nonce: String::new(),
        server_public_nonce: String::new(),
        client_public_key: String::new(),
        server_public_key: String::new(),
        blinding_factor: String::new(),
        statechain_id: statechain_id.to_string(),
    }
}

#[test]
fn writing_a_row_again_replaces_it() {
    let mut store = BackupStore::new();
    store.upsert(row("a", 1, "first"));
    store.upsert(row("b", 1, "other"));
    store.upsert(row("a", 2, "second"));
    store.upsert(row("a", 1, "again"));
    assert_eq!(store.rows, vec![row("a", 1, "again"), row("b", 1, "other"), row("a", 2, "second")]);
    assert_eq!(store.count_of(&"a".to_string()), 2);
    assert_eq!(store.count_of(&"b".to_string()), 1);
    assert_eq!(store.count_of(&"c".to_string()), 0);
    assert_eq!(store.position(&"a".to_string(), 2), Some(2));
    assert_eq!(store.position(&"b".to_string(), 2), None);
    store.insert_or_update_backup_txs(&vec![row("c", 1, "x"), row("c", 2, "y"), row("c", 1, "z")]);
    assert_eq!(store.count_of(&"c".to_string()), 2);
    assert_eq!(store.rows[3], row("c", 1, "z"));
}
