use bitcoin::key::TapTweak;
use bitcoin::secp256k1::{KeyPair, Message, PublicKey, Secp256k1, SecretKey, XOnlyPublicKey};
use bitcoin::sighash::{Prevouts, SighashCache, TapSighashType};
use bitcoin::{PrivateKey, ScriptBuf, Transaction, TxOut};
use statecoin::backup::{blinded_message, new_backup_transaction, BackupRequest, BACKUP_TX_VSIZE};
use statecoin::broadcast_backup_tx::{latest_backup, record_cpfp};
use statecoin::cpfp::create;
use statecoin::error::{CryptoItem, Entity, Error, ValidationStep};
use statecoin::indexer::UnspentOutput;
use statecoin::install::{compute_t2, duplicate_coin_to_initialized_state, find_initialised};
use statecoin::keys::{
    derive_coin, new_transfer_address, parse_transfer_address, sign_message, transfer_address,
};
use statecoin::receiver::first_backup;
use statecoin::status::{CoinEvent, CoinStatus};
use statecoin::transfer_receiver::{unique_auth_pubkeys, CoinChoice, ReceiveRun};
use statecoin::transfer_sender::{
    check_transfer_send, complete_transfer_send, compute_t1, receiver_keys,
    transfer_backup_request,
};
use statecoin::tx::{Network, TxOutpoint};
use statecoin::wallet::{find_by_statechain, is_held, ActivityAction, BackupTx, Coin, Wallet};
use statecoin::withdraw::{apply_event, coin_key_details, finish_withdraw, new_tx_n};

const TXID: &str = "4a5e1e4baab89f3a32518a88c31bc87f618f76673e2cc77ab2127b7afdeda33b";

fn sha256_of(data: &[u8]) -> [u8; 32] {
    let hash = <bitcoin::hashes::sha256::Hash as bitcoin::hashes::Hash>::hash(data);
    bitcoin::hashes::Hash::to_byte_array(hash)
}

fn wallet() -> Wallet {
    Wallet {
        name: "main".to_string(),
        network: Network::Regtest,
        seed: vec![0x5a; 32],
        next_index: 0,
        coins: Vec::new(),
        activities: Vec::new(),
        tokens: Vec::new(),
    }
}

fn secret_of(wif: &str) -> SecretKey {
    PrivateKey::from_wif(wif).unwrap().inner
}

fn funded(mut coin: Coin, server_pubkey: &PublicKey) -> Coin {
    coin.server_pubkey = Some(server_pubkey.to_string());
    coin.statechain_id = Some("sid".to_string());
    coin.utxo_txid = Some(TXID.to_string());
    coin.utxo_vout = Some(1);
    coin.amount = Some(100_000);
    coin.locktime = Some(1_000);
    coin.status = CoinStatus::Confirmed;
    coin
}

fn server_key() -> PublicKey {
    PublicKey::from_secret_key(&Secp256k1::new(), &SecretKey::from_slice(&[9u8; 32]).unwrap())
}

#[test]
fn coins_are_derived_from_the_seed_and_the_index() {
    let seed = vec![0x5a; 32];
    let first = derive_coin(&seed, Network::Regtest, 0).unwrap();
    let again = derive_coin(&seed, Network::Regtest, 0).unwrap();
    let second = derive_coin(&seed, Network::Regtest, 1).unwrap();
    assert_eq!(first, again);
    assert_ne!(first.user_privkey, second.user_privkey);
    assert_ne!(first.auth_privkey, second.auth_privkey);
    assert_ne!(first.user_privkey, first.auth_privkey);
    assert_eq!(first.index, 0);
    assert_eq!(second.index, 1);
    assert_eq!(first.status, CoinStatus::Initialised);
    assert_eq!(first.statechain_id, None);
    let secp = Secp256k1::new();
    let user = PublicKey::from_secret_key(&secp, &secret_of(&first.user_privkey));
    let auth = PublicKey::from_secret_key(&secp, &secret_of(&first.auth_privkey));
    assert_eq!(first.user_pubkey, user.to_string());
    assert_eq!(first.auth_pubkey, auth.to_string());
    assert_eq!(first.address, format!("{}{}", user, auth));
    let backup = bitcoin::Address::p2tr(
        &secp,
        user.x_only_public_key().0,
        None,
        bitcoin::Network::Regtest,
    );
    assert_eq!(first.backup_address, backup.to_string());
    let master = bitcoin::bip32::ExtendedPrivKey::new_master(bitcoin::Network::Regtest, &seed).unwrap();
    let path: bitcoin::bip32::DerivationPath = "m/86'/0'/0'/0/0".parse().unwrap();
    assert_eq!(first.user_privkey, master.derive_priv(&secp, &path).unwrap().to_priv().to_wif());
    assert_eq!(derive_coin(&seed, Network::Regtest, 0x8000_0000), None);
    assert_ne!(derive_coin(&seed, Network::Bitcoin, 0).unwrap().user_privkey, first.user_privkey);
}

#[test]
fn a_new_transfer_address_adds_a_coin_and_advances_the_counter() {
    let mut wallet = wallet();
    let first = new_transfer_address(&mut wallet).unwrap();
    let second = new_transfer_address(&mut wallet).unwrap();
    assert_eq!(wallet.next_index, 2);
    assert_eq!(wallet.coins.len(), 2);
    assert_eq!(wallet.coins[0].address, first);
    assert_eq!(wallet.coins[1].address, second);
    assert_ne!(first, second);
    assert_eq!(wallet.coins[1], derive_coin(&wallet.seed, Network::Regtest, 1).unwrap());
    let mut spent = self::wallet();
    spent.next_index = 0x8000_0000;
    let before = spent.clone();
    assert_eq!(
        new_transfer_address(&mut spent),
        Err(Error::CryptoInvalid { which: CryptoItem::PrivateKey })
    );
    assert_eq!(spent, before);
}

#[test]
fn a_transfer_address_holds_both_keys() {
    let coin = derive_coin(&vec![1u8; 16], Network::Testnet, 3).unwrap();
    assert_eq!(transfer_address(&coin.user_pubkey, &coin.auth_pubkey), coin.address);
    assert_eq!(
        parse_transfer_address(&coin.address),
        Some((coin.user_pubkey.clone(), coin.auth_pubkey.clone()))
    );
    assert_eq!(receiver_keys(&coin.address), Ok((coin.user_pubkey.clone(), coin.auth_pubkey.clone())));
    assert_eq!(parse_transfer_address(&coin.user_pubkey), None);
    assert_eq!(parse_transfer_address(&String::new()), None);
    assert_eq!(
        receiver_keys(&"z".repeat(132)),
        Err(Error::CryptoInvalid { which: CryptoItem::Address })
    );
    assert_eq!(
        receiver_keys(&coin.user_pubkey),
        Err(Error::CryptoInvalid { which: CryptoItem::Address })
    );
}

#[test]
fn a_signed_message_verifies_under_the_authentication_key() {
    let coin = derive_coin(&vec![1u8; 16], Network::Regtest, 0).unwrap();
    let message = "f6c0fd2a".to_string();
    let signature = sign_message(&message, &coin).unwrap();
    let secp = Secp256k1::new();
    let parsed: bitcoin::secp256k1::schnorr::Signature = signature.parse().unwrap();
    let key: PublicKey = coin.auth_pubkey.parse().unwrap();
    let digest = Message::from_slice(&sha256_of(message.as_bytes())).unwrap();
    assert!(secp.verify_schnorr(&parsed, &digest, &key.x_only_public_key().0).is_ok());
    let mut broken = coin.clone();
    broken.auth_privkey = "no key".to_string();
    assert_eq!(
        sign_message(&message, &broken),
        Err(Error::CryptoInvalid { which: CryptoItem::PrivateKey })
    );
}

#[test]
fn mailboxes_are_the_distinct_authentication_keys() {
    let mut coins: Vec<Coin> =
        (0..3).map(|i| derive_coin(&vec![1u8; 16], Network::Regtest, i).unwrap()).collect();
    coins[2].auth_pubkey = coins[0].auth_pubkey.clone();
    coins.push(coins[1].clone());
    assert_eq!(
        unique_auth_pubkeys(&coins),
        vec![coins[0].auth_pubkey.clone(), coins[1].auth_pubkey.clone()]
    );
    assert_eq!(unique_auth_pubkeys(&Vec::new()), Vec::<String>::new());
}

#[test]
fn a_used_key_gets_a_coin_made_for_the_occasion() {
    let mut wallet = wallet();
    new_transfer_address(&mut wallet).unwrap();
    let auth = wallet.coins[0].auth_pubkey.clone();
    assert_eq!(find_initialised(&wallet.coins, &auth), Some(0));
    wallet.coins[0].status = CoinStatus::Confirmed;
    wallet.coins[0].statechain_id = Some("one".to_string());
    assert_eq!(find_initialised(&wallet.coins, &auth), None);
    let scratch = duplicate_coin_to_initialized_state(&wallet, &auth).unwrap();
    let fresh = derive_coin(&wallet.seed, Network::Regtest, 1).unwrap();
    assert_eq!(scratch.index, 1);
    assert_eq!(scratch.user_privkey, fresh.user_privkey);
    assert_eq!(scratch.user_pubkey, fresh.user_pubkey);
    assert_eq!(scratch.backup_address, fresh.backup_address);
    assert_eq!(scratch.auth_privkey, wallet.coins[0].auth_privkey);
    assert_eq!(scratch.auth_pubkey, auth);
    assert_eq!(scratch.address, format!("{}{}", fresh.user_pubkey, auth));
    assert_eq!(scratch.status, CoinStatus::Initialised);
    assert_eq!(scratch.statechain_id, None);
    assert_eq!(
        duplicate_coin_to_initialized_state(&wallet, &"unknown".to_string()),
        Err(Error::NotFound { entity: Entity::Coin })
    );
    let run = ReceiveRun::start(wallet.clone());
    assert_eq!(run.select(&auth), Ok((CoinChoice::Scratch, scratch)));
    assert_eq!(run.select(&"unknown".to_string()), Err(Error::NotFound { entity: Entity::Coin }));
    assert!(is_held(&wallet.coins, &"one".to_string(), &wallet.coins[0].user_pubkey));
    assert!(!is_held(&wallet.coins, &"two".to_string(), &wallet.coins[0].user_pubkey));
    assert!(!is_held(&wallet.coins, &"one".to_string(), &fresh.user_pubkey));
    assert_eq!(find_by_statechain(&wallet.coins, &"one".to_string()), Some(0));
    assert_eq!(find_by_statechain(&wallet.coins, &"two".to_string()), None);
}

fn request(previous: Option<u32>, height: u32, amount: u64) -> BackupRequest {
    let mut destination = vec![0x51, 0x20];
    destination.extend_from_slice(&[7u8; 32]);
    BackupRequest {
        height,
        interval: 10,
        initial_locktime: 1_000,
        previous_locktime: previous,
        outpoint: TxOutpoint { txid: TXID.to_string(), vout: 1 },
        amount,
        destination,
        fee_rate: 3,
    }
}

#[test]
fn a_backup_spends_the_funding_outpoint_to_one_output() {
    let built = new_backup_transaction(&request(None, 100, 100_000)).unwrap();
    assert_eq!(BACKUP_TX_VSIZE, 111);
    assert_eq!(built.lock_time, 1_100);
    assert_eq!(built.value, 100_000 - 3 * 111);
    let tx: Transaction = bitcoin::consensus::encode::deserialize(&built.raw).unwrap();
    assert_eq!(tx.version, 2);
    assert_eq!(tx.input.len(), 1);
    assert_eq!(tx.output.len(), 1);
    assert_eq!(tx.input[0].previous_output.txid.to_string(), TXID);
    assert_eq!(tx.input[0].previous_output.vout, 1);
    assert!(tx.input[0].witness.is_empty());
    assert!(tx.input[0].sequence.enables_absolute_lock_time());
    assert_eq!(tx.output[0].value, built.value);
    assert_eq!(tx.output[0].script_pubkey.to_bytes(), request(None, 100, 100_000).destination);
    assert_eq!(tx.lock_time.to_consensus_u32(), 1_100);
    let next = new_backup_transaction(&request(Some(1_100), 100, 100_000)).unwrap();
    assert_eq!(next.lock_time, 1_090);
}

#[test]
fn a_backup_is_refused_when_nothing_fits() {
    assert_eq!(
        new_backup_transaction(&request(Some(10), 5, 100_000)),
        Err(Error::LocktimeExhausted)
    );
    assert_eq!(
        new_backup_transaction(&request(None, 100, 333)),
        Err(Error::InsufficientValue)
    );
    let mut nowhere = request(None, 100, 100_000);
    nowhere.outpoint.txid = "12".to_string();
    assert_eq!(
        new_backup_transaction(&nowhere),
        Err(Error::CryptoInvalid { which: CryptoItem::Txid })
    );
}

#[test]
fn the_co_signer_sees_a_blinded_digest() {
    let sighash = [1u8; 32];
    let factor = [2u8; 32];
    let mut joined = sighash.to_vec();
    joined.extend_from_slice(&factor);
    assert_eq!(blinded_message(&sighash, &factor), sha256_of(&joined).to_vec());
    assert_ne!(blinded_message(&sighash, &factor), blinded_message(&sighash, &[3u8; 32]));
}

fn backup_paying_to(coin: &Coin, value: u64, tx_n: u32) -> BackupTx {
    let key: PublicKey = coin.user_pubkey.parse().unwrap();
    let script = ScriptBuf::new_v1_p2tr(&Secp256k1::new(), key.x_only_public_key().0, None);
    let mut spend = request(None, 100, 100_000);
    spend.destination = script.to_bytes();
    spend.fee_rate = 0;
    spend.amount = value;
    let built = new_backup_transaction(&spend).unwrap();
    BackupTx {
        tx_n,
        tx: hex::encode(built.raw),
        client_public_nonce: String::new(),
        server_public_nonce: String::new(),
        client_public_key: coin.user_pubkey.clone(),
        server_public_key: server_key().to_string(),
        blinding_factor: String::new(),
        statechain_id: "sid".to_string(),
    }
}

#[test]
fn the_child_lifts_the_package_to_the_target_rate() {
    let coin = funded(derive_coin(&vec![3u8; 32], Network::Regtest, 0).unwrap(), &server_key());
    let backup = backup_paying_to(&coin, 99_000, 1);
    let parent: Transaction =
        bitcoin::consensus::encode::deserialize(&hex::decode(&backup.tx).unwrap()).unwrap();
    let destination = derive_coin(&vec![4u8; 32], Network::Regtest, 0).unwrap().backup_address;
    let child_hex = create(&backup, &coin, &destination, 10, Network::Regtest).unwrap();
    let child: Transaction =
        bitcoin::consensus::encode::deserialize(&hex::decode(&child_hex).unwrap()).unwrap();
    assert_eq!(child.input.len(), 1);
    assert_eq!(child.output.len(), 1);
    assert_eq!(child.input[0].previous_output.txid, parent.txid());
    assert_eq!(child.input[0].previous_output.vout, 0);
    let parent_fee = 100_000 - 99_000;
    let owed = 10 * (parent.vsize() as u64 + 111);
    assert_eq!(child.output[0].value, 99_000 - (owed - parent_fee));
    let paid = parent_fee + (99_000 - child.output[0].value);
    assert!(paid >= 10 * (parent.vsize() as u64 + child.vsize() as u64));
    let address: bitcoin::Address<bitcoin::address::NetworkUnchecked> = destination.parse().unwrap();
    assert_eq!(child.output[0].script_pubkey, address.assume_checked().script_pubkey());
    let secp = Secp256k1::new();
    let spent = TxOut { value: 99_000, script_pubkey: parent.output[0].script_pubkey.clone() };
    let sighash = SighashCache::new(&child)
        .taproot_key_spend_signature_hash(0, &Prevouts::All(&[spent]), TapSighashType::Default)
        .unwrap();
    let witness = child.input[0].witness.to_vec();
    assert_eq!(witness.len(), 1);
    let signature = bitcoin::secp256k1::schnorr::Signature::from_slice(&witness[0]).unwrap();
    let output_key =
        XOnlyPublicKey::from_slice(&parent.output[0].script_pubkey.as_bytes()[2..]).unwrap();
    let message = Message::from_slice(&bitcoin::hashes::Hash::to_byte_array(sighash)).unwrap();
    assert!(secp.verify_schnorr(&signature, &message, &output_key).is_ok());
    let keypair = KeyPair::from_secret_key(&secp, &secret_of(&coin.user_privkey));
    assert_eq!(keypair.tap_tweak(&secp, None).to_inner().x_only_public_key().0, output_key);
}

#[test]
fn a_child_is_refused_when_it_cannot_be_built() {
    let coin = funded(derive_coin(&vec![3u8; 32], Network::Regtest, 0).unwrap(), &server_key());
    let destination = coin.backup_address.clone();
    let poor = backup_paying_to(&coin, 2_000, 1);
    let mut small = coin.clone();
    small.amount = Some(2_000);
    assert_eq!(
        create(&poor, &small, &destination, 10, Network::Regtest),
        Err(Error::InsufficientValue)
    );
    let backup = backup_paying_to(&coin, 99_000, 1);
    assert_eq!(
        create(&backup, &coin, &destination, 10, Network::Bitcoin),
        Err(Error::CryptoInvalid { which: CryptoItem::Address })
    );
    let mut unfunded = coin.clone();
    unfunded.amount = None;
    assert_eq!(
        create(&backup, &unfunded, &destination, 10, Network::Regtest),
        Err(Error::NotFound { entity: Entity::Coin })
    );
    let mut less = coin.clone();
    less.amount = Some(98_999);
    assert_eq!(
        create(&backup, &less, &destination, 10, Network::Regtest),
        Err(Error::ChainValidationFailed { step: ValidationStep::Amount })
    );
    let mut garbled = backup.clone();
    garbled.tx = "00".to_string();
    assert_eq!(
        create(&garbled, &coin, &destination, 10, Network::Regtest),
        Err(Error::ChainValidationFailed { step: ValidationStep::Shape })
    );
    let mut unsignable = coin.clone();
    unsignable.user_privkey = "no key".to_string();
    assert_eq!(
        create(&backup, &unsignable, &destination, 10, Network::Regtest),
        Err(Error::CryptoInvalid { which: CryptoItem::PrivateKey })
    );
    let other = derive_coin(&vec![9u8; 32], Network::Regtest, 0).unwrap();
    let elsewhere = backup_paying_to(&other, 99_000, 1);
    assert_eq!(
        create(&elsewhere, &coin, &destination, 10, Network::Regtest),
        Err(Error::ChainValidationFailed { step: ValidationStep::Destination })
    );
}

#[test]
fn settling_broadcasts_the_newest_backup_with_its_child() {
    let coin = funded(derive_coin(&vec![3u8; 32], Network::Regtest, 0).unwrap(), &server_key());
    let mut wallet = wallet();
    wallet.coins = vec![derive_coin(&vec![3u8; 32], Network::Regtest, 5).unwrap(), coin.clone()];
    let backups = vec![
        backup_paying_to(&coin, 99_500, 1),
        backup_paying_to(&coin, 99_000, 3),
        backup_paying_to(&coin, 99_200, 2),
    ];
    assert_eq!(latest_backup(&backups), 1);
    assert_eq!(first_backup(&backups), 0);
    let to = coin.backup_address.clone();
    let plan =
        statecoin::broadcast_backup_tx::execute(&wallet, &backups, &"sid".to_string(), &to, 10)
            .unwrap();
    assert_eq!(plan.position, 1);
    assert_eq!(hex::encode(&plan.backup_tx), backups[1].tx);
    let child: Transaction =
        bitcoin::consensus::encode::deserialize(&hex::decode(&plan.cpfp_tx).unwrap()).unwrap();
    let parent: Transaction = bitcoin::consensus::encode::deserialize(&plan.backup_tx).unwrap();
    assert_eq!(child.input[0].previous_output.txid, parent.txid());
    assert_eq!(
        statecoin::deposit::broadcast_backup_tx(&backups),
        Ok(hex::decode(&backups[1].tx).unwrap())
    );
    assert_eq!(
        statecoin::deposit::broadcast_backup_tx(&Vec::new()),
        Err(Error::NotFound { entity: Entity::BackupTransaction })
    );
    assert_eq!(
        statecoin::broadcast_backup_tx::execute(&wallet, &Vec::new(), &"sid".to_string(), &to, 10),
        Err(Error::NotFound { entity: Entity::BackupTransaction })
    );
    assert_eq!(
        statecoin::broadcast_backup_tx::execute(&wallet, &backups, &"other".to_string(), &to, 10),
        Err(Error::NotFound { entity: Entity::Coin })
    );
    assert!(record_cpfp(&mut wallet, 1, "child id".to_string()));
    assert_eq!(wallet.coins[1].tx_cpfp, Some("child id".to_string()));
    assert_eq!(wallet.coins[0].tx_cpfp, None);
    let before = wallet.clone();
    assert!(!record_cpfp(&mut wallet, 2, "child id".to_string()));
    assert_eq!(wallet, before);
}

#[test]
fn a_deposit_runs_from_request_to_first_backup() {
    let mut coin = derive_coin(&vec![3u8; 32], Network::Regtest, 0).unwrap();
    let token = "0c8b4a5e-2f6b-4a57-9d6b-0d6b3f1f8e11".to_string();
    let payload = statecoin::deposit::init(&coin, &token, 100_000).unwrap();
    assert_eq!(payload.amount, 100_000);
    assert_eq!(payload.token_id, token);
    let auth: PublicKey = coin.auth_pubkey.parse().unwrap();
    assert_eq!(payload.auth_key, auth.x_only_public_key().0.to_string());
    let secp = Secp256k1::new();
    let signature: bitcoin::secp256k1::schnorr::Signature = payload.signed_token_id.parse().unwrap();
    let digest = Message::from_slice(&sha256_of(token.as_bytes())).unwrap();
    assert!(secp.verify_schnorr(&signature, &digest, &auth.x_only_public_key().0).is_ok());

    let server = server_key();
    let address = statecoin::deposit::complete_init(
        &mut coin,
        &server.to_string(),
        &"sid".to_string(),
        100_000,
        Network::Regtest,
    )
    .unwrap();
    let user: PublicKey = coin.user_pubkey.parse().unwrap();
    let aggregate = user.combine(&server).unwrap();
    assert_eq!(coin.aggregated_pubkey, Some(aggregate.to_string()));
    assert_eq!(coin.aggregated_address, Some(address.clone()));
    let expected = bitcoin::Address::p2tr(
        &secp,
        aggregate.x_only_public_key().0,
        None,
        bitcoin::Network::Regtest,
    );
    assert_eq!(address, expected.to_string());
    assert_eq!(coin.statechain_id, Some("sid".to_string()));
    assert_eq!(coin.amount, Some(100_000));
    assert_eq!(coin.status, CoinStatus::Initialised);
    assert!(coin.signed_statechain_id.is_some());

    let waiting = coin.clone();
    let list = vec![UnspentOutput { tx_hash: TXID.to_string(), tx_pos: 1, height: 0, value: 99_999 }];
    assert_eq!(statecoin::deposit::execute(&mut coin, &list, 100, 3, "now".to_string()), None);
    assert_eq!(coin, waiting);
    let list = vec![
        UnspentOutput { tx_hash: "ab".repeat(32), tx_pos: 0, height: 0, value: 99_999 },
        UnspentOutput { tx_hash: TXID.to_string(), tx_pos: 1, height: 99, value: 100_000 },
    ];
    let (outpoint, activity) =
        statecoin::deposit::execute(&mut coin, &list, 100, 3, "now".to_string()).unwrap();
    assert_eq!(outpoint, TxOutpoint { txid: TXID.to_string(), vout: 1 });
    assert_eq!(activity.action, ActivityAction::Deposit);
    assert_eq!(activity.amount, 100_000);
    assert_eq!(activity.date, "now");
    assert_eq!(coin.utxo_txid, Some(TXID.to_string()));
    assert_eq!(coin.utxo_vout, Some(1));
    assert_eq!(coin.status, CoinStatus::Unconfirmed);
    assert_eq!(statecoin::deposit::execute(&mut coin, &list, 100, 3, "now".to_string()), None);

    let first =
        statecoin::deposit::first_backup_request(&coin, 100, 10, 1_000, 3, Network::Regtest).unwrap();
    assert_eq!(first.previous_locktime, None);
    assert_eq!(first.outpoint, outpoint);
    assert_eq!(first.amount, 100_000);
    let backup: bitcoin::Address<bitcoin::address::NetworkUnchecked> =
        coin.backup_address.parse().unwrap();
    assert_eq!(first.destination, backup.assume_checked().script_pubkey().to_bytes());
    assert_eq!(new_backup_transaction(&first).unwrap().lock_time, 1_100);
}

#[test]
fn the_status_moves_on_with_later_looks_at_the_indexer() {
    let mut coin = funded(derive_coin(&vec![3u8; 32], Network::Regtest, 0).unwrap(), &server_key());
    let list = |height: u64| {
        vec![UnspentOutput { tx_hash: TXID.to_string(), tx_pos: 1, height, value: 100_000 }]
    };
    coin.status = CoinStatus::InMempool;
    assert!(!statecoin::deposit::refresh_status(&mut coin, &list(0), 100, 3));
    assert_eq!(coin.status, CoinStatus::InMempool);
    assert!(!statecoin::deposit::refresh_status(&mut coin, &Vec::new(), 100, 3));
    assert_eq!(coin.status, CoinStatus::InMempool);
    assert!(statecoin::deposit::refresh_status(&mut coin, &list(100), 100, 3));
    assert_eq!(coin.status, CoinStatus::Unconfirmed);
    assert!(!statecoin::deposit::refresh_status(&mut coin, &list(100), 101, 3));
    assert_eq!(coin.status, CoinStatus::Unconfirmed);
    assert!(statecoin::deposit::refresh_status(&mut coin, &list(100), 102, 3));
    assert_eq!(coin.status, CoinStatus::Confirmed);
    assert!(!statecoin::deposit::refresh_status(&mut coin, &list(100), 200, 3));
    coin.status = CoinStatus::InMempool;
    assert!(statecoin::deposit::refresh_status(&mut coin, &list(90), 100, 3));
    assert_eq!(coin.status, CoinStatus::Confirmed);
    coin.status = CoinStatus::InTransfer;
    let before = coin.clone();
    assert!(!statecoin::deposit::refresh_status(&mut coin, &list(90), 100, 3));
    assert_eq!(coin, before);
    coin.status = CoinStatus::InMempool;
    coin.utxo_txid = None;
    assert!(!statecoin::deposit::refresh_status(&mut coin, &list(90), 100, 3));
    assert_eq!(coin.status, CoinStatus::InMempool);
}

#[test]
fn a_deposit_earns_the_status_of_its_confirmations() {
    let statuses: Vec<CoinStatus> = [(0u64, 3u32), (100, 3), (98, 3), (97, 3), (100, 1), (0, 0)]
        .iter()
        .map(|(height, target)| {
            let mut coin = derive_coin(&vec![3u8; 32], Network::Regtest, 0).unwrap();
            coin.amount = Some(7);
            let list =
                vec![UnspentOutput { tx_hash: TXID.to_string(), tx_pos: 0, height: *height, value: 7 }];
            statecoin::deposit::execute(&mut coin, &list, 100, *target, String::new()).unwrap();
            coin.status
        })
        .collect();
    assert_eq!(
        statuses,
        vec![
            CoinStatus::InMempool,
            CoinStatus::Unconfirmed,
            CoinStatus::Confirmed,
            CoinStatus::Confirmed,
            CoinStatus::Confirmed,
            CoinStatus::InMempool,
        ]
    );
}

#[test]
fn a_coin_with_exhausted_lock_times_cannot_be_sent() {
    let mut coin = funded(derive_coin(&vec![3u8; 32], Network::Regtest, 0).unwrap(), &server_key());
    coin.locktime = Some(144);
    let before = coin.clone();
    assert_eq!(check_transfer_send(&coin, 500, 144), Err(Error::LocktimeExhausted));
    assert_eq!(coin, before);
    coin.locktime = Some(1_000);
    assert_eq!(check_transfer_send(&coin, 500, 144), Ok(856));
    assert_eq!(check_transfer_send(&coin, 857, 144), Err(Error::LocktimeExhausted));
    coin.status = CoinStatus::InTransfer;
    assert_eq!(check_transfer_send(&coin, 500, 144), Err(Error::NotFound { entity: Entity::Coin }));
    coin.status = CoinStatus::Confirmed;
    coin.locktime = None;
    assert_eq!(
        check_transfer_send(&coin, 500, 144),
        Err(Error::NotFound { entity: Entity::BackupTransaction })
    );
}

#[test]
fn a_sent_coin_is_in_transfer_and_its_message_names_the_sender() {
    let mut coin = funded(derive_coin(&vec![3u8; 32], Network::Regtest, 0).unwrap(), &server_key());
    let receiver = derive_coin(&vec![4u8; 32], Network::Regtest, 0).unwrap();
    let request = transfer_backup_request(&coin, &receiver.user_pubkey, 500, 144, 3).unwrap();
    let receiver_key: PublicKey = receiver.user_pubkey.parse().unwrap();
    let shared = receiver_key.combine(&server_key()).unwrap();
    let script = ScriptBuf::new_v1_p2tr(&Secp256k1::new(), shared.x_only_public_key().0, None);
    assert_eq!(request.destination, script.to_bytes());
    assert_eq!(request.previous_locktime, Some(1_000));
    assert_eq!(request.outpoint, TxOutpoint { txid: TXID.to_string(), vout: 1 });
    let built = new_backup_transaction(&request).unwrap();
    assert_eq!(built.lock_time, 856);

    let x1 = hex::encode([0x21u8; 32]);
    let t1 = compute_t1(&coin.user_privkey, &x1).unwrap();
    let sum = secret_of(&coin.user_privkey)
        .add_tweak(&bitcoin::secp256k1::Scalar::from_be_bytes([0x21u8; 32]).unwrap())
        .unwrap();
    assert_eq!(t1, hex::encode(sum.secret_bytes()));
    let t2 = compute_t2(&t1, &receiver.user_privkey).unwrap();
    let back = SecretKey::from_slice(&hex::decode(&t1).unwrap())
        .unwrap()
        .add_tweak(&bitcoin::secp256k1::Scalar::from(secret_of(&receiver.user_privkey).negate()))
        .unwrap();
    assert_eq!(t2, hex::encode(back.secret_bytes()));
    assert_eq!(
        compute_t1(&coin.user_privkey, &"xy".to_string()),
        Err(Error::CryptoInvalid { which: CryptoItem::Scalar })
    );

    let backups = vec![backup_paying_to(&coin, 99_000, 1)];
    let (message, activity) = complete_transfer_send(
        &mut coin,
        backups.clone(),
        856,
        t1.clone(),
        "signature".to_string(),
        "today".to_string(),
    )
    .unwrap();
    assert_eq!(coin.status, CoinStatus::InTransfer);
    assert_eq!(coin.locktime, Some(856));
    assert_eq!(message.statechain_id, "sid");
    assert_eq!(message.user_public_key, coin.user_pubkey);
    assert_eq!(message.t1, t1);
    assert_eq!(message.backup_transactions, backups);
    assert_eq!(activity.action, ActivityAction::Send);
    assert_eq!(activity.utxo, TXID);
    let again = coin.clone();
    assert!(complete_transfer_send(
        &mut coin,
        backups,
        700,
        t1,
        "signature".to_string(),
        "today".to_string()
    )
    .is_err());
    assert_eq!(coin, again);
}

#[test]
fn the_transfer_digest_covers_the_outpoint_and_the_receiver() {
    let receiver = derive_coin(&vec![4u8; 32], Network::Regtest, 0).unwrap();
    let outpoint = TxOutpoint { txid: TXID.to_string(), vout: 0x0102_0304 };
    let digest = statecoin::transfer_sender::transfer_digest(&outpoint, &receiver.user_pubkey).unwrap();
    let mut written = hex::decode(TXID).unwrap();
    written.reverse();
    let key: PublicKey = receiver.user_pubkey.parse().unwrap();
    let mut data = written.clone();
    data.extend_from_slice(&[0x04, 0x03, 0x02, 0x01]);
    data.extend_from_slice(&key.serialize());
    assert_eq!(digest, sha256_of(&data).to_vec());
    assert_eq!(
        statecoin::receiver::transfer_commitment(&written, 0x0102_0304, &key.serialize()),
        data
    );
    let upper = TxOutpoint { txid: TXID.to_uppercase(), vout: 0x0102_0304 };
    assert_eq!(
        statecoin::transfer_sender::transfer_digest(&upper, &receiver.user_pubkey),
        Ok(digest)
    );
    let short = TxOutpoint { txid: TXID[2..].to_string(), vout: 0 };
    assert_eq!(
        statecoin::transfer_sender::transfer_digest(&short, &receiver.user_pubkey),
        Err(Error::CryptoInvalid { which: CryptoItem::Txid })
    );
    assert_eq!(
        statecoin::transfer_sender::transfer_digest(&outpoint, &"02".to_string()),
        Err(Error::CryptoInvalid { which: CryptoItem::PublicKey })
    );
}

#[test]
fn a_withdrawal_takes_the_coin_out_of_the_wallet() {
    let mut coin = funded(derive_coin(&vec![3u8; 32], Network::Regtest, 0).unwrap(), &server_key());
    coin.aggregated_pubkey = Some("aggregate".to_string());
    coin.aggregated_address = Some("address".to_string());
    coin.signed_statechain_id = Some("signed".to_string());
    let backups = vec![backup_paying_to(&coin, 99_000, 1), backup_paying_to(&coin, 99_000, 2)];
    assert_eq!(new_tx_n(&backups), Some(3));
    assert_eq!(new_tx_n(&Vec::new()), Some(1));
    let details = coin_key_details(&coin, &backups).unwrap();
    assert_eq!(details.new_tx_n, 3);
    assert_eq!(details.amount, 100_000);
    assert_eq!(details.utxo_tx_hash, TXID);
    assert_eq!(details.client_pubkey, coin.user_pubkey);
    assert_eq!(details.locktime, Some(1_000));
    let to = coin.backup_address.clone();
    let built = statecoin::withdraw::execute(&details, &to, 500, 144, 1_000, 10, Network::Regtest)
        .unwrap();
    assert_eq!(built.lock_time, 856);
    assert_eq!(built.value, 100_000 - 1_110);
    let tx: Transaction = bitcoin::consensus::encode::deserialize(&built.raw).unwrap();
    let address: bitcoin::Address<bitcoin::address::NetworkUnchecked> = to.parse().unwrap();
    assert_eq!(tx.output[0].script_pubkey, address.assume_checked().script_pubkey());
    assert_eq!(
        statecoin::withdraw::execute(&details, &"nowhere".to_string(), 500, 144, 1_000, 10, Network::Regtest),
        Err(Error::CryptoInvalid { which: CryptoItem::Address })
    );
    let mut partial = coin.clone();
    partial.server_pubkey = None;
    assert_eq!(
        coin_key_details(&partial, &backups),
        Err(Error::NotFound { entity: Entity::Coin })
    );

    assert!(!apply_event(&mut coin, CoinEvent::BroadcastSeen));
    assert_eq!(coin.status, CoinStatus::Confirmed);
    assert_eq!(
        finish_withdraw(&mut coin, "today".to_string()),
        Err(Error::NotFound { entity: Entity::Coin })
    );
    assert!(apply_event(&mut coin, CoinEvent::Withdraw));
    assert_eq!(coin.status, CoinStatus::Withdrawing);
    let activity = finish_withdraw(&mut coin, "today".to_string()).unwrap();
    assert_eq!(coin.status, CoinStatus::Withdrawn);
    assert_eq!(activity.action, ActivityAction::Withdraw);
    assert_eq!(activity.amount, 100_000);
    assert!(!apply_event(&mut coin, CoinEvent::Withdraw));
}
