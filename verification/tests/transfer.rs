use bitcoin::absolute::LockTime;
use bitcoin::key::TapTweak;
use bitcoin::secp256k1::{KeyPair, Message, PublicKey, Scalar, Secp256k1, SecretKey};
use bitcoin::sighash::{Prevouts, SighashCache, TapSighashType};
use bitcoin::{OutPoint, PrivateKey, ScriptBuf, Sequence, Transaction, TxIn, TxOut, Witness};
use statecoin::entity::ReceiverResponse;
use statecoin::error::{CryptoItem, Entity, Error, ServerCode, TransferReceiverError, ValidationStep};
use statecoin::evidence::{gather_evidence, validate_signature_scheme};
use statecoin::indexer::UnspentOutput;
use statecoin::receive::{ReceiveAction, ReceiveConfig, ReceiveEvent, ReceivePhase, ReceiveSession};
use statecoin::receiver::{decrypt_transfer_msg, get_tx0_outpoint, verify_transfer_signature};
use statecoin::status::CoinStatus;
use statecoin::store::BackupStore;
use statecoin::transfer::{SignatureDescriptor, StatechainInfo, TransferMsg};
use statecoin::transfer_receiver::{CoinChoice, ReceiveRun};
use statecoin::transfer_sender::sign_transfer;
use statecoin::tx::{Network, TxOutpoint};
use statecoin::validator::validate_evidence;
use statecoin::wallet::{ActivityAction, BackupTx, Coin, Wallet};

const AMOUNT: u64 = 50_000;
const RATE: u32 = 3;
const TOLERANCE: u32 = 2;
const INTERVAL: u32 = 100;
const STATECHAIN_ID: &str = "f6c0fd2a-3f02-4c5b-9d6e-1a2b3c4d5e6f";

fn sha256_of(data: &[u8]) -> [u8; 32] {
    let hash = <bitcoin::hashes::sha256::Hash as bitcoin::hashes::Hash>::hash(data);
    bitcoin::hashes::Hash::to_byte_array(hash)
}

fn secret(byte: u8) -> SecretKey {
    SecretKey::from_slice(&[byte; 32]).unwrap()
}

fn wif(key: &SecretKey) -> String {
    PrivateKey::new(*key, bitcoin::Network::Regtest).to_wif()
}

fn public(key: &SecretKey) -> PublicKey {
    PublicKey::from_secret_key(&Secp256k1::new(), key)
}

fn sum(a: &SecretKey, b: &SecretKey) -> SecretKey {
    a.add_tweak(&Scalar::from(*b)).unwrap()
}

fn difference(a: &SecretKey, b: &SecretKey) -> SecretKey {
    a.add_tweak(&Scalar::from(b.negate())).unwrap()
}

fn p2tr(key: &PublicKey) -> ScriptBuf {
    ScriptBuf::new_v1_p2tr(&Secp256k1::new(), key.x_only_public_key().0, None)
}

fn funding_tx(script: ScriptBuf) -> Transaction {
    Transaction {
        version: 2,
        lock_time: LockTime::ZERO,
        input: vec![TxIn { previous_output: OutPoint::null(), ..Default::default() }],
        output: vec![TxOut { value: AMOUNT, script_pubkey: script }],
    }
}

fn signed_spend(
    funding: &Transaction,
    signer: &SecretKey,
    destination: ScriptBuf,
    value: u64,
    lock_time: u32,
) -> Transaction {
    let secp = Secp256k1::new();
    let mut tx = Transaction {
        version: 2,
        lock_time: LockTime::from_consensus(lock_time),
        input: vec![TxIn {
            previous_output: OutPoint { txid: funding.txid(), vout: 0 },
            sequence: Sequence::ENABLE_LOCKTIME_NO_RBF,
            ..Default::default()
        }],
        output: vec![TxOut { value, script_pubkey: destination }],
    };
    let sighash = SighashCache::new(&tx)
        .taproot_key_spend_signature_hash(
            0,
            &Prevouts::All(&[funding.output[0].clone()]),
            TapSighashType::Default,
        )
        .unwrap();
    let keypair = KeyPair::from_secret_key(&secp, signer).tap_tweak(&secp, None);
    let message =
        Message::from_slice(&bitcoin::hashes::Hash::to_byte_array(sighash)).unwrap();
    let signature = secp.sign_schnorr(&message, &keypair.to_inner());
    tx.input[0].witness = Witness::from_slice(&[&signature.as_ref()[..]]);
    tx
}

fn to_hex(tx: &Transaction) -> String {
    hex::encode(bitcoin::consensus::encode::serialize(tx))
}

struct Fixture {
    sender: SecretKey,
    enclave: SecretKey,
    receiver: SecretKey,
    receiver_auth: SecretKey,
    funding: Transaction,
    message: TransferMsg,
    info: StatechainInfo,
    vsize: u64,
}

fn blinding_factor(n: u8) -> [u8; 32] {
    [n; 32]
}

fn backup(fixture_keys: (&SecretKey, &SecretKey), tx: &Transaction, tx_n: u32) -> BackupTx {
    BackupTx {
        tx_n,
        tx: to_hex(tx),
        client_public_nonce: hex::encode([2u8; 66]),
        server_public_nonce: hex::encode([3u8; 66]),
        client_public_key: public(fixture_keys.0).to_string(),
        server_public_key: public(fixture_keys.1).to_string(),
        blinding_factor: hex::encode(blinding_factor(tx_n as u8)),
        statechain_id: STATECHAIN_ID.to_string(),
    }
}

fn descriptor(tx_n: u32, fee_rate: u32) -> SignatureDescriptor {
    SignatureDescriptor {
        blind_commitment: hex::encode(sha256_of(&blinding_factor(tx_n as u8))),
        fee_rate,
    }
}

fn transfer_signature(sender: &SecretKey, funding: &Transaction, receiver: &PublicKey) -> String {
    let secp = Secp256k1::new();
    let mut data = Vec::new();
    data.extend_from_slice(&funding.txid()[..]);
    data.extend_from_slice(&0u32.to_le_bytes());
    data.extend_from_slice(&receiver.serialize());
    let digest = sha256_of(&data);
    let keypair = KeyPair::from_secret_key(&secp, sender);
    secp.sign_schnorr(&Message::from_slice(&digest).unwrap(), &keypair).to_string()
}

fn fixture() -> Fixture {
    let sender = secret(0x11);
    let enclave = secret(0x22);
    let receiver = secret(0x35);
    let receiver_auth = secret(0x44);
    let owner = sum(&sender, &enclave);
    let funding = funding_tx(p2tr(&public(&owner)));
    let sender_script = p2tr(&public(&sender));
    let receiver_script = p2tr(&public(&receiver).combine(&public(&enclave)).unwrap());
    let vsize = signed_spend(&funding, &owner, sender_script.clone(), 0, 0).vsize() as u64;
    let value = AMOUNT - RATE as u64 * vsize;
    let first = signed_spend(&funding, &owner, sender_script, value, 1_000);
    let second = signed_spend(&funding, &owner, receiver_script, value, 1_000 - INTERVAL);
    let message = TransferMsg {
        statechain_id: STATECHAIN_ID.to_string(),
        user_public_key: public(&sender).to_string(),
        t1: hex::encode([0x55u8; 32]),
        transfer_signature: transfer_signature(&sender, &funding, &public(&receiver)),
        backup_transactions: vec![
            backup((&sender, &enclave), &first, 1),
            backup((&sender, &enclave), &second, 2),
        ],
    };
    let info = StatechainInfo {
        enclave_public_key: public(&enclave).to_string(),
        num_sigs: 2,
        signatures: vec![descriptor(1, RATE), descriptor(2, RATE)],
        interval: INTERVAL,
    };
    Fixture { sender, enclave, receiver, receiver_auth, funding, message, info, vsize }
}

fn outpoint(fixture: &Fixture) -> TxOutpoint {
    TxOutpoint { txid: fixture.funding.txid().to_string(), vout: 0 }
}

fn validate(fixture: &Fixture) -> Result<u32, Error> {
    validate_signature_scheme(
        &fixture.message,
        &fixture.info,
        &to_hex(&fixture.funding),
        &outpoint(fixture),
        &public(&fixture.receiver).to_string(),
        TOLERANCE,
    )
}

fn failed(step: ValidationStep) -> Result<u32, Error> {
    Err(Error::ChainValidationFailed { step })
}

fn receiver_coin(fixture: &Fixture) -> Coin {
    let user_pubkey = public(&fixture.receiver).to_string();
    let auth_pubkey = public(&fixture.receiver_auth).to_string();
    Coin {
        index: 0,
        user_privkey: wif(&fixture.receiver),
        user_pubkey: user_pubkey.clone(),
        auth_privkey: wif(&fixture.receiver_auth),
        auth_pubkey: auth_pubkey.clone(),
        address: format!("{}{}", user_pubkey, auth_pubkey),
        backup_address: String::new(),
        server_pubkey: None,
        aggregated_pubkey: None,
        aggregated_address: None,
        utxo_txid: None,
        utxo_vout: None,
        amount: None,
        statechain_id: None,
        signed_statechain_id: None,
        locktime: None,
        tx_cpfp: None,
        status: CoinStatus::Initialised,
    }
}

#[test]
fn a_sound_chain_validates_and_gives_the_last_lock_time() {
    let fixture = fixture();
    assert_eq!(fixture.vsize, 111);
    assert_eq!(validate(&fixture), Ok(900));
}

#[test]
fn the_funding_outpoint_is_read_from_the_first_backup() {
    let fixture = fixture();
    let mut backups = fixture.message.backup_transactions.clone();
    backups.reverse();
    assert_eq!(get_tx0_outpoint(&backups), Ok(outpoint(&fixture)));
    assert_eq!(
        get_tx0_outpoint(&Vec::new()),
        Err(Error::NotFound { entity: Entity::BackupTransaction })
    );
    backups[1].tx = "zz".to_string();
    assert_eq!(get_tx0_outpoint(&backups), failed(ValidationStep::Shape).map(|_| outpoint(&fixture)));
}

#[test]
fn a_backup_with_two_outputs_gives_no_outpoint() {
    let fixture = fixture();
    let mut tx: Transaction = bitcoin::consensus::encode::deserialize(
        &hex::decode(&fixture.message.backup_transactions[0].tx).unwrap(),
    )
    .unwrap();
    tx.output.push(tx.output[0].clone());
    let mut backups = fixture.message.backup_transactions.clone();
    backups[0].tx = to_hex(&tx);
    assert_eq!(
        get_tx0_outpoint(&backups),
        Err(Error::ChainValidationFailed { step: ValidationStep::Shape })
    );
}

#[test]
fn a_backup_without_an_output_gives_no_outpoint() {
    let fixture = fixture();
    let mut tx: Transaction = bitcoin::consensus::encode::deserialize(
        &hex::decode(&fixture.message.backup_transactions[0].tx).unwrap(),
    )
    .unwrap();
    tx.output.clear();
    let mut backups = fixture.message.backup_transactions.clone();
    backups[0].tx = to_hex(&tx);
    let decoded: Transaction =
        bitcoin::consensus::encode::deserialize(&hex::decode(&backups[0].tx).unwrap()).unwrap();
    assert_eq!((decoded.input.len(), decoded.output.len()), (1, 0));
    assert_eq!(
        get_tx0_outpoint(&backups),
        Err(Error::ChainValidationFailed { step: ValidationStep::Shape })
    );
}

#[test]
fn a_backup_that_the_wallet_builds_passes_the_wallets_own_checks() {
    let mut fixture = fixture();
    let owner = sum(&fixture.sender, &fixture.enclave);
    let secp = Secp256k1::new();
    let receiver_script = p2tr(&public(&fixture.receiver).combine(&public(&fixture.enclave)).unwrap());
    let mut rows = Vec::new();
    for (tx_n, previous, destination) in [
        (1u32, None, p2tr(&public(&fixture.sender))),
        (2u32, Some(1_100u32), receiver_script),
    ] {
        let request = statecoin::backup::BackupRequest {
            height: 100,
            interval: INTERVAL,
            initial_locktime: 1_000,
            previous_locktime: previous,
            outpoint: outpoint(&fixture),
            amount: AMOUNT,
            destination: destination.to_bytes(),
            fee_rate: RATE,
        };
        let built = statecoin::backup::new_backup_transaction(&request).unwrap();
        let funding = &fixture.funding.output[0];
        let sighash = statecoin::backup::key_spend_sighash(
            &built.raw,
            funding.value,
            funding.script_pubkey.as_bytes(),
        )
        .unwrap();
        let keypair = KeyPair::from_secret_key(&secp, &owner).tap_tweak(&secp, None);
        let signature =
            secp.sign_schnorr(&Message::from_slice(&sighash).unwrap(), &keypair.to_inner());
        let row = statecoin::backup::backup_row(
            &request,
            &built,
            signature.as_ref().to_vec(),
            tx_n,
            hex::encode([2u8; 66]),
            hex::encode([3u8; 66]),
            public(&fixture.sender).to_string(),
            public(&fixture.enclave).to_string(),
            &blinding_factor(tx_n as u8),
            STATECHAIN_ID.to_string(),
        )
        .unwrap();
        let decoded: Transaction =
            bitcoin::consensus::encode::deserialize(&hex::decode(&row.tx).unwrap()).unwrap();
        assert_eq!(decoded.vsize() as u64, statecoin::backup::BACKUP_TX_VSIZE);
        assert_eq!(decoded.version, 2);
        assert!(decoded.input[0].sequence.enables_absolute_lock_time());
        assert_eq!(row.blinding_factor, hex::encode(blinding_factor(tx_n as u8)));
        rows.push(row);
    }
    fixture.message.backup_transactions = rows;
    let result = validate_signature_scheme(
        &fixture.message,
        &fixture.info,
        &to_hex(&fixture.funding),
        &outpoint(&fixture),
        &public(&fixture.receiver).to_string(),
        0,
    );
    assert_eq!(result, Ok(1_000));
}

#[test]
fn what_is_handed_to_decryption_is_the_key_and_the_bytes() {
    let fixture = fixture();
    let key = wif(&fixture.receiver_auth);
    assert_eq!(
        statecoin::receiver::decryption_input("00ff10", &key),
        Ok((fixture.receiver_auth.secret_bytes().to_vec(), vec![0x00, 0xff, 0x10]))
    );
    assert_eq!(
        statecoin::receiver::decryption_input("00ff1", &key),
        Err(Error::CryptoInvalid { which: CryptoItem::Ciphertext })
    );
    assert_eq!(
        statecoin::receiver::decryption_input("00ff10", "no key"),
        Err(Error::CryptoInvalid { which: CryptoItem::PrivateKey })
    );
}

#[test]
fn a_tampered_signature_fails_the_signature_cover() {
    let mut fixture = fixture();
    let mut raw = hex::decode(&fixture.message.backup_transactions[0].tx).unwrap();
    let at = raw.len() - 10;
    raw[at] ^= 0x01;
    fixture.message.backup_transactions[0].tx = hex::encode(raw);
    assert_eq!(validate(&fixture), failed(ValidationStep::SignatureCover));
}

#[test]
fn a_tampered_version_fails_the_signature_cover() {
    let mut fixture = fixture();
    let mut raw = hex::decode(&fixture.message.backup_transactions[0].tx).unwrap();
    raw[0] ^= 0x01;
    fixture.message.backup_transactions[0].tx = hex::encode(raw);
    assert_eq!(validate(&fixture), failed(ValidationStep::SignatureCover));
}

#[test]
fn a_wrong_blinding_commitment_fails_the_signature_cover() {
    let mut fixture = fixture();
    fixture.info.signatures[1] = SignatureDescriptor {
        blind_commitment: descriptor(1, RATE).blind_commitment,
        fee_rate: RATE,
    };
    assert_eq!(validate(&fixture), failed(ValidationStep::SignatureCover));
}

#[test]
fn a_malformed_nonce_fails_the_signature_cover() {
    let mut fixture = fixture();
    fixture.message.backup_transactions[1].server_public_nonce = hex::encode([3u8; 65]);
    assert_eq!(validate(&fixture), failed(ValidationStep::SignatureCover));
}

#[test]
fn a_fee_at_the_upper_rate_is_accepted_and_one_above_is_rejected() {
    let mut fixture = fixture();
    fixture.info.signatures[0].fee_rate = RATE - TOLERANCE;
    fixture.info.signatures[1].fee_rate = RATE - TOLERANCE;
    assert_eq!(validate(&fixture), Ok(900));
    fixture.info.signatures[1].fee_rate = RATE + TOLERANCE;
    assert_eq!(validate(&fixture), Ok(900));
    fixture.info.signatures[1].fee_rate = RATE + TOLERANCE + 1;
    assert_eq!(validate(&fixture), failed(ValidationStep::Amount));
    fixture.info.signatures[1].fee_rate = 0;
    assert_eq!(validate(&fixture), failed(ValidationStep::Amount));
}

#[test]
fn lock_times_must_fall_by_the_interval() {
    let mut fixture = fixture();
    fixture.info.interval = INTERVAL + 1;
    assert_eq!(validate(&fixture), failed(ValidationStep::Locktime));
    fixture.info.interval = INTERVAL - 1;
    assert_eq!(validate(&fixture), Ok(900));
}

#[test]
fn the_count_of_signatures_must_match() {
    let mut fixture = fixture();
    fixture.info.num_sigs = 3;
    assert_eq!(validate(&fixture), failed(ValidationStep::Shape));
}

#[test]
fn backups_must_be_numbered_without_a_gap() {
    let mut fixture = fixture();
    fixture.message.backup_transactions[1].tx_n = 3;
    assert_eq!(validate(&fixture), failed(ValidationStep::Shape));
}

#[test]
fn backups_must_name_the_statecoin() {
    let mut fixture = fixture();
    fixture.message.backup_transactions[0].statechain_id = "another".to_string();
    assert_eq!(validate(&fixture), failed(ValidationStep::Shape));
}

#[test]
fn the_last_backup_must_pay_to_the_receiver() {
    let fixture = fixture();
    let result = validate_signature_scheme(
        &fixture.message,
        &fixture.info,
        &to_hex(&fixture.funding),
        &outpoint(&fixture),
        &public(&secret(0x66)).to_string(),
        TOLERANCE,
    );
    assert_eq!(result, failed(ValidationStep::Destination));
}

#[test]
fn recorded_key_shares_must_lock_the_funding_output() {
    let mut fixture = fixture();
    fixture.message.backup_transactions[0].client_public_key = public(&secret(0x66)).to_string();
    assert_eq!(validate(&fixture), failed(ValidationStep::FundingPubkey));
    let mut fixture = self::fixture();
    fixture.message.user_public_key = public(&secret(0x66)).to_string();
    assert_eq!(validate(&fixture), failed(ValidationStep::FundingPubkey));
}

#[test]
fn evidence_holds_what_the_transactions_say() {
    let fixture = fixture();
    let evidence = gather_evidence(
        &fixture.message,
        &fixture.info,
        &to_hex(&fixture.funding),
        &outpoint(&fixture),
        &public(&fixture.receiver).to_string(),
    );
    assert_eq!(evidence.backups.len(), 2);
    assert_eq!(evidence.funding.as_ref().unwrap().value, AMOUNT);
    assert_eq!(evidence.funding.as_ref().unwrap().script_pubkey, fixture.funding.output[0].script_pubkey.to_bytes());
    assert_eq!(evidence.backups[0].vsize, 111);
    assert!(evidence.backups[0].signature_valid && evidence.backups[1].signature_valid);
    assert!(evidence.backups[0].belongs && evidence.backups[0].nonces_well_formed);
    assert_eq!(evidence.backups[1].commitment, Some(descriptor(2, RATE).blind_commitment));
    assert_eq!(evidence.backups[1].tx.as_ref().unwrap().lock_time, 900);
    assert_eq!(evidence.backups[0].tx.as_ref().unwrap().inputs[0].txid, outpoint(&fixture).txid);
    assert_eq!(evidence.backups[0].key_script, Some(fixture.funding.output[0].script_pubkey.to_bytes()));
    assert_eq!(evidence.owner_script, evidence.backups[0].key_script);
    assert_eq!(
        evidence.destination_script,
        Some(evidence.backups[1].tx.as_ref().unwrap().outputs[0].script_pubkey.clone())
    );
    assert_eq!(validate_evidence(&evidence, &fixture.info, TOLERANCE), Ok(900));
}

#[test]
fn the_transfer_signature_binds_the_receiver() {
    let fixture = fixture();
    let receiver = public(&fixture.receiver).to_string();
    assert_eq!(
        verify_transfer_signature(&receiver, &outpoint(&fixture), &fixture.message),
        Ok(true)
    );
    let other = public(&secret(0x66)).to_string();
    assert_eq!(
        verify_transfer_signature(&other, &outpoint(&fixture), &fixture.message),
        Ok(false)
    );
    let mut moved = outpoint(&fixture);
    moved.vout = 1;
    assert_eq!(verify_transfer_signature(&receiver, &moved, &fixture.message), Ok(false));
    assert_eq!(
        verify_transfer_signature("no key", &outpoint(&fixture), &fixture.message),
        Err(Error::CryptoInvalid { which: CryptoItem::PublicKey })
    );
    let mut broken = fixture.message.clone();
    broken.transfer_signature = "00".to_string();
    assert_eq!(
        verify_transfer_signature(&receiver, &outpoint(&fixture), &broken),
        Err(Error::CryptoInvalid { which: CryptoItem::Signature })
    );
    let mut nowhere = outpoint(&fixture);
    nowhere.txid = "12".to_string();
    assert_eq!(
        verify_transfer_signature(&receiver, &nowhere, &fixture.message),
        Err(Error::CryptoInvalid { which: CryptoItem::Txid })
    );
}

#[test]
fn the_sender_signs_what_the_receiver_verifies() {
    let fixture = fixture();
    let mut sender_coin = receiver_coin(&fixture);
    sender_coin.user_privkey = wif(&fixture.sender);
    sender_coin.user_pubkey = public(&fixture.sender).to_string();
    let receiver = public(&fixture.receiver).to_string();
    let signature = sign_transfer(&sender_coin, &outpoint(&fixture), &receiver).unwrap();
    let mut message = fixture.message.clone();
    message.transfer_signature = signature;
    assert_eq!(verify_transfer_signature(&receiver, &outpoint(&fixture), &message), Ok(true));
}

#[test]
fn a_message_decrypts_to_its_text() {
    let fixture = fixture();
    let text = "{\"statechain_id\":\"abc\"}";
    let ciphertext =
        ecies::encrypt(&public(&fixture.receiver_auth).serialize(), text.as_bytes()).unwrap();
    let opened = decrypt_transfer_msg(&hex::encode(&ciphertext), &wif(&fixture.receiver_auth));
    assert_eq!(opened, Ok(text.to_string()));
    let again = ecies::encrypt(&public(&fixture.receiver_auth).serialize(), text.as_bytes()).unwrap();
    assert_eq!(
        decrypt_transfer_msg(&hex::encode(&again), &wif(&fixture.receiver_auth)),
        Ok(text.to_string())
    );
}

#[test]
fn a_message_that_does_not_decrypt_is_refused() {
    let fixture = fixture();
    let ciphertext =
        ecies::encrypt(&public(&fixture.receiver_auth).serialize(), b"hello").unwrap();
    let wrong_key = decrypt_transfer_msg(&hex::encode(&ciphertext), &wif(&fixture.sender));
    assert_eq!(wrong_key, Err(Error::CryptoInvalid { which: CryptoItem::Ciphertext }));
    assert_eq!(
        decrypt_transfer_msg("not hex", &wif(&fixture.receiver_auth)),
        Err(Error::CryptoInvalid { which: CryptoItem::Ciphertext })
    );
    assert_eq!(
        decrypt_transfer_msg(&hex::encode(&ciphertext), "not a key"),
        Err(Error::CryptoInvalid { which: CryptoItem::PrivateKey })
    );
    let binary = ecies::encrypt(&public(&fixture.receiver_auth).serialize(), &[0xff, 0xfe]).unwrap();
    assert_eq!(
        decrypt_transfer_msg(&hex::encode(&binary), &wif(&fixture.receiver_auth)),
        Err(Error::CryptoInvalid { which: CryptoItem::Ciphertext })
    );
}

fn config() -> ReceiveConfig {
    ReceiveConfig { network: Network::Regtest, confirmation_target: 3, fee_rate_tolerance: TOLERANCE }
}

fn unspent(fixture: &Fixture, height: u64) -> Vec<UnspentOutput> {
    vec![
        UnspentOutput { tx_hash: "00".repeat(32), tx_pos: 0, height: 5, value: 1 },
        UnspentOutput { tx_hash: outpoint(fixture).txid, tx_pos: 0, height, value: AMOUNT },
    ]
}

fn new_server_key(fixture: &Fixture) -> String {
    let owner = sum(&fixture.sender, &fixture.enclave);
    public(&difference(&owner, &fixture.receiver)).to_string()
}

fn drive_to_receiver(fixture: &Fixture, height: u64) -> ReceiveSession {
    let config = config();
    let (session, action) = ReceiveSession::begin(receiver_coin(fixture), fixture.message.clone());
    assert_eq!(action, ReceiveAction::FetchTx0 { txid: outpoint(fixture).txid });
    assert_eq!(session.phase, ReceivePhase::AwaitTx0);
    let raw = bitcoin::consensus::encode::serialize(&fixture.funding);
    let (session, action) = session.step(ReceiveEvent::Tx0 { transactions: vec![raw] }, &config);
    assert_eq!(action, ReceiveAction::FetchInfo { statechain_id: STATECHAIN_ID.to_string() });
    let (session, action) =
        session.step(ReceiveEvent::Info { info: Some(fixture.info.clone()) }, &config);
    assert_eq!(
        action,
        ReceiveAction::ListUnspent { script: fixture.funding.output[0].script_pubkey.to_bytes() }
    );
    assert_eq!(session.locktime, 900);
    let (session, action) = session.step(
        ReceiveEvent::Unspent { unspent: unspent(fixture, height), blockheight: 102 },
        &config,
    );
    match action {
        ReceiveAction::Unlock { unlock } => {
            assert_eq!(unlock.statechain_id, STATECHAIN_ID);
            assert_eq!(unlock.auth_pub_key, Some(public(&fixture.receiver_auth).to_string()));
            assert_eq!(unlock.auth_sig.len(), 128);
        }
        other => panic!("unexpected action {:?}", other),
    }
    let (session, action) = session.step(ReceiveEvent::Unlocked { status: 200 }, &config);
    match action {
        ReceiveAction::PostReceiver { payload } => {
            assert_eq!(payload.statechain_id, STATECHAIN_ID);
            assert_eq!(payload.batch_data, None);
            let t1 = SecretKey::from_slice(&[0x55u8; 32]).unwrap();
            let expected = difference(&t1, &fixture.receiver);
            assert_eq!(payload.t2, hex::encode(expected.secret_bytes()));
        }
        other => panic!("unexpected action {:?}", other),
    }
    assert_eq!(session.phase, ReceivePhase::AwaitReceiver);
    session
}

fn answer(status: u16, code: Option<TransferReceiverError>, key: Option<String>) -> ReceiveEvent {
    ReceiveEvent::Receiver {
        response: ReceiverResponse {
            status,
            code,
            message: code.map(|_| "what the entity said".to_string()),
            server_pubkey: key,
            body: "body".to_string(),
        },
        date: "2024-01-01T00:00:00+00:00".to_string(),
    }
}

#[test]
fn a_transfer_is_received_step_by_step() {
    let fixture = fixture();
    let session = drive_to_receiver(&fixture, 100);
    let server_key = new_server_key(&fixture);
    let (session, action) = session.step(answer(200, None, Some(server_key.clone())), &config());
    assert_eq!(session.phase, ReceivePhase::Done);
    let (coin, activity, backups, result) = match action {
        ReceiveAction::Install { coin, activity, backup_transactions, result } => {
            (coin, activity, backup_transactions, result)
        }
        other => panic!("unexpected action {:?}", other),
    };
    assert_eq!(coin.statechain_id, Some(STATECHAIN_ID.to_string()));
    assert_eq!(coin.status, CoinStatus::Confirmed);
    assert_eq!(coin.amount, Some(AMOUNT));
    assert_eq!(coin.locktime, Some(900));
    assert_eq!(coin.utxo_txid, Some(outpoint(&fixture).txid));
    assert_eq!(coin.utxo_vout, Some(0));
    assert_eq!(coin.server_pubkey, Some(server_key));
    let owner = public(&sum(&fixture.sender, &fixture.enclave));
    assert_eq!(coin.aggregated_pubkey, Some(owner.to_string()));
    let address = bitcoin::Address::p2tr(
        &Secp256k1::new(),
        owner.x_only_public_key().0,
        None,
        bitcoin::Network::Regtest,
    );
    assert_eq!(coin.aggregated_address, Some(address.to_string()));
    assert_eq!(coin.user_pubkey, public(&fixture.receiver).to_string());
    assert_eq!(activity.action, ActivityAction::Receive);
    assert_eq!(activity.amount, AMOUNT);
    assert_eq!(activity.utxo, outpoint(&fixture).txid);
    assert_eq!(backups, fixture.message.backup_transactions);
    assert_eq!(result.statechain_id, Some(STATECHAIN_ID.to_string()));
    assert!(!result.is_batch_locked);
}

#[test]
fn a_young_funding_output_leaves_the_coin_unconfirmed() {
    let fixture = fixture();
    let session = drive_to_receiver(&fixture, 101);
    let (_, action) = session.step(answer(200, None, Some(new_server_key(&fixture))), &config());
    match action {
        ReceiveAction::Install { coin, .. } => assert_eq!(coin.status, CoinStatus::Unconfirmed),
        other => panic!("unexpected action {:?}", other),
    }
}

#[test]
fn a_locked_batch_ends_the_session_without_a_coin() {
    let fixture = fixture();
    let session = drive_to_receiver(&fixture, 100);
    let (session, action) = session.step(
        answer(400, Some(TransferReceiverError::StatecoinBatchLockedError), None),
        &config(),
    );
    assert_eq!(session.phase, ReceivePhase::Done);
    match action {
        ReceiveAction::BatchLocked { result } => {
            assert!(result.is_batch_locked);
            assert_eq!(result.statechain_id, None);
        }
        other => panic!("unexpected action {:?}", other),
    }
}

#[test]
fn an_expired_batch_is_an_error_of_the_entity() {
    let fixture = fixture();
    let session = drive_to_receiver(&fixture, 100);
    let (_, action) = session.step(
        answer(400, Some(TransferReceiverError::ExpiredBatchTimeError), None),
        &config(),
    );
    assert_eq!(
        action,
        ReceiveAction::Fail {
            error: Error::SEProtocolError {
                code: ServerCode::ExpiredBatchTime,
                message: "what the entity said".to_string()
            }
        }
    );
}

#[test]
fn a_server_key_that_does_not_lock_the_funding_output_is_refused() {
    let fixture = fixture();
    let session = drive_to_receiver(&fixture, 100);
    let (_, action) =
        session.step(answer(200, None, Some(public(&fixture.enclave).to_string())), &config());
    assert_eq!(
        action,
        ReceiveAction::Fail {
            error: Error::ChainValidationFailed { step: ValidationStep::FundingPubkey }
        }
    );
}

#[test]
fn a_tampered_backup_ends_the_session_at_the_signature_cover() {
    let mut fixture = fixture();
    let mut raw = hex::decode(&fixture.message.backup_transactions[0].tx).unwrap();
    let at = raw.len() - 10;
    raw[at] ^= 0x01;
    fixture.message.backup_transactions[0].tx = hex::encode(raw);
    let config = config();
    let (session, _) = ReceiveSession::begin(receiver_coin(&fixture), fixture.message.clone());
    let raw = bitcoin::consensus::encode::serialize(&fixture.funding);
    let (session, _) = session.step(ReceiveEvent::Tx0 { transactions: vec![raw] }, &config);
    let (session, action) =
        session.step(ReceiveEvent::Info { info: Some(fixture.info.clone()) }, &config);
    assert_eq!(session.phase, ReceivePhase::Done);
    assert_eq!(
        action,
        ReceiveAction::Fail {
            error: Error::ChainValidationFailed { step: ValidationStep::SignatureCover }
        }
    );
}

#[test]
fn a_session_refuses_what_it_does_not_wait_for() {
    let fixture = fixture();
    let (session, _) = ReceiveSession::begin(receiver_coin(&fixture), fixture.message.clone());
    let (session, action) = session.step(ReceiveEvent::Unlocked { status: 200 }, &config());
    assert_eq!(session.phase, ReceivePhase::Done);
    assert_eq!(
        action,
        ReceiveAction::Fail {
            error: Error::SEProtocolError { code: ServerCode::Status(0), message: String::new() }
        }
    );
    let (session, action) = session.step(ReceiveEvent::Unlocked { status: 200 }, &config());
    assert_eq!(session.phase, ReceivePhase::Done);
    assert!(matches!(action, ReceiveAction::Fail { .. }));
}

#[test]
fn a_session_fails_early_on_missing_answers() {
    let fixture = fixture();
    let config = config();
    let (session, _) = ReceiveSession::begin(receiver_coin(&fixture), fixture.message.clone());
    let (_, action) = session.step(ReceiveEvent::Tx0 { transactions: Vec::new() }, &config);
    assert_eq!(
        action,
        ReceiveAction::Fail { error: Error::NotFound { entity: Entity::FundingTransaction } }
    );
    let (session, _) = ReceiveSession::begin(receiver_coin(&fixture), fixture.message.clone());
    let raw = bitcoin::consensus::encode::serialize(&fixture.funding);
    let (session, _) = session.step(ReceiveEvent::Tx0 { transactions: vec![raw] }, &config);
    let (_, action) = session.step(ReceiveEvent::Info { info: None }, &config);
    assert_eq!(action, ReceiveAction::Fail { error: Error::NotFound { entity: Entity::Statechain } });
    let mut confirmed = receiver_coin(&fixture);
    confirmed.status = CoinStatus::Confirmed;
    let (_, action) = ReceiveSession::begin(confirmed, fixture.message.clone());
    assert_eq!(action, ReceiveAction::Fail { error: Error::NotFound { entity: Entity::Coin } });
}

#[test]
fn a_spent_funding_output_ends_the_session() {
    let fixture = fixture();
    let config = config();
    let (session, _) = ReceiveSession::begin(receiver_coin(&fixture), fixture.message.clone());
    let raw = bitcoin::consensus::encode::serialize(&fixture.funding);
    let (session, _) = session.step(ReceiveEvent::Tx0 { transactions: vec![raw] }, &config);
    let (session, _) =
        session.step(ReceiveEvent::Info { info: Some(fixture.info.clone()) }, &config);
    let (_, action) =
        session.step(ReceiveEvent::Unspent { unspent: Vec::new(), blockheight: 102 }, &config);
    assert_eq!(
        action,
        ReceiveAction::Fail { error: Error::NotFound { entity: Entity::FundingOutput } }
    );
}

#[test]
fn a_refused_unlock_ends_the_session() {
    let fixture = fixture();
    let config = config();
    let (session, _) = ReceiveSession::begin(receiver_coin(&fixture), fixture.message.clone());
    let raw = bitcoin::consensus::encode::serialize(&fixture.funding);
    let (session, _) = session.step(ReceiveEvent::Tx0 { transactions: vec![raw] }, &config);
    let (session, _) =
        session.step(ReceiveEvent::Info { info: Some(fixture.info.clone()) }, &config);
    let (session, _) = session.step(
        ReceiveEvent::Unspent { unspent: unspent(&fixture, 100), blockheight: 102 },
        &config,
    );
    let (_, action) = session.step(ReceiveEvent::Unlocked { status: 500 }, &config);
    assert_eq!(
        action,
        ReceiveAction::Fail {
            error: Error::SEProtocolError {
                code: ServerCode::Status(500),
                message: "the entity refused to unlock the coin".to_string()
            }
        }
    );
}

fn wallet_of(coin: Coin) -> Wallet {
    Wallet {
        name: "w".to_string(),
        network: Network::Regtest,
        seed: vec![7u8; 32],
        next_index: 1,
        coins: vec![coin],
        activities: Vec::new(),
        tokens: Vec::new(),
    }
}

#[test]
fn a_received_coin_enters_the_wallet_once() {
    let fixture = fixture();
    let mut run = ReceiveRun::start(wallet_of(receiver_coin(&fixture)));
    let auth = public(&fixture.receiver_auth).to_string();
    let (choice, coin) = run.select(&auth).unwrap();
    assert_eq!(choice, CoinChoice::Existing { position: 0 });
    assert_eq!(coin, receiver_coin(&fixture));
    let session = drive_to_receiver(&fixture, 100);
    let (_, action) = session.step(answer(200, None, Some(new_server_key(&fixture))), &config());
    let replay = action.clone();
    let stored = run.conclude(choice, action).unwrap();
    assert_eq!(stored.len(), 2);
    let mut store = BackupStore::new();
    store.insert_or_update_backup_txs(&stored);
    assert_eq!(store.count_of(&STATECHAIN_ID.to_string()), 2);
    store.insert_or_update_backup_txs(&stored);
    assert_eq!(store.count_of(&STATECHAIN_ID.to_string()), 2);
    assert_eq!(store.rows.len(), 2);
    assert!(run.already_received(&STATECHAIN_ID.to_string(), &public(&fixture.receiver).to_string()));
    assert_eq!(run.conclude(choice, replay), None);
    let (wallet, result) = run.finish();
    assert_eq!(wallet.coins.len(), 1);
    assert_eq!(wallet.coins[0].statechain_id, Some(STATECHAIN_ID.to_string()));
    assert_eq!(wallet.coins[0].status, CoinStatus::Confirmed);
    assert_eq!(wallet.activities.len(), 1);
    assert_eq!(result.received_statechain_ids, vec![STATECHAIN_ID.to_string()]);
    assert!(!result.is_there_batch_locked);
}

#[test]
fn a_locked_batch_is_noted_and_changes_no_coin() {
    let fixture = fixture();
    let wallet = wallet_of(receiver_coin(&fixture));
    let mut run = ReceiveRun::start(wallet.clone());
    let session = drive_to_receiver(&fixture, 100);
    let (_, action) = session.step(
        answer(400, Some(TransferReceiverError::StatecoinBatchLockedError), None),
        &config(),
    );
    assert_eq!(run.conclude(CoinChoice::Existing { position: 0 }, action), None);
    assert_eq!(
        run.conclude(
            CoinChoice::Existing { position: 0 },
            ReceiveAction::Fail { error: Error::NetworkUnavailable }
        ),
        None
    );
    let (after, result) = run.finish();
    assert_eq!(after, wallet);
    assert!(result.is_there_batch_locked);
    assert!(result.received_statechain_ids.is_empty());
}
