//! Receiving one transfer message, step by step.
//!
//! A `ReceiveSession` holds what is known about a message so far. Each step
//! takes the answer to the last request (the funding transaction, the
//! entity's record, the unspent outputs, the entity's replies) and decides
//! the next request, or ends the session with the coin to install, a locked
//! batch or an error. The caller performs the requests; nothing here waits.

use vstd::prelude::*;
use crate::entity::{
    send_transfer_receiver_request_payload, spec_is_success, spec_receiver_outcome,
    unlock_statecoin, ReceiverResponse,
};
use crate::error::{CryptoItem, Entity, Error, ServerCode};
use crate::evidence::{output_of, spec_chain_evidence, spec_output_of, validate_signature_scheme};
use crate::indexer::{
    get_tx0, spec_tx0_hex, spec_unspent_status, unspent_views,
    verify_tx0_output_is_unspent_and_confirmed, UnspentOutput,
};
use crate::install::{
    create_transfer_receiver_request_payload, get_new_key_info, install_received,
    spec_installed, spec_new_key_info, spec_signing_failed, spec_t2,
};
use crate::keys::sign_message;
use crate::receiver::{
    get_tx0_outpoint, spec_tx0_outpoint, spec_verify_transfer_signature,
    verify_transfer_signature, TransferReceiverRequestPayload, TransferUnlockRequestPayload,
};
use crate::status::CoinStatus;
use crate::transfer::{StatechainInfo, TransferMsg};
use crate::tx::{Network, TxOutpoint};
use crate::validator::spec_validate;
use crate::wallet::{
    backup_views, opt_text, Activity, ActivityAction, ActivityView, BackupTx, Coin,
};

verus! {

/// What a receiver holds fixed while it takes transfers.
#[derive(Clone, Copy, Debug, PartialEq, Eq)]
pub struct ReceiveConfig {
    pub network: Network,
    /// The confirmations at which a funding output counts as confirmed.
    pub confirmation_target: u32,
    /// How far a backup's fee rate may lie from the recorded one, in
    /// satoshis per virtual byte.
    pub fee_rate_tolerance: u32,
}

/// What came of one transfer message.
#[derive(Clone, Debug, PartialEq, Eq)]
pub struct MessageResult {
    pub is_batch_locked: bool,
    /// The statecoin that was received, if one was.
    pub statechain_id: Option<String>,
}

/// Where a session stands: the answer it waits for.
#[derive(Clone, Copy, Debug, PartialEq, Eq, Structural)]
pub enum ReceivePhase {
    AwaitTx0,
    AwaitInfo,
    AwaitUnspent,
    AwaitUnlock,
    AwaitReceiver,
    Done,
}

/// What is known about a transfer message so far.
#[derive(Clone, Debug, PartialEq, Eq)]
pub struct ReceiveSession {
    pub phase: ReceivePhase,
    /// The coin that is to take the transfer.
    pub coin: Coin,
    pub message: TransferMsg,
    /// The funding outpoint, once the first answer is awaited.
    pub outpoint: TxOutpoint,
    /// The funding transaction in hex, once it has arrived.
    pub tx0_hex: String,
    /// The lock time of the newest backup, once the chain is validated.
    pub locktime: u32,
    /// Whether the funding output has reached the confirmation target.
    pub confirmed: bool,
}

/// The answer to a session's last request.
#[derive(Clone, Debug, PartialEq, Eq)]
pub enum ReceiveEvent {
    /// The raw transactions that the indexer has for the funding id.
    Tx0 { transactions: Vec<Vec<u8>> },
    /// The entity's record of the statecoin, if it has one.
    Info { info: Option<StatechainInfo> },
    /// The unspent outputs of the funding script and the chain's height.
    Unspent { unspent: Vec<UnspentOutput>, blockheight: u64 },
    /// The HTTP status of the entity's reply to the unlock request.
    Unlocked { status: u16 },
    /// The entity's reply to the receiver's request, and the time now.
    Receiver { response: ReceiverResponse, date: String },
}

/// What a session asks of its caller next, or how it ended.
#[derive(Clone, Debug, PartialEq, Eq)]
pub enum ReceiveAction {
    /// Fetch the raw transaction with this id from the indexer.
    FetchTx0 { txid: String },
    /// Fetch the entity's record of this statecoin.
    FetchInfo { statechain_id: String },
    /// List the unspent outputs of this script and read the chain's height.
    ListUnspent { script: Vec<u8> },
    /// Post this unlock request to the entity.
    Unlock { unlock: TransferUnlockRequestPayload },
    /// Post this receiver request to the entity.
    PostReceiver { payload: TransferReceiverRequestPayload },
    /// The transfer is complete: put the coin into the wallet, append the
    /// record to the activity log and store the backup transactions.
    Install {
        coin: Coin,
        activity: Activity,
        backup_transactions: Vec<BackupTx>,
        result: MessageResult,
    },
    /// The coin is in a locked batch: nothing changes, try again later.
    BatchLocked { result: MessageResult },
    /// The message is refused: nothing changes.
    Fail { error: Error },
}

/// The views of a list of raw transactions.
pub open spec fn raw_views(transactions: Seq<Vec<u8>>) -> Seq<Seq<u8>> {
    Seq::new(transactions.len(), |i: int| transactions[i]@)
}

/// The session ended with `error`.
pub open spec fn spec_failed(after: ReceiveSession, action: ReceiveAction, error: Error) -> bool {
    after.phase == ReceivePhase::Done && action == (ReceiveAction::Fail { error })
}

/// The session ended because a signature could not be made: the coin's
/// authentication key is not in wallet import format.
pub open spec fn spec_failed_signing(
    before: ReceiveSession,
    after: ReceiveSession,
    action: ReceiveAction,
) -> bool {
    &&& after.phase == ReceivePhase::Done
    &&& action matches ReceiveAction::Fail { error }
    &&& spec_signing_failed(before.coin.auth_privkey@, error)
}

/// What is kept from one step to the next, but for the phase.
pub open spec fn spec_carried(before: ReceiveSession, after: ReceiveSession) -> bool {
    &&& after.coin@ == before.coin@
    &&& after.message@ == before.message@
    &&& after.outpoint@ == before.outpoint@
    &&& after.tx0_hex@ == before.tx0_hex@
    &&& after.locktime == before.locktime
    &&& after.confirmed == before.confirmed
}

/// A session starts by reading the funding outpoint from the message and
/// asking for the funding transaction. Only a coin that is initialised can
/// take a transfer.
pub open spec fn spec_begun(
    coin: Coin,
    message: TransferMsg,
    after: ReceiveSession,
    action: ReceiveAction,
) -> bool {
    if coin.status != CoinStatus::Initialised {
        spec_failed(after, action, Error::NotFound { entity: Entity::Coin })
    } else {
        match spec_tx0_outpoint(message@.backup_transactions) {
            Ok(outpoint) => {
                &&& after.phase == ReceivePhase::AwaitTx0
                &&& after.coin@ == coin@
                &&& after.message@ == message@
                &&& after.outpoint@ == outpoint
                &&& action matches ReceiveAction::FetchTx0 { txid }
                &&& txid@ == outpoint.txid
            },
            Err(error) => spec_failed(after, action, error),
        }
    }
}

/// With the funding transaction in hand the sender's signature is checked,
/// then the entity's record is asked for.
pub open spec fn spec_after_tx0(
    before: ReceiveSession,
    transactions: Seq<Seq<u8>>,
    after: ReceiveSession,
    action: ReceiveAction,
) -> bool {
    match spec_tx0_hex(transactions) {
        Ok(tx0_hex) => match spec_verify_transfer_signature(
            before.coin@.user_pubkey,
            before.outpoint@,
            before.message@,
        ) {
            Ok(valid) => if valid {
                &&& after.phase == ReceivePhase::AwaitInfo
                &&& after.tx0_hex@ == tx0_hex
                &&& after.coin@ == before.coin@
                &&& after.message@ == before.message@
                &&& after.outpoint@ == before.outpoint@
                &&& action matches ReceiveAction::FetchInfo { statechain_id }
                &&& statechain_id@ == before.message@.statechain_id
            } else {
                spec_failed(
                    after,
                    action,
                    Error::CryptoInvalid { which: CryptoItem::TransferSignature },
                )
            },
            Err(error) => spec_failed(after, action, error),
        },
        Err(error) => spec_failed(after, action, error),
    }
}

/// With the entity's record in hand the chain of backups is validated,
/// then the unspent outputs of the funding script are asked for.
pub open spec fn spec_after_info(
    before: ReceiveSession,
    info: Option<StatechainInfo>,
    tolerance: u32,
    after: ReceiveSession,
    action: ReceiveAction,
) -> bool {
    match info {
        Some(record) => match spec_validate(
            spec_chain_evidence(
                before.message@,
                record@,
                before.tx0_hex@,
                before.outpoint@,
                before.coin@.user_pubkey,
            ),
            record@,
            tolerance,
        ) {
            Ok(locktime) => {
                &&& after.phase == ReceivePhase::AwaitUnspent
                &&& after.locktime == locktime
                &&& after.coin@ == before.coin@
                &&& after.message@ == before.message@
                &&& after.outpoint@ == before.outpoint@
                &&& after.tx0_hex@ == before.tx0_hex@
                &&& action matches ReceiveAction::ListUnspent { script }
                &&& spec_output_of(before.tx0_hex@, before.outpoint.vout) matches Some(funding)
                &&& script@ == funding.script_pubkey
            },
            Err(error) => spec_failed(after, action, error),
        },
        None => spec_failed(after, action, Error::NotFound { entity: Entity::Statechain }),
    }
}

/// With the unspent outputs in hand the funding output must be among
/// them; then the statecoin's id is signed and the unlock request made.
pub open spec fn spec_after_unspent(
    before: ReceiveSession,
    unspent: Seq<UnspentOutput>,
    blockheight: u64,
    target: u32,
    after: ReceiveSession,
    action: ReceiveAction,
) -> bool {
    let found = spec_unspent_status(unspent_views(unspent), before.outpoint@, blockheight, target);
    if found.0 {
        ||| {
            &&& after.phase == ReceivePhase::AwaitUnlock
            &&& after.confirmed == (found.1 == CoinStatus::Confirmed)
            &&& after.coin@ == before.coin@
            &&& after.message@ == before.message@
            &&& after.outpoint@ == before.outpoint@
            &&& after.tx0_hex@ == before.tx0_hex@
            &&& after.locktime == before.locktime
            &&& action matches ReceiveAction::Unlock { unlock }
            &&& unlock.statechain_id@ == before.message@.statechain_id
            &&& opt_text(unlock.auth_pub_key) == Some(before.coin@.auth_pubkey)
            &&& crate::keys::spec_signed_by(
                before.coin.auth_privkey@,
                before.message@.statechain_id,
                unlock.auth_sig@,
            )
        }
        ||| spec_failed_signing(before, after, action)
    } else {
        spec_failed(after, action, Error::NotFound { entity: Entity::FundingOutput })
    }
}

/// Once the entity has unlocked the coin, the receiver's request is made.
pub open spec fn spec_after_unlocked(
    before: ReceiveSession,
    status: u16,
    after: ReceiveSession,
    action: ReceiveAction,
) -> bool {
    if spec_is_success(status) {
        match spec_t2(before.message@.t1, before.coin@.user_privkey) {
            Ok(t2) => {
                ||| {
                    &&& after.phase == ReceivePhase::AwaitReceiver
                    &&& spec_carried(before, after)
                    &&& action matches ReceiveAction::PostReceiver { payload }
                    &&& payload.statechain_id@ == before.message@.statechain_id
                    &&& payload.t2@ == t2
                    &&& payload.batch_data is None
                    &&& crate::keys::spec_signed_by(
                        before.coin.auth_privkey@,
                        t2,
                        payload.auth_sig@,
                    )
                }
                ||| spec_failed_signing(before, after, action)
            },
            Err(error) => spec_failed(after, action, error),
        }
    } else {
        &&& after.phase == ReceivePhase::Done
        &&& action matches ReceiveAction::Fail { error: Error::SEProtocolError { code, message } }
        &&& code == ServerCode::Status(status)
        &&& message@ == crate::entity::spec_unlock_refused()
    }
}

/// The status of a received coin whose funding output has or has not
/// reached the confirmation target.
pub open spec fn spec_received_status(confirmed: bool) -> CoinStatus {
    if confirmed {
        CoinStatus::Confirmed
    } else {
        CoinStatus::Unconfirmed
    }
}

/// The session ended with the coin installed: the statecoin of the message
/// under the entity's new share `server_pubkey`, with a record for the log
/// and all backup transactions of the message to store.
pub open spec fn spec_installs(
    before: ReceiveSession,
    server_pubkey: Seq<char>,
    aggregate: Seq<char>,
    address: Seq<char>,
    amount: u64,
    date: Seq<char>,
    after: ReceiveSession,
    action: ReceiveAction,
) -> bool {
    &&& after.phase == ReceivePhase::Done
    &&& action matches ReceiveAction::Install { coin, activity, backup_transactions, result }
    &&& coin@.signed_statechain_id matches Some(signature)
    &&& crate::keys::spec_signed_by(
        before.coin.auth_privkey@,
        before.message@.statechain_id,
        signature,
    )
    &&& coin@ == spec_installed(
        before.coin@,
        server_pubkey,
        aggregate,
        address,
        signature,
        amount,
        before.message@.statechain_id,
        before.outpoint@,
        before.locktime,
        spec_received_status(before.confirmed),
    )
    &&& activity@ == (ActivityView {
        utxo: before.outpoint@.txid,
        vout: before.outpoint@.vout,
        amount,
        action: ActivityAction::Receive,
        date,
    })
    &&& backup_views(backup_transactions@) == before.message@.backup_transactions
    &&& !result.is_batch_locked
    &&& opt_text(result.statechain_id) == Some(before.message@.statechain_id)
}

/// With the entity's reply in hand the session ends: with an error where
/// the entity refused, with nothing changed where the batch is locked, and
/// else with the coin to install.
pub open spec fn spec_after_receiver(
    before: ReceiveSession,
    response: ReceiverResponse,
    date: Seq<char>,
    network: Network,
    after: ReceiveSession,
    action: ReceiveAction,
) -> bool {
    match spec_receiver_outcome(
        response.status,
        response.code,
        opt_text(response.message),
        opt_text(response.server_pubkey),
        response.body@,
    ) {
        Ok((locked, key)) => if locked {
            &&& after.phase == ReceivePhase::Done
            &&& action matches ReceiveAction::BatchLocked { result }
            &&& result.is_batch_locked
            &&& result.statechain_id is None
        } else {
            match spec_new_key_info(
                key.unwrap(),
                before.coin@.user_pubkey,
                before.outpoint@,
                before.tx0_hex@,
                network,
            ) {
                Ok((aggregate, address, amount)) => {
                    ||| before.coin.status == CoinStatus::Initialised && spec_installs(
                        before,
                        key.unwrap(),
                        aggregate,
                        address,
                        amount,
                        date,
                        after,
                        action,
                    )
                    ||| before.coin.status != CoinStatus::Initialised && spec_failed(
                        after,
                        action,
                        Error::NotFound { entity: Entity::Coin },
                    )
                    ||| spec_failed_signing(before, after, action)
                },
                Err(error) => spec_failed(after, action, error),
            }
        },
        Err((code, message)) => {
            &&& after.phase == ReceivePhase::Done
            &&& action matches ReceiveAction::Fail { error: Error::SEProtocolError { code: c, message: m } }
            &&& c == code
            &&& m@ == message
        },
    }
}

/// What a step does with an answer that the session does not wait for: it
/// ends the session with an error of the protocol.
pub open spec fn spec_unexpected(after: ReceiveSession, action: ReceiveAction) -> bool {
    &&& after.phase == ReceivePhase::Done
    &&& action matches ReceiveAction::Fail { error: Error::SEProtocolError { code, message } }
    &&& code == ServerCode::Status(0)
    &&& message@ == Seq::<char>::empty()
}

/// What one step of a session comes to, for each phase and the answer it
/// waits for.
pub open spec fn spec_stepped(
    before: ReceiveSession,
    event: ReceiveEvent,
    config: ReceiveConfig,
    after: ReceiveSession,
    action: ReceiveAction,
) -> bool {
    match (before.phase, event) {
        (ReceivePhase::AwaitTx0, ReceiveEvent::Tx0 { transactions }) => spec_after_tx0(
            before,
            raw_views(transactions@),
            after,
            action,
        ),
        (ReceivePhase::AwaitInfo, ReceiveEvent::Info { info }) => spec_after_info(
            before,
            info,
            config.fee_rate_tolerance,
            after,
            action,
        ),
        (ReceivePhase::AwaitUnspent, ReceiveEvent::Unspent { unspent, blockheight }) => spec_after_unspent(
            before,
            unspent@,
            blockheight,
            config.confirmation_target,
            after,
            action,
        ),
        (ReceivePhase::AwaitUnlock, ReceiveEvent::Unlocked { status }) => spec_after_unlocked(
            before,
            status,
            after,
            action,
        ),
        (ReceivePhase::AwaitReceiver, ReceiveEvent::Receiver { response, date }) => spec_after_receiver(
            before,
            response,
            date@,
            config.network,
            after,
            action,
        ),
        _ => spec_unexpected(after, action),
    }
}

fn copy_backups(backups: &Vec<BackupTx>) -> (copy: Vec<BackupTx>)
    ensures
        backup_views(copy@) == backup_views(backups@),
{
    let mut copy: Vec<BackupTx> = Vec::new();
    let mut i: usize = 0;
    while i < backups.len()
        invariant
            0 <= i <= backups@.len(),
            copy@.len() == i,
            forall|j: int| 0 <= j < i ==> (#[trigger] copy@[j])@ == backups@[j]@,
        decreases backups@.len() - i,
    {
        copy.push(backups[i].duplicate());
        i = i + 1;
    }
    assert(backup_views(copy@) =~= backup_views(backups@));
    copy
}

impl ReceiveSession {
    fn fail(self, error: Error) -> (ended: (ReceiveSession, ReceiveAction))
        ensures
            spec_failed(ended.0, ended.1, error),
    {
        let mut session = self;
        session.phase = ReceivePhase::Done;
        (session, ReceiveAction::Fail { error })
    }

    /// Starts a session for `coin` and `message`.
    pub fn begin(coin: Coin, message: TransferMsg) -> (started: (ReceiveSession, ReceiveAction))
        ensures
            spec_begun(coin, message, started.0, started.1),
    {
        let initialised = match coin.status {
            CoinStatus::Initialised => true,
            _ => false,
        };
        let found = get_tx0_outpoint(&message.backup_transactions);
        let session = ReceiveSession {
            phase: ReceivePhase::AwaitTx0,
            coin,
            message,
            outpoint: TxOutpoint { txid: String::new(), vout: 0 },
            tx0_hex: String::new(),
            locktime: 0,
            confirmed: false,
        };
        if !initialised {
            return session.fail(Error::NotFound { entity: Entity::Coin });
        }
        match found {
            Ok(outpoint) => {
                let txid = outpoint.txid.clone();
                let mut session = session;
                session.outpoint = outpoint;
                (session, ReceiveAction::FetchTx0 { txid })
            },
            Err(error) => session.fail(error),
        }
    }

    /// Takes the funding transaction as the indexer gave it.
    pub fn on_tx0(self, transactions: &Vec<Vec<u8>>) -> (next: (ReceiveSession, ReceiveAction))
        ensures
            spec_after_tx0(self, raw_views(transactions@), next.0, next.1),
    {
        let tx0_hex = match get_tx0(transactions) {
            Ok(tx0_hex) => tx0_hex,
            Err(error) => { return self.fail(error); },
        };
        match verify_transfer_signature(self.coin.user_pubkey.as_str(), &self.outpoint, &self.message) {
            Ok(true) => {
                let statechain_id = self.message.statechain_id.clone();
                let mut session = self;
                session.phase = ReceivePhase::AwaitInfo;
                session.tx0_hex = tx0_hex;
                (session, ReceiveAction::FetchInfo { statechain_id })
            },
            Ok(false) => self.fail(Error::CryptoInvalid { which: CryptoItem::TransferSignature }),
            Err(error) => self.fail(error),
        }
    }

    /// Takes the entity's record of the statecoin.
    pub fn on_info(self, info: &Option<StatechainInfo>, fee_rate_tolerance: u32) -> (next: (
        ReceiveSession,
        ReceiveAction,
    ))
        ensures
            spec_after_info(self, *info, fee_rate_tolerance, next.0, next.1),
    {
        let record = match info {
            Some(record) => record,
            None => { return self.fail(Error::NotFound { entity: Entity::Statechain }); },
        };
        let locktime = match validate_signature_scheme(
            &self.message,
            record,
            &self.tx0_hex,
            &self.outpoint,
            &self.coin.user_pubkey,
            fee_rate_tolerance,
        ) {
            Ok(locktime) => locktime,
            Err(error) => { return self.fail(error); },
        };
        match output_of(&self.tx0_hex, self.outpoint.vout) {
            Some(funding) => {
                let mut session = self;
                session.phase = ReceivePhase::AwaitUnspent;
                session.locktime = locktime;
                (session, ReceiveAction::ListUnspent { script: funding.script_pubkey })
            },
            None => self.fail(Error::NotFound { entity: Entity::FundingOutput }),
        }
    }

    /// Takes the unspent outputs of the funding script and the chain's
    /// height.
    pub fn on_unspent(
        self,
        unspent: &Vec<UnspentOutput>,
        blockheight: u64,
        confirmation_target: u32,
    ) -> (next: (ReceiveSession, ReceiveAction))
        ensures
            spec_after_unspent(self, unspent@, blockheight, confirmation_target, next.0, next.1),
    {
        let (found, status) = verify_tx0_output_is_unspent_and_confirmed(
            unspent,
            &self.outpoint,
            blockheight,
            confirmation_target,
        );
        if !found {
            return self.fail(Error::NotFound { entity: Entity::FundingOutput });
        }
        let auth_sig = match sign_message(&self.message.statechain_id, &self.coin) {
            Ok(signature) => signature,
            Err(error) => { return self.fail(error); },
        };
        let unlock = TransferUnlockRequestPayload {
            statechain_id: self.message.statechain_id.clone(),
            auth_sig,
            auth_pub_key: Some(self.coin.auth_pubkey.clone()),
        };
        let mut session = self;
        session.phase = ReceivePhase::AwaitUnlock;
        session.confirmed = match status {
            CoinStatus::Confirmed => true,
            _ => false,
        };
        (session, ReceiveAction::Unlock { unlock })
    }

    /// Takes the HTTP status of the entity's reply to the unlock request.
    pub fn on_unlocked(self, status: u16) -> (next: (ReceiveSession, ReceiveAction))
        ensures
            spec_after_unlocked(self, status, next.0, next.1),
    {
        match unlock_statecoin(status) {
            Ok(()) => {},
            Err(error) => { return self.fail(error); },
        }
        match create_transfer_receiver_request_payload(&self.message, &self.coin) {
            Ok(payload) => {
                let mut session = self;
                session.phase = ReceivePhase::AwaitReceiver;
                (session, ReceiveAction::PostReceiver { payload })
            },
            Err(error) => self.fail(error),
        }
    }

    /// Takes the entity's reply to the receiver's request, and the time at
    /// which it came.
    pub fn on_receiver(self, response: ReceiverResponse, date: String, network: Network) -> (next: (
        ReceiveSession,
        ReceiveAction,
    ))
        ensures
            spec_after_receiver(self, response, date@, network, next.0, next.1),
    {
        let server_pubkey = match send_transfer_receiver_request_payload(response) {
            Ok(answer) => {
                if answer.is_batch_locked {
                    let mut session = self;
                    session.phase = ReceivePhase::Done;
                    let result = MessageResult { is_batch_locked: true, statechain_id: None };
                    return (session, ReceiveAction::BatchLocked { result });
                }
                match answer.server_pubkey {
                    Some(key) => key,
                    None => {
                        return self.fail(
                            Error::SEProtocolError {
                                code: ServerCode::Status(0),
                                message: String::new(),
                            },
                        );
                    },
                }
            },
            Err(error) => { return self.fail(error); },
        };
        let key_info = match get_new_key_info(
            &server_pubkey,
            &self.coin,
            &self.message.statechain_id,
            &self.outpoint,
            &self.tx0_hex,
            network,
        ) {
            Ok(key_info) => key_info,
            Err(error) => { return self.fail(error); },
        };
        let mut coin = self.coin.duplicate();
        let installed = install_received(
            &mut coin,
            server_pubkey,
            key_info,
            &self.message.statechain_id,
            &self.outpoint,
            self.locktime,
            self.confirmed,
            date,
        );
        match installed {
            Ok(activity) => {
                let backup_transactions = copy_backups(&self.message.backup_transactions);
                let result = MessageResult {
                    is_batch_locked: false,
                    statechain_id: Some(self.message.statechain_id.clone()),
                };
                let mut session = self;
                session.phase = ReceivePhase::Done;
                (session, ReceiveAction::Install { coin, activity, backup_transactions, result })
            },
            Err(error) => self.fail(error),
        }
    }

    /// Takes the answer to the session's last request and decides what
    /// comes next. An answer that the session does not wait for ends it.
    pub fn step(self, event: ReceiveEvent, config: &ReceiveConfig) -> (next: (
        ReceiveSession,
        ReceiveAction,
    ))
        ensures
            spec_stepped(self, event, *config, next.0, next.1),
    {
        match (self.phase, event) {
            (ReceivePhase::AwaitTx0, ReceiveEvent::Tx0 { transactions }) => self.on_tx0(
                &transactions,
            ),
            (ReceivePhase::AwaitInfo, ReceiveEvent::Info { info }) => self.on_info(
                &info,
                config.fee_rate_tolerance,
            ),
            (ReceivePhase::AwaitUnspent, ReceiveEvent::Unspent { unspent, blockheight }) => self.on_unspent(
                &unspent,
                blockheight,
                config.confirmation_target,
            ),
            (ReceivePhase::AwaitUnlock, ReceiveEvent::Unlocked { status }) => self.on_unlocked(
                status,
            ),
            (ReceivePhase::AwaitReceiver, ReceiveEvent::Receiver { response, date }) => self.on_receiver(
                response,
                date,
                config.network,
            ),
            _ => self.fail(
                Error::SEProtocolError { code: ServerCode::Status(0), message: String::new() },
            ),
        }
    }
}

/// A session that installs a coin does so for the statecoin of its
/// message, and hands over as many backup transactions as the message
/// holds.
pub proof fn lemma_install_matches_message(
    before: ReceiveSession,
    response: ReceiverResponse,
    date: Seq<char>,
    network: Network,
    after: ReceiveSession,
    action: ReceiveAction,
)
    requires
        spec_after_receiver(before, response, date, network, after, action),
        action is Install,
    ensures
        action matches ReceiveAction::Install { coin, backup_transactions, .. }
            && coin@.statechain_id == Some(before.message@.statechain_id)
            && backup_transactions@.len() == before.message.backup_transactions@.len()
            && coin@.user_pubkey == before.coin@.user_pubkey,
{
    match action {
        ReceiveAction::Install { coin, backup_transactions, .. } => {
            assert(backup_views(backup_transactions@).len() == backup_transactions@.len());
            assert(before.message@.backup_transactions.len()
                == before.message.backup_transactions@.len());
        },
        _ => {},
    }
}

/// A session that has ended stays ended: whatever answer comes, the next
/// step is a failure and asks for nothing.
pub proof fn lemma_done_is_final(
    before: ReceiveSession,
    event: ReceiveEvent,
    config: ReceiveConfig,
    after: ReceiveSession,
    action: ReceiveAction,
)
    requires
        before.phase == ReceivePhase::Done,
        spec_stepped(before, event, config, after, action),
    ensures
        after.phase == ReceivePhase::Done,
        action is Fail,
{
}

} // verus!
