//! What moves between sender, statechain entity and receiver in a transfer.

use vstd::prelude::*;
use crate::wallet::{backup_views, BackupTx, BackupTxView};

verus! {

/// The message by which a sender hands a coin to a receiver.
#[derive(Clone, Debug, PartialEq, Eq)]
pub struct TransferMsg {
    pub statechain_id: String,
    /// The key share under which the transfer signature was made.
    pub user_public_key: String,
    /// The blinded tweak, 32 bytes in hex.
    pub t1: String,
    /// The signature that commits the sender to the funding outpoint and to
    /// the receiver's key share.
    pub transfer_signature: String,
    /// All backup transactions of the coin, the newest last.
    pub backup_transactions: Vec<BackupTx>,
}

/// A `TransferMsg` as a mathematical value.
pub struct TransferMsgView {
    pub statechain_id: Seq<char>,
    pub user_public_key: Seq<char>,
    pub t1: Seq<char>,
    pub transfer_signature: Seq<char>,
    pub backup_transactions: Seq<BackupTxView>,
}

impl View for TransferMsg {
    type V = TransferMsgView;

    open spec fn view(&self) -> TransferMsgView {
        TransferMsgView {
            statechain_id: self.statechain_id@,
            user_public_key: self.user_public_key@,
            t1: self.t1@,
            transfer_signature: self.transfer_signature@,
            backup_transactions: backup_views(self.backup_transactions@),
        }
    }
}

/// What the statechain entity recorded when it co-signed one backup
/// transaction.
#[derive(Clone, Debug, PartialEq, Eq)]
pub struct SignatureDescriptor {
    /// The SHA-256 digest of the blinding factor, in lower-case hex.
    pub blind_commitment: String,
    /// The fee rate at the time, in satoshis per virtual byte.
    pub fee_rate: u32,
}

/// A `SignatureDescriptor` as a mathematical value.
pub struct SignatureDescriptorView {
    pub blind_commitment: Seq<char>,
    pub fee_rate: u32,
}

impl View for SignatureDescriptor {
    type V = SignatureDescriptorView;

    open spec fn view(&self) -> SignatureDescriptorView {
        SignatureDescriptorView { blind_commitment: self.blind_commitment@, fee_rate: self.fee_rate }
    }
}

/// The statechain entity's public record of a statecoin.
#[derive(Clone, Debug, PartialEq, Eq)]
pub struct StatechainInfo {
    /// The entity's share of the coin's key.
    pub enclave_public_key: String,
    /// How many backup transactions the entity has co-signed.
    pub num_sigs: u32,
    /// One descriptor for each co-signed backup transaction, in order.
    pub signatures: Vec<SignatureDescriptor>,
    /// The number of blocks by which each backup's lock time must fall.
    pub interval: u32,
}

/// A `StatechainInfo` as a mathematical value.
pub struct StatechainInfoView {
    pub enclave_public_key: Seq<char>,
    pub num_sigs: u32,
    pub signatures: Seq<SignatureDescriptorView>,
    pub interval: u32,
}

impl View for StatechainInfo {
    type V = StatechainInfoView;

    open spec fn view(&self) -> StatechainInfoView {
        StatechainInfoView {
            enclave_public_key: self.enclave_public_key@,
            num_sigs: self.num_sigs,
            signatures: Seq::new(self.signatures@.len(), |i: int| self.signatures@[i]@),
            interval: self.interval,
        }
    }
}

} // verus!
