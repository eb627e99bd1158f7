//! The errors that wallet operations report.

use vstd::prelude::*;

verus! {

/// The checks that a receiver makes on a chain of backup transactions, in the
/// order in which they are made.
#[derive(Clone, Copy, Debug, PartialEq, Eq, Structural)]
pub enum ValidationStep {
    /// One input and one output each, dense numbering, the expected count,
    /// every backup spending the funding outpoint.
    Shape,
    /// Each backup pays the funded amount less a fee within tolerance.
    Amount,
    /// Lock times fall by at least the interval from one backup to the next.
    Locktime,
    /// The newest backup pays to the receiver.
    Destination,
    /// Each backup carries a signature that covers it.
    SignatureCover,
    /// The funding output is locked to the aggregate key.
    FundingPubkey,
}

/// The cryptographic material that was found invalid.
#[derive(Clone, Copy, Debug, PartialEq, Eq, Structural)]
pub enum CryptoItem {
    /// A private key in wallet import format.
    PrivateKey,
    /// A public key in hex.
    PublicKey,
    /// A Schnorr signature in hex.
    Signature,
    /// The signature by which the sender authorises a transfer.
    TransferSignature,
    /// An encrypted transfer message.
    Ciphertext,
    /// A transaction id in hex.
    Txid,
    /// A scalar of the curve's group order.
    Scalar,
    /// A sum of public keys.
    KeyAggregation,
    /// An address, or one for another network.
    Address,
}

/// What was looked for and not found.
#[derive(Clone, Copy, Debug, PartialEq, Eq, Structural)]
pub enum Entity {
    /// A coin of the wallet.
    Coin,
    /// The statechain entity's record of a statecoin.
    Statechain,
    /// A backup transaction of a coin.
    BackupTransaction,
    /// The unspent funding output of a coin.
    FundingOutput,
    /// The funding transaction of a coin.
    FundingTransaction,
}

/// The codes by which the statechain entity refuses a receiver's request.
#[derive(Clone, Copy, Debug, PartialEq, Eq, Structural)]
pub enum TransferReceiverError {
    /// The coin is part of a batch that is still locked.
    StatecoinBatchLockedError,
    /// The batch that the coin was part of has timed out.
    ExpiredBatchTimeError,
}

/// The code of an error that the statechain entity reported.
#[derive(Clone, Copy, Debug, PartialEq, Eq, Structural)]
pub enum ServerCode {
    /// The batch that the coin was part of has timed out.
    ExpiredBatchTime,
    /// Any other refusal, with the HTTP status of the response.
    Status(u16),
}

/// An error of a wallet operation.
#[derive(Clone, Debug, PartialEq, Eq)]
pub enum Error {
    /// The network could not be reached; the operation may be tried again.
    NetworkUnavailable,
    /// The statechain entity refused a request.
    SEProtocolError { code: ServerCode, message: String },
    /// A key, signature or ciphertext is malformed or does not verify.
    CryptoInvalid { which: CryptoItem },
    /// A chain of backup transactions failed a check.
    ChainValidationFailed { step: ValidationStep },
    /// No further backup can be made: the coin must be settled on-chain.
    LocktimeExhausted,
    /// The local store failed.
    PersistenceError,
    /// A coin or statechain that was referred to is missing.
    NotFound { entity: Entity },
    /// A fee leaves less than a spendable output.
    InsufficientValue,
}

impl Error {
    /// A one-line description for the user.
    pub fn message(&self) -> (text: String)
        ensures
            text@ == spec_message(*self),
    {
        match self {
            Error::NetworkUnavailable => "network unavailable".to_owned(),
            Error::SEProtocolError { message, .. } => message.clone(),
            Error::CryptoInvalid { .. } => "invalid cryptographic material".to_owned(),
            Error::ChainValidationFailed { .. } => "backup chain validation failed".to_owned(),
            Error::LocktimeExhausted => "lock time exhausted: settle the coin on-chain".to_owned(),
            Error::PersistenceError => "local store failure".to_owned(),
            Error::NotFound { .. } => "not found".to_owned(),
            Error::InsufficientValue => "insufficient value".to_owned(),
        }
    }

    /// The exit code of a command that ends with this error: one per kind,
    /// never zero.
    pub fn exit_code(&self) -> (code: u8)
        ensures
            code == spec_exit_code(*self),
            1 <= code <= 8,
    {
        match self {
            Error::NetworkUnavailable => 1,
            Error::SEProtocolError { .. } => 2,
            Error::CryptoInvalid { .. } => 3,
            Error::ChainValidationFailed { .. } => 4,
            Error::LocktimeExhausted => 5,
            Error::PersistenceError => 6,
            Error::NotFound { .. } => 7,
            Error::InsufficientValue => 8,
        }
    }

    /// Whether the operation may be tried again unchanged.
    pub fn is_retryable(&self) -> (retry: bool)
        ensures
            retry == (*self is NetworkUnavailable),
    {
        match self {
            Error::NetworkUnavailable => true,
            _ => false,
        }
    }
}

/// The description of each kind of error; an error of the statechain
/// entity is described by the entity's own message.
pub open spec fn spec_message(error: Error) -> Seq<char> {
    match error {
        Error::NetworkUnavailable => "network unavailable"@,
        Error::SEProtocolError { message, .. } => message@,
        Error::CryptoInvalid { .. } => "invalid cryptographic material"@,
        Error::ChainValidationFailed { .. } => "backup chain validation failed"@,
        Error::LocktimeExhausted => "lock time exhausted: settle the coin on-chain"@,
        Error::PersistenceError => "local store failure"@,
        Error::NotFound { .. } => "not found"@,
        Error::InsufficientValue => "insufficient value"@,
    }
}

/// The exit code that stands for each kind of error.
pub open spec fn spec_exit_code(error: Error) -> u8 {
    match error {
        Error::NetworkUnavailable => 1,
        Error::SEProtocolError { .. } => 2,
        Error::CryptoInvalid { .. } => 3,
        Error::ChainValidationFailed { .. } => 4,
        Error::LocktimeExhausted => 5,
        Error::PersistenceError => 6,
        Error::NotFound { .. } => 7,
        Error::InsufficientValue => 8,
    }
}

} // verus!
