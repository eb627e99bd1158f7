//! Client-side rules of a statechain wallet.
//!
//! A statecoin is an output locked to a key that its owner shares with a
//! statechain entity. Ownership moves off-chain: the sender hands the
//! receiver a chain of backup transactions, each locked earlier than the
//! one before, and the receiver checks that chain before taking the coin.
//!
//! The modules, from the leaves up:
//! - `error`, `status`, `tx`, `wallet`, `transfer`: the data and the coin's
//!   lifecycle;
//! - `fee`, `locktime`: the rules on fees and lock times;
//! - `primitives`: what is taken on trust from outside libraries;
//! - `keys`: derivation, addresses and signatures of a coin;
//! - `backup`, `cpfp`: building backup transactions and their fee bumps;
//! - `validator`, `evidence`: the receiver's checks on a chain of backups;
//! - `receiver`, `install`, `receive`, `transfer_receiver`: receiving;
//! - `transfer_sender`, `deposit`, `withdraw`, `broadcast_backup_tx`: the
//!   other operations of a wallet;
//! - `indexer`, `entity`, `store`: what is concluded from the answers of
//!   the indexer and the entity, and the rows of backup transactions.
//!
//! Nothing here performs a request or reads a clock: operations that need
//! either take the answer as an argument and say what to ask for next.

pub mod backup;
pub mod broadcast_backup_tx;
pub mod cpfp;
pub mod deposit;
pub mod entity;
pub mod error;
pub mod evidence;
pub mod fee;
pub mod indexer;
pub mod install;
pub mod keys;
pub mod locktime;
pub mod primitives;
pub mod receive;
pub mod receiver;
pub mod status;
pub mod store;
pub mod transfer;
pub mod transfer_receiver;
pub mod transfer_sender;
pub mod tx;
pub mod validator;
pub mod wallet;
pub mod withdraw;
