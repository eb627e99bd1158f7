//! Transactions as the wallet's rules read them.

use vstd::prelude::*;

verus! {

/// The networks a wallet can be on.
#[derive(Clone, Copy, Debug, PartialEq, Eq, Structural)]
pub enum Network {
    Bitcoin,
    Testnet,
    Signet,
    Regtest,
}

/// An output of an earlier transaction: its transaction id in hex and its
/// position among that transaction's outputs.
#[derive(Clone, Debug, PartialEq, Eq)]
pub struct TxOutpoint {
    pub txid: String,
    pub vout: u32,
}

/// A `TxOutpoint` as a mathematical value.
pub struct TxOutpointView {
    pub txid: Seq<char>,
    pub vout: u32,
}

impl View for TxOutpoint {
    type V = TxOutpointView;

    open spec fn view(&self) -> TxOutpointView {
        TxOutpointView { txid: self.txid@, vout: self.vout }
    }
}

impl TxOutpoint {
    /// A copy of this outpoint.
    pub fn duplicate(&self) -> (copy: TxOutpoint)
        ensures
            copy@ == self@,
    {
        TxOutpoint { txid: self.txid.clone(), vout: self.vout }
    }
}

/// An input of a transaction: the output it spends, its signature script
/// and its witness stack.
#[derive(Clone, Debug, PartialEq, Eq)]
pub struct TxInput {
    pub txid: String,
    pub vout: u32,
    /// The signature script; empty where a witness unlocks the output.
    pub script_sig: Vec<u8>,
    /// The sequence number, which decides whether the lock time binds.
    pub sequence: u32,
    pub witness: Vec<Vec<u8>>,
}

/// A `TxInput` as a mathematical value.
pub struct TxInputView {
    pub txid: Seq<char>,
    pub vout: u32,
    pub script_sig: Seq<u8>,
    pub sequence: u32,
    pub witness: Seq<Seq<u8>>,
}

impl View for TxInput {
    type V = TxInputView;

    open spec fn view(&self) -> TxInputView {
        TxInputView {
            txid: self.txid@,
            vout: self.vout,
            script_sig: self.script_sig@,
            sequence: self.sequence,
            witness: Seq::new(self.witness@.len(), |j: int| self.witness@[j]@),
        }
    }
}

/// An output of a transaction: its value in satoshis and its locking script.
#[derive(Clone, Debug, PartialEq, Eq)]
pub struct TxOutput {
    pub value: u64,
    pub script_pubkey: Vec<u8>,
}

/// A `TxOutput` as a mathematical value.
pub struct TxOutputView {
    pub value: u64,
    pub script_pubkey: Seq<u8>,
}

impl View for TxOutput {
    type V = TxOutputView;

    open spec fn view(&self) -> TxOutputView {
        TxOutputView { value: self.value, script_pubkey: self.script_pubkey@ }
    }
}

/// A decoded transaction.
#[derive(Clone, Debug, PartialEq, Eq)]
pub struct Tx {
    pub version: i32,
    pub inputs: Vec<TxInput>,
    pub outputs: Vec<TxOutput>,
    pub lock_time: u32,
}

/// A `Tx` as a mathematical value.
pub struct TxView {
    pub version: i32,
    pub inputs: Seq<TxInputView>,
    pub outputs: Seq<TxOutputView>,
    pub lock_time: u32,
}

impl View for Tx {
    type V = TxView;

    open spec fn view(&self) -> TxView {
        TxView {
            version: self.version,
            inputs: Seq::new(self.inputs@.len(), |j: int| self.inputs@[j]@),
            outputs: Seq::new(self.outputs@.len(), |j: int| self.outputs@[j]@),
            lock_time: self.lock_time,
        }
    }
}

/// Whether `script` is a pay-to-taproot locking script: the version-one
/// opcode, a push of 32 bytes, and the 32 bytes of the output key.
pub open spec fn spec_is_p2tr(script: Seq<u8>) -> bool {
    script.len() == 34 && script[0] == 0x51 && script[1] == 0x20
}

/// The output key of a pay-to-taproot script.
pub open spec fn spec_p2tr_output_key(script: Seq<u8>) -> Seq<u8> {
    script.subrange(2, 34)
}

/// Whether `script` pays to a taproot output.
pub fn is_p2tr(script: &[u8]) -> (yes: bool)
    ensures
        yes == spec_is_p2tr(script@),
{
    script.len() == 34 && script[0] == 0x51 && script[1] == 0x20
}

/// The output key that a pay-to-taproot script locks to.
pub fn p2tr_output_key(script: &[u8]) -> (key: Vec<u8>)
    requires
        spec_is_p2tr(script@),
    ensures
        key@ == spec_p2tr_output_key(script@),
{
    let mut key: Vec<u8> = Vec::new();
    let mut i: usize = 2;
    while i < 34
        invariant
            2 <= i <= 34,
            script@.len() == 34,
            key@ == script@.subrange(2, i as int),
        decreases 34 - i,
    {
        key.push(script[i]);
        i = i + 1;
    }
    key
}

/// Whether two byte strings are the same.
pub fn bytes_equal(a: &[u8], b: &[u8]) -> (same: bool)
    ensures
        same == (a@ == b@),
{
    if a.len() != b.len() {
        return false;
    }
    let mut i: usize = 0;
    while i < a.len()
        invariant
            0 <= i <= a@.len(),
            a@.len() == b@.len(),
            forall|j: int| 0 <= j < i ==> a@[j] == b@[j],
        decreases a@.len() - i,
    {
        if a[i] != b[i] {
            return false;
        }
        i = i + 1;
    }
    assert(a@ =~= b@);
    true
}

} // verus!
