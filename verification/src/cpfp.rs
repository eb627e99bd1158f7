//! Bumping the fee of a broadcast backup transaction.
//!
//! The child spends the backup's only output, which must pay to the coin's
//! own key. It pays whatever the backup paid too little for the two of them
//! together to reach the target rate.

use vstd::prelude::*;
use crate::backup::{
    destination_script, encode_transaction, signed_spend, spec_encode_transaction,
    spec_signed_spend,
};
use crate::error::{CryptoItem, Entity, Error, ValidationStep};
use crate::primitives::{
    decode_transaction, hex_decode, key_spend_key, sign_key_spend, spec_address_script,
    spec_decode_transaction, spec_hex_decode, spec_key_spend_key, spec_schnorr_verify,
    spec_taproot_sighash, spec_transaction_txid, spec_transaction_vsize, taproot_sighash,
    transaction_txid, transaction_vsize,
};
use crate::receiver::text_result;
use crate::tx::{bytes_equal, is_p2tr, p2tr_output_key, spec_is_p2tr, spec_p2tr_output_key, Network};
use crate::wallet::{BackupTx, BackupTxView, Coin};

verus! {

/// The virtual size of the child transaction: one taproot key-path input,
/// one output.
pub const CPFP_TX_VSIZE: u64 = 111;

/// The least value, in satoshis, that an output may hold and still be
/// relayed.
pub const DUST_LIMIT: u64 = 330;

/// The fee that the child pays: what the two transactions owe together at
/// `rate`, less what the parent has paid; nothing where the parent has
/// paid enough.
pub open spec fn spec_child_fee(parent_fee: int, parent_vsize: int, child_vsize: int, rate: int) -> int {
    let owed = rate * (parent_vsize + child_vsize);
    if owed > parent_fee {
        owed - parent_fee
    } else {
        0
    }
}

/// The value of the child's output: the parent's output less the child's
/// fee, refused where that would be dust.
pub open spec fn spec_child_value(
    parent_value: u64,
    parent_fee: u64,
    parent_vsize: u64,
    child_vsize: u64,
    rate: u64,
) -> Result<u64, Error> {
    let fee = spec_child_fee(parent_fee as int, parent_vsize as int, child_vsize as int, rate as int);
    if parent_value - fee >= DUST_LIMIT {
        Ok((parent_value - fee) as u64)
    } else {
        Err(Error::InsufficientValue)
    }
}

/// Decides the value of the child's output.
pub fn child_value(
    parent_value: u64,
    parent_fee: u64,
    parent_vsize: u64,
    child_vsize: u64,
    rate: u64,
) -> (value: Result<u64, Error>)
    ensures
        value == spec_child_value(parent_value, parent_fee, parent_vsize, child_vsize, rate),
{
    let size: u128 = parent_vsize as u128 + child_vsize as u128;
    let owed = match (rate as u128).checked_mul(size) {
        Some(owed) => owed,
        None => {
            assert(rate * (parent_vsize + child_vsize) > u128::MAX);
            return Err(Error::InsufficientValue);
        },
    };
    assert(owed == rate * (parent_vsize + child_vsize));
    let fee: u128 = if owed > parent_fee as u128 {
        owed - parent_fee as u128
    } else {
        0
    };
    if fee <= parent_value as u128 && parent_value as u128 - fee >= DUST_LIMIT as u128 {
        Ok((parent_value as u128 - fee) as u64)
    } else {
        Err(Error::InsufficientValue)
    }
}

/// After the bump the two transactions together pay at least the target
/// rate, and the child's output is no dust.
pub proof fn lemma_package_reaches_rate(
    parent_value: u64,
    parent_fee: u64,
    parent_vsize: u64,
    child_vsize: u64,
    rate: u64,
)
    requires
        spec_child_value(parent_value, parent_fee, parent_vsize, child_vsize, rate) is Ok,
    ensures
        ({
            let value = spec_child_value(
                parent_value,
                parent_fee,
                parent_vsize,
                child_vsize,
                rate,
            ).unwrap();
            &&& value >= DUST_LIMIT
            &&& value <= parent_value
            &&& parent_fee + (parent_value - value) >= rate * (parent_vsize + child_vsize)
        }),
{
}

/// What the child is built from, once the parent is read: the parent's id
/// and output, the key that spends that output, and the value and script
/// of the child's output.
pub struct ChildTerms {
    pub parent_txid: Seq<char>,
    pub parent_value: u64,
    pub parent_script: Seq<u8>,
    pub key: Seq<u8>,
    pub value: u64,
    pub script: Seq<u8>,
}

/// Reads the parent `backup` of a coin that was funded with `amount`
/// satoshis and whose private key share is `user_privkey`, and decides the
/// child's terms for paying to `to_address` at `fee_rate`.
///
/// The parent must decode and have exactly one output, which must not
/// exceed the funded amount and must be the taproot output that the coin's
/// key spends by the key path.
pub open spec fn spec_child_terms(
    backup: BackupTxView,
    amount: Option<u64>,
    user_privkey: Seq<char>,
    to_address: Seq<char>,
    fee_rate: u64,
    network: Network,
) -> Result<ChildTerms, Error> {
    let shape = Error::ChainValidationFailed { step: ValidationStep::Shape };
    match spec_hex_decode(backup.tx) {
        Some(raw) => match (
            spec_decode_transaction(raw),
            spec_transaction_vsize(raw),
            spec_transaction_txid(raw),
        ) {
            (Some(tx), Some(vsize), Some(txid)) => if tx.outputs.len() != 1 {
                Err(shape)
            } else {
                match amount {
                    Some(funded) => if tx.outputs[0].value > funded {
                        Err(Error::ChainValidationFailed { step: ValidationStep::Amount })
                    } else {
                        match spec_key_spend_key(user_privkey, None) {
                            Some(key) => if !(spec_is_p2tr(tx.outputs[0].script_pubkey)
                                && spec_p2tr_output_key(tx.outputs[0].script_pubkey) == key) {
                                Err(
                                    Error::ChainValidationFailed {
                                        step: ValidationStep::Destination,
                                    },
                                )
                            } else {
                                match spec_child_value(
                                    tx.outputs[0].value,
                                    (funded - tx.outputs[0].value) as u64,
                                    vsize,
                                    CPFP_TX_VSIZE,
                                    fee_rate,
                                ) {
                                    Ok(value) => match spec_address_script(to_address, network) {
                                        Some(script) => Ok(
                                            ChildTerms {
                                                parent_txid: txid,
                                                parent_value: tx.outputs[0].value,
                                                parent_script: tx.outputs[0].script_pubkey,
                                                key,
                                                value,
                                                script,
                                            },
                                        ),
                                        None => Err(
                                            Error::CryptoInvalid { which: CryptoItem::Address },
                                        ),
                                    },
                                    Err(error) => Err(error),
                                }
                            },
                            None => Err(Error::CryptoInvalid { which: CryptoItem::PrivateKey }),
                        }
                    },
                    None => Err(Error::NotFound { entity: Entity::Coin }),
                }
            },
            _ => Err(shape),
        },
        None => Err(shape),
    }
}

/// The hash that the child's signature covers.
pub open spec fn spec_child_sighash(terms: ChildTerms) -> Result<Seq<u8>, Error> {
    match spec_encode_transaction(terms.parent_txid, 0, terms.value, terms.script, 0) {
        Some(unsigned) => match spec_taproot_sighash(
            unsigned,
            terms.parent_value,
            terms.parent_script,
        ) {
            Some(sighash) => Ok(sighash),
            None => Err(Error::ChainValidationFailed { step: ValidationStep::Shape }),
        },
        None => Err(Error::CryptoInvalid { which: CryptoItem::Txid }),
    }
}

/// Whether `child` is the child built on `terms`, signed with a signature
/// of `sighash` that verifies under the key of the parent's output.
pub open spec fn spec_child_signed(terms: ChildTerms, sighash: Seq<u8>, child: Seq<char>) -> bool {
    exists|signature: Seq<u8>|
        #![trigger spec_schnorr_verify(signature, sighash, terms.key)]
        {
            &&& signature.len() == 64
            &&& spec_schnorr_verify(signature, sighash, terms.key)
            &&& spec_signed_spend(terms.parent_txid, 0, terms.value, terms.script, 0, signature)
                == Some(child)
        }
}

/// What building a child comes to: the errors of its terms and of its
/// signature hash, and else the signed child in hex.
pub open spec fn spec_created(terms: Result<ChildTerms, Error>, child: Result<Seq<char>, Error>) -> bool {
    match terms {
        Ok(t) => match spec_child_sighash(t) {
            Ok(sighash) => child matches Ok(hex) && spec_child_signed(t, sighash, hex),
            Err(error) => child == Err::<Seq<char>, Error>(error),
        },
        Err(error) => child == Err::<Seq<char>, Error>(error),
    }
}

/// Builds and signs the child of `backup_tx` that pays to `to_address` and
/// lifts the two transactions to `fee_rate` satoshis per virtual byte.
///
/// Fails as `spec_child_terms` and `spec_child_sighash` do; otherwise the
/// child is made, signed under the coin's key share.
pub fn create(
    backup_tx: &BackupTx,
    coin: &Coin,
    to_address: &String,
    fee_rate: u64,
    network: Network,
) -> (child: Result<String, Error>)
    ensures
        spec_created(
            spec_child_terms(
                backup_tx@,
                coin.amount,
                coin.user_privkey@,
                to_address@,
                fee_rate,
                network,
            ),
            text_result(child),
        ),
{
    let shape = Error::ChainValidationFailed { step: ValidationStep::Shape };
    let raw = match hex_decode(backup_tx.tx.as_str()) {
        Some(raw) => raw,
        None => { return Err(shape); },
    };
    let (tx, vsize, txid) = match (
        decode_transaction(raw.as_slice()),
        transaction_vsize(raw.as_slice()),
        transaction_txid(raw.as_slice()),
    ) {
        (Some(tx), Some(vsize), Some(txid)) => (tx, vsize, txid),
        _ => { return Err(shape); },
    };
    assert(tx@.outputs.len() == tx.outputs@.len());
    if tx.outputs.len() != 1 {
        return Err(shape);
    }
    assert(tx@.outputs[0] == tx.outputs@[0]@);
    let funded = match coin.amount {
        Some(funded) => funded,
        None => { return Err(Error::NotFound { entity: Entity::Coin }); },
    };
    let parent = &tx.outputs[0];
    if parent.value > funded {
        return Err(Error::ChainValidationFailed { step: ValidationStep::Amount });
    }
    let key = match key_spend_key(coin.user_privkey.as_str(), None) {
        Some(key) => key,
        None => { return Err(Error::CryptoInvalid { which: CryptoItem::PrivateKey }); },
    };
    if !is_p2tr(parent.script_pubkey.as_slice()) {
        return Err(Error::ChainValidationFailed { step: ValidationStep::Destination });
    }
    let paid_to = p2tr_output_key(parent.script_pubkey.as_slice());
    if !bytes_equal(paid_to.as_slice(), key.as_slice()) {
        return Err(Error::ChainValidationFailed { step: ValidationStep::Destination });
    }
    let value = match child_value(parent.value, funded - parent.value, vsize, CPFP_TX_VSIZE, fee_rate) {
        Ok(value) => value,
        Err(error) => { return Err(error); },
    };
    let script = match destination_script(to_address, network) {
        Ok(script) => script,
        Err(error) => { return Err(error); },
    };
    let ghost terms = spec_child_terms(
        backup_tx@,
        coin.amount,
        coin.user_privkey@,
        to_address@,
        fee_rate,
        network,
    );
    assert(terms is Ok);
    let unsigned = match encode_transaction(txid.as_str(), 0, value, script.as_slice(), 0) {
        Some(unsigned) => unsigned,
        None => { return Err(Error::CryptoInvalid { which: CryptoItem::Txid }); },
    };
    let sighash = match taproot_sighash(
        unsigned.as_slice(),
        parent.value,
        parent.script_pubkey.as_slice(),
    ) {
        Some(sighash) => sighash,
        None => { return Err(shape); },
    };
    assert(spec_child_sighash(terms.unwrap()) == Ok::<Seq<u8>, Error>(sighash@));
    let signature = match sign_key_spend(coin.user_privkey.as_str(), None, sighash.as_slice()) {
        Some(signature) => signature,
        None => { return Err(shape); },
    };
    let ghost made = signature@;
    let signed = signed_spend(txid.as_str(), 0, value, script.as_slice(), 0, signature);
    proof {
        let t = terms.unwrap();
        assert(spec_schnorr_verify(made, sighash@, t.key));
        assert(spec_signed_spend(t.parent_txid, 0, t.value, t.script, 0, made)
            == crate::wallet::opt_text(signed));
        assert(spec_child_signed(t, sighash@, signed.unwrap()@));
    }
    match signed {
        Some(signed) => Ok(signed),
        None => Err(shape),
    }
}

} // verus!
