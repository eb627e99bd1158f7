//! The checks a receiver makes on a coin's chain of backup transactions.
//!
//! The checks run in a fixed order and the first that fails decides the
//! error. They read what was established about each backup transaction (its
//! decoded form, its size, whether its signature verifies) and about the
//! funding output; `crate::evidence` establishes that.

use vstd::prelude::*;
use crate::error::{Error, ValidationStep};
use crate::fee::{fee_within_tolerance, spec_fee_within_tolerance};
use crate::transfer::{StatechainInfo, StatechainInfoView};
use crate::tx::{bytes_equal, is_p2tr, spec_is_p2tr, Tx, TxOutpoint, TxOutpointView, TxOutput, TxOutputView, TxView};

verus! {

/// The view of optional bytes.
pub open spec fn opt_bytes(bytes: Option<Vec<u8>>) -> Option<Seq<u8>> {
    match bytes {
        Some(b) => Some(b@),
        None => None,
    }
}

/// What was established about one backup transaction.
#[derive(Clone, Debug, PartialEq, Eq)]
pub struct BackupEvidence {
    /// The number that the backup carries.
    pub tx_n: u32,
    /// Whether the backup names the statecoin of the transfer.
    pub belongs: bool,
    /// The decoded transaction, where it decodes.
    pub tx: Option<Tx>,
    /// The transaction's virtual size.
    pub vsize: u64,
    /// Whether the transaction's witness signs it under the funding key.
    pub signature_valid: bool,
    /// The digest of the recorded blinding factor in lower-case hex, where
    /// the factor is 32 bytes in hex.
    pub commitment: Option<String>,
    /// Whether both recorded public nonces are 66 bytes in hex.
    pub nonces_well_formed: bool,
    /// The taproot script of the sum of the recorded key shares.
    pub key_script: Option<Vec<u8>>,
}

/// A `BackupEvidence` as a mathematical value.
pub struct BackupEvidenceView {
    pub tx_n: u32,
    pub belongs: bool,
    pub tx: Option<TxView>,
    pub vsize: u64,
    pub signature_valid: bool,
    pub commitment: Option<Seq<char>>,
    pub nonces_well_formed: bool,
    pub key_script: Option<Seq<u8>>,
}

impl View for BackupEvidence {
    type V = BackupEvidenceView;

    open spec fn view(&self) -> BackupEvidenceView {
        BackupEvidenceView {
            tx_n: self.tx_n,
            belongs: self.belongs,
            tx: match self.tx {
                Some(t) => Some(t@),
                None => None,
            },
            vsize: self.vsize,
            signature_valid: self.signature_valid,
            commitment: match self.commitment {
                Some(c) => Some(c@),
                None => None,
            },
            nonces_well_formed: self.nonces_well_formed,
            key_script: opt_bytes(self.key_script),
        }
    }
}

/// What was established about a received chain of backup transactions.
#[derive(Clone, Debug, PartialEq, Eq)]
pub struct ChainEvidence {
    /// One entry for each backup transaction, in the order of the message.
    pub backups: Vec<BackupEvidence>,
    /// The outpoint that funds the coin.
    pub outpoint: TxOutpoint,
    /// The funding output, where the funding transaction decodes and has it.
    pub funding: Option<TxOutput>,
    /// The taproot script of the receiver's key share summed with the
    /// entity's.
    pub destination_script: Option<Vec<u8>>,
    /// The taproot script of the message's key share summed with the
    /// entity's.
    pub owner_script: Option<Vec<u8>>,
}

/// A `ChainEvidence` as a mathematical value.
pub struct ChainEvidenceView {
    pub backups: Seq<BackupEvidenceView>,
    pub outpoint: TxOutpointView,
    pub funding: Option<TxOutputView>,
    pub destination_script: Option<Seq<u8>>,
    pub owner_script: Option<Seq<u8>>,
}

impl View for ChainEvidence {
    type V = ChainEvidenceView;

    open spec fn view(&self) -> ChainEvidenceView {
        ChainEvidenceView {
            backups: Seq::new(self.backups@.len(), |i: int| self.backups@[i]@),
            outpoint: self.outpoint@,
            funding: match self.funding {
                Some(f) => Some(f@),
                None => None,
            },
            destination_script: opt_bytes(self.destination_script),
            owner_script: opt_bytes(self.owner_script),
        }
    }
}

/// Backup number `position + 1` names the statecoin, carries its number,
/// decodes, has one input and one output, and spends the funding outpoint.
pub open spec fn spec_backup_shape_ok(
    backup: BackupEvidenceView,
    position: int,
    outpoint: TxOutpointView,
) -> bool {
    &&& backup.belongs
    &&& backup.tx_n == position + 1
    &&& backup.tx matches Some(tx)
    &&& tx.inputs.len() == 1
    &&& tx.outputs.len() == 1
    &&& tx.inputs[0].txid == outpoint.txid
    &&& tx.inputs[0].vout == outpoint.vout
}

/// The chain is not empty, has as many backups as the entity co-signed and
/// a descriptor for each, the funding output exists, and every backup has
/// the right shape.
pub open spec fn spec_shape_ok(evidence: ChainEvidenceView, info: StatechainInfoView) -> bool {
    &&& evidence.backups.len() >= 1
    &&& evidence.backups.len() == info.num_sigs
    &&& evidence.backups.len() == info.signatures.len()
    &&& evidence.funding is Some
    &&& forall|i: int|
        0 <= i < evidence.backups.len() ==> spec_backup_shape_ok(
            #[trigger] evidence.backups[i],
            i,
            evidence.outpoint,
        )
}

/// A backup pays to a taproot output the funded amount less a fee that is
/// within `tolerance` of the fee at `rate`.
pub open spec fn spec_backup_amount_ok(
    backup: BackupEvidenceView,
    funded: u64,
    rate: u32,
    tolerance: u32,
) -> bool {
    let output = backup.tx.unwrap().outputs[0];
    &&& spec_is_p2tr(output.script_pubkey)
    &&& output.value <= funded
    &&& spec_fee_within_tolerance(
        funded - output.value,
        rate as int,
        tolerance as int,
        backup.vsize as int,
    )
}

/// Every backup pays the funded amount less an acceptable fee.
pub open spec fn spec_amounts_ok(
    evidence: ChainEvidenceView,
    info: StatechainInfoView,
    tolerance: u32,
) -> bool {
    forall|i: int|
        0 <= i < evidence.backups.len() ==> spec_backup_amount_ok(
            #[trigger] evidence.backups[i],
            evidence.funding.unwrap().value,
            info.signatures[i].fee_rate,
            tolerance,
        )
}

/// The lock time of backup number `position + 1`.
pub open spec fn spec_lock(evidence: ChainEvidenceView, position: int) -> int {
    evidence.backups[position].tx.unwrap().lock_time as int
}

/// From each backup to the next the lock time falls by at least `interval`.
pub open spec fn spec_locktimes_ok(evidence: ChainEvidenceView, interval: u32) -> bool {
    forall|i: int|
        0 <= i < evidence.backups.len() - 1 ==> #[trigger] spec_lock(evidence, i) - spec_lock(
            evidence,
            i + 1,
        ) >= interval
}

/// The newest backup pays to the receiver's script.
pub open spec fn spec_destination_ok(evidence: ChainEvidenceView) -> bool {
    evidence.destination_script == Some(
        evidence.backups.last().tx.unwrap().outputs[0].script_pubkey,
    )
}

/// A backup's signature verifies, its blinding factor is the one the entity
/// committed to, and its nonces are well formed.
pub open spec fn spec_backup_signature_ok(backup: BackupEvidenceView, commitment: Seq<char>) -> bool {
    &&& backup.signature_valid
    &&& backup.commitment == Some(commitment)
    &&& backup.nonces_well_formed
}

/// Every backup is covered by its signature.
pub open spec fn spec_signatures_ok(evidence: ChainEvidenceView, info: StatechainInfoView) -> bool {
    forall|i: int|
        0 <= i < evidence.backups.len() ==> spec_backup_signature_ok(
            #[trigger] evidence.backups[i],
            info.signatures[i].blind_commitment,
        )
}

/// The funding output is locked by the taproot script of the message's key
/// share summed with the entity's, and by that of each backup's recorded
/// shares.
pub open spec fn spec_funding_ok(evidence: ChainEvidenceView) -> bool {
    let script = evidence.funding.unwrap().script_pubkey;
    &&& evidence.owner_script == Some(script)
    &&& forall|i: int|
        0 <= i < evidence.backups.len() ==> (#[trigger] evidence.backups[i]).key_script == Some(
            script,
        )
}

/// The first check that the chain fails, if it fails any.
pub open spec fn spec_failed_step(
    evidence: ChainEvidenceView,
    info: StatechainInfoView,
    tolerance: u32,
) -> Option<ValidationStep> {
    if !spec_shape_ok(evidence, info) {
        Some(ValidationStep::Shape)
    } else if !spec_amounts_ok(evidence, info, tolerance) {
        Some(ValidationStep::Amount)
    } else if !spec_locktimes_ok(evidence, info.interval) {
        Some(ValidationStep::Locktime)
    } else if !spec_destination_ok(evidence) {
        Some(ValidationStep::Destination)
    } else if !spec_signatures_ok(evidence, info) {
        Some(ValidationStep::SignatureCover)
    } else if !spec_funding_ok(evidence) {
        Some(ValidationStep::FundingPubkey)
    } else {
        None
    }
}

/// The outcome of validation: the lock time of the newest backup, or the
/// first check that failed.
pub open spec fn spec_validate(
    evidence: ChainEvidenceView,
    info: StatechainInfoView,
    tolerance: u32,
) -> Result<u32, Error> {
    match spec_failed_step(evidence, info, tolerance) {
        Some(step) => Err(Error::ChainValidationFailed { step }),
        None => Ok(evidence.backups.last().tx.unwrap().lock_time),
    }
}

fn backup_shape_ok(backup: &BackupEvidence, position: usize, outpoint: &TxOutpoint) -> (ok: bool)
    requires
        position < usize::MAX,
    ensures
        ok == spec_backup_shape_ok(backup@, position as int, outpoint@),
{
    if !backup.belongs || backup.tx_n as usize != position + 1 {
        return false;
    }
    match &backup.tx {
        Some(tx) => {
            if tx.inputs.len() != 1 || tx.outputs.len() != 1 {
                return false;
            }
            tx.inputs[0].txid == outpoint.txid && tx.inputs[0].vout == outpoint.vout
        },
        None => false,
    }
}

fn check_shape(evidence: &ChainEvidence, info: &StatechainInfo) -> (ok: bool)
    ensures
        ok == spec_shape_ok(evidence@, info@),
{
    let n = evidence.backups.len();
    if n < 1 || n != info.num_sigs as usize || n != info.signatures.len() {
        return false;
    }
    if evidence.funding.is_none() {
        return false;
    }
    let mut i: usize = 0;
    while i < n
        invariant
            0 <= i <= n,
            n == evidence.backups@.len(),
            forall|j: int|
                0 <= j < i ==> spec_backup_shape_ok(
                    #[trigger] evidence@.backups[j],
                    j,
                    evidence@.outpoint,
                ),
        decreases n - i,
    {
        if !backup_shape_ok(&evidence.backups[i], i, &evidence.outpoint) {
            assert(!spec_backup_shape_ok(evidence@.backups[i as int], i as int, evidence@.outpoint));
            return false;
        }
        i = i + 1;
    }
    true
}

fn check_amounts(evidence: &ChainEvidence, info: &StatechainInfo, tolerance: u32) -> (ok: bool)
    requires
        spec_shape_ok(evidence@, info@),
    ensures
        ok == spec_amounts_ok(evidence@, info@, tolerance),
{
    let n = evidence.backups.len();
    let funded: u64 = match &evidence.funding {
        Some(f) => f.value,
        None => 0,
    };
    let mut i: usize = 0;
    while i < n
        invariant
            0 <= i <= n,
            n == evidence.backups@.len(),
            spec_shape_ok(evidence@, info@),
            evidence@.funding matches Some(f) && f.value == funded,
            forall|j: int|
                0 <= j < i ==> spec_backup_amount_ok(
                    #[trigger] evidence@.backups[j],
                    funded,
                    info@.signatures[j].fee_rate,
                    tolerance,
                ),
        decreases n - i,
    {
        let backup = &evidence.backups[i];
        assert(spec_backup_shape_ok(evidence@.backups[i as int], i as int, evidence@.outpoint));
        let ok = match &backup.tx {
            Some(tx) => {
                let output = &tx.outputs[0];
                is_p2tr(output.script_pubkey.as_slice()) && output.value <= funded
                    && fee_within_tolerance(
                    funded - output.value,
                    info.signatures[i].fee_rate,
                    tolerance,
                    backup.vsize,
                )
            },
            None => false,
        };
        if !ok {
            assert(!spec_backup_amount_ok(
                evidence@.backups[i as int],
                funded,
                info@.signatures[i as int].fee_rate,
                tolerance,
            ));
            return false;
        }
        i = i + 1;
    }
    true
}

fn lock_of(evidence: &ChainEvidence, position: usize, Ghost(info): Ghost<StatechainInfoView>) -> (lock: u32)
    requires
        spec_shape_ok(evidence@, info),
        position < evidence.backups@.len(),
    ensures
        lock == spec_lock(evidence@, position as int),
{
    assert(spec_backup_shape_ok(
        evidence@.backups[position as int],
        position as int,
        evidence@.outpoint,
    ));
    match &evidence.backups[position].tx {
        Some(tx) => tx.lock_time,
        None => 0,
    }
}

fn check_locktimes(evidence: &ChainEvidence, info: &StatechainInfo) -> (ok: bool)
    requires
        spec_shape_ok(evidence@, info@),
    ensures
        ok == spec_locktimes_ok(evidence@, info.interval),
{
    let n = evidence.backups.len();
    let mut i: usize = 0;
    while i + 1 < n
        invariant
            0 <= i < n,
            n == evidence.backups@.len(),
            spec_shape_ok(evidence@, info@),
            forall|j: int|
                0 <= j < i ==> #[trigger] spec_lock(evidence@, j) - spec_lock(evidence@, j + 1)
                    >= info.interval,
        decreases n - i,
    {
        let earlier = lock_of(evidence, i, Ghost(info@));
        let later = lock_of(evidence, i + 1, Ghost(info@));
        if earlier < later || earlier - later < info.interval {
            assert(!(spec_lock(evidence@, i as int) - spec_lock(evidence@, i as int + 1)
                >= info.interval));
            return false;
        }
        i = i + 1;
    }
    true
}

fn check_destination(evidence: &ChainEvidence, info: &StatechainInfo) -> (ok: bool)
    requires
        spec_shape_ok(evidence@, info@),
    ensures
        ok == spec_destination_ok(evidence@),
{
    let n = evidence.backups.len();
    assert(spec_backup_shape_ok(evidence@.backups[n - 1], n - 1, evidence@.outpoint));
    assert(evidence@.backups.last() == evidence@.backups[n - 1]);
    match (&evidence.destination_script, &evidence.backups[n - 1].tx) {
        (Some(script), Some(tx)) => bytes_equal(
            script.as_slice(),
            tx.outputs[0].script_pubkey.as_slice(),
        ),
        _ => false,
    }
}

fn check_signatures(evidence: &ChainEvidence, info: &StatechainInfo) -> (ok: bool)
    requires
        spec_shape_ok(evidence@, info@),
    ensures
        ok == spec_signatures_ok(evidence@, info@),
{
    let n = evidence.backups.len();
    let mut i: usize = 0;
    while i < n
        invariant
            0 <= i <= n,
            n == evidence.backups@.len(),
            n == info.signatures@.len(),
            forall|j: int|
                0 <= j < i ==> spec_backup_signature_ok(
                    #[trigger] evidence@.backups[j],
                    info@.signatures[j].blind_commitment,
                ),
        decreases n - i,
    {
        let backup = &evidence.backups[i];
        let committed = match &backup.commitment {
            Some(c) => *c == info.signatures[i].blind_commitment,
            None => false,
        };
        if !(backup.signature_valid && committed && backup.nonces_well_formed) {
            assert(!spec_backup_signature_ok(
                evidence@.backups[i as int],
                info@.signatures[i as int].blind_commitment,
            ));
            return false;
        }
        i = i + 1;
    }
    true
}

fn script_is(candidate: &Option<Vec<u8>>, script: &Vec<u8>) -> (same: bool)
    ensures
        same == (opt_bytes(*candidate) == Some(script@)),
{
    match candidate {
        Some(c) => bytes_equal(c.as_slice(), script.as_slice()),
        None => false,
    }
}

fn check_funding(evidence: &ChainEvidence, info: &StatechainInfo) -> (ok: bool)
    requires
        spec_shape_ok(evidence@, info@),
    ensures
        ok == spec_funding_ok(evidence@),
{
    match &evidence.funding {
        Some(funding) => {
            if !script_is(&evidence.owner_script, &funding.script_pubkey) {
                return false;
            }
            let n = evidence.backups.len();
            let mut i: usize = 0;
            while i < n
                invariant
                    0 <= i <= n,
                    n == evidence.backups@.len(),
                    evidence@.funding == Some(funding@),
                    forall|j: int|
                        0 <= j < i ==> (#[trigger] evidence@.backups[j]).key_script == Some(
                            funding@.script_pubkey,
                        ),
                decreases n - i,
            {
                if !script_is(&evidence.backups[i].key_script, &funding.script_pubkey) {
                    assert(evidence@.backups[i as int].key_script != Some(funding@.script_pubkey));
                    return false;
                }
                i = i + 1;
            }
            true
        },
        None => false,
    }
}

/// Runs the six checks in order on what was established about a chain and
/// gives the lock time of its newest backup, or the first check that failed.
pub fn validate_evidence(evidence: &ChainEvidence, info: &StatechainInfo, tolerance: u32) -> (result:
    Result<u32, Error>)
    ensures
        result == spec_validate(evidence@, info@, tolerance),
{
    if !check_shape(evidence, info) {
        return Err(Error::ChainValidationFailed { step: ValidationStep::Shape });
    }
    if !check_amounts(evidence, info, tolerance) {
        return Err(Error::ChainValidationFailed { step: ValidationStep::Amount });
    }
    if !check_locktimes(evidence, info) {
        return Err(Error::ChainValidationFailed { step: ValidationStep::Locktime });
    }
    if !check_destination(evidence, info) {
        return Err(Error::ChainValidationFailed { step: ValidationStep::Destination });
    }
    if !check_signatures(evidence, info) {
        return Err(Error::ChainValidationFailed { step: ValidationStep::SignatureCover });
    }
    if !check_funding(evidence, info) {
        return Err(Error::ChainValidationFailed { step: ValidationStep::FundingPubkey });
    }
    let n = evidence.backups.len();
    assert(evidence@.backups.last() == evidence@.backups[n - 1]);
    Ok(lock_of(evidence, n - 1, Ghost(info@)))
}

/// In a chain that passes validation, the lock times of consecutive backups
/// are at least `interval` apart.
pub proof fn lemma_validated_locktimes_fall(
    evidence: ChainEvidenceView,
    info: StatechainInfoView,
    tolerance: u32,
    position: int,
)
    requires
        spec_validate(evidence, info, tolerance) is Ok,
        0 <= position < evidence.backups.len() - 1,
    ensures
        spec_lock(evidence, position) - spec_lock(evidence, position + 1) >= info.interval,
{
}

/// In a chain that passes validation, the recorded key shares of every
/// backup sum to the key that locks the funding output.
pub proof fn lemma_validated_keys_lock_funding(
    evidence: ChainEvidenceView,
    info: StatechainInfoView,
    tolerance: u32,
    position: int,
)
    requires
        spec_validate(evidence, info, tolerance) is Ok,
        0 <= position < evidence.backups.len(),
    ensures
        evidence.funding matches Some(funding) && evidence.backups[position].key_script == Some(
            funding.script_pubkey,
        ),
{
}

/// In a chain that passes validation, every backup's fee is within
/// tolerance of the fee at the rate recorded for it.
pub proof fn lemma_validated_fees_within_tolerance(
    evidence: ChainEvidenceView,
    info: StatechainInfoView,
    tolerance: u32,
    position: int,
)
    requires
        spec_validate(evidence, info, tolerance) is Ok,
        0 <= position < evidence.backups.len(),
    ensures
        spec_backup_amount_ok(
            evidence.backups[position],
            evidence.funding.unwrap().value,
            info.signatures[position].fee_rate,
            tolerance,
        ),
{
}

/// A chain that passes validation numbers its backups from one without a
/// gap.
pub proof fn lemma_validated_numbering_dense(
    evidence: ChainEvidenceView,
    info: StatechainInfoView,
    tolerance: u32,
    position: int,
)
    requires
        spec_validate(evidence, info, tolerance) is Ok,
        0 <= position < evidence.backups.len(),
    ensures
        evidence.backups[position].tx_n == position + 1,
        evidence.backups.len() == info.num_sigs,
{
    assert(spec_backup_shape_ok(evidence.backups[position], position, evidence.outpoint));
}

} // verus!
