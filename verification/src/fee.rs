//! Fees of backup transactions.
//!
//! Rates are in satoshis per virtual byte, sizes in virtual bytes, fees in
//! satoshis. A backup's fee is accepted when it lies between the fee at
//! `rate - tolerance` and the fee at `rate + tolerance`, both ends included.

use vstd::prelude::*;

verus! {

/// The fee of a transaction of `vsize` virtual bytes at `rate`.
pub open spec fn spec_fee(rate: int, vsize: int) -> int {
    rate * vsize
}

/// The lowest rate within `tolerance` of `rate`; rates do not go below zero.
pub open spec fn spec_lowest_rate(rate: int, tolerance: int) -> int {
    if rate >= tolerance {
        rate - tolerance
    } else {
        0
    }
}

/// Whether `fee` is what a transaction of `vsize` virtual bytes pays at some
/// rate within `tolerance` of `rate`.
pub open spec fn spec_fee_within_tolerance(fee: int, rate: int, tolerance: int, vsize: int) -> bool {
    spec_fee(spec_lowest_rate(rate, tolerance), vsize) <= fee <= spec_fee(rate + tolerance, vsize)
}

/// Whether `fee` lies within `tolerance` of the fee at `rate` for a
/// transaction of `vsize` virtual bytes.
pub fn fee_within_tolerance(fee: u64, rate: u32, tolerance: u32, vsize: u64) -> (ok: bool)
    ensures
        ok == spec_fee_within_tolerance(fee as int, rate as int, tolerance as int, vsize as int),
{
    let lowest: u128 = if rate >= tolerance {
        (rate - tolerance) as u128
    } else {
        0
    };
    let highest: u128 = rate as u128 + tolerance as u128;
    assert(lowest * (vsize as u128) <= 0x1_0000_0000 * 0x1_0000_0000_0000_0000) by (nonlinear_arith)
        requires
            lowest <= 0x1_0000_0000,
            vsize <= 0x1_0000_0000_0000_0000,
    ;
    assert(highest * (vsize as u128) <= 0x2_0000_0000 * 0x1_0000_0000_0000_0000)
        by (nonlinear_arith)
        requires
            highest <= 0x2_0000_0000,
            vsize <= 0x1_0000_0000_0000_0000,
    ;
    let low_fee: u128 = lowest * (vsize as u128);
    let high_fee: u128 = highest * (vsize as u128);
    low_fee <= fee as u128 && fee as u128 <= high_fee
}

/// The rate in satoshis per virtual byte of a rate given in satoshis per
/// thousand virtual bytes, rounded down.
pub fn rate_per_vbyte(sats_per_kvb: u64) -> (rate: u64)
    ensures
        rate == sats_per_kvb / 1000,
{
    sats_per_kvb / 1000
}

/// The rate at which a receiver checks fees: the entity's rate, capped at
/// the wallet's own limit.
pub fn capped_rate(entity_rate: u32, max_rate: u32) -> (rate: u32)
    ensures
        rate == if entity_rate > max_rate {
            max_rate
        } else {
            entity_rate
        },
{
    if entity_rate > max_rate {
        max_rate
    } else {
        entity_rate
    }
}

/// A fee at exactly `rate + tolerance` per virtual byte is accepted.
pub proof fn lemma_fee_at_upper_rate_accepted(rate: u32, tolerance: u32, vsize: u64)
    ensures
        spec_fee_within_tolerance(
            spec_fee(rate + tolerance, vsize as int),
            rate as int,
            tolerance as int,
            vsize as int,
        ),
{
    let low = spec_lowest_rate(rate as int, tolerance as int);
    let high = rate + tolerance;
    assert(low * vsize <= high * vsize) by (nonlinear_arith)
        requires
            0 <= low <= high,
            0 <= vsize,
    ;
}

/// A fee at `rate + tolerance + 1` per virtual byte is rejected, whatever the
/// size of the transaction (a transaction has at least one virtual byte).
pub proof fn lemma_fee_above_upper_rate_rejected(rate: u32, tolerance: u32, vsize: u64)
    requires
        vsize > 0,
    ensures
        !spec_fee_within_tolerance(
            spec_fee(rate + tolerance + 1, vsize as int),
            rate as int,
            tolerance as int,
            vsize as int,
        ),
{
    let high = rate + tolerance;
    assert((high + 1) * vsize > high * vsize) by (nonlinear_arith)
        requires
            vsize > 0,
    ;
}

/// One satoshi above the fee at `rate + tolerance` is rejected.
pub proof fn lemma_fee_one_over_rejected(rate: u32, tolerance: u32, vsize: u64)
    ensures
        !spec_fee_within_tolerance(
            spec_fee(rate + tolerance, vsize as int) + 1,
            rate as int,
            tolerance as int,
            vsize as int,
        ),
{
}

} // verus!
