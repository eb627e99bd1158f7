//! Lock times of backup transactions.
//!
//! Each backup of a coin is locked `interval` blocks earlier than the one
//! before it, so that the newest owner can always settle first. Once no room
//! is left above the chain tip the coin can no longer be transferred.

use vstd::prelude::*;
use crate::error::Error;

verus! {

/// The lock time of a coin's next backup: `previous - interval` where a
/// previous backup exists, else `height + initial_locktime`.
pub open spec fn spec_next_locktime(
    height: u32,
    interval: u32,
    initial_locktime: u32,
    previous: Option<u32>,
) -> int {
    match previous {
        Some(lock) => lock - interval,
        None => height + initial_locktime,
    }
}

/// Whether the next backup would be locked below the chain tip.
pub open spec fn spec_locktime_exhausted(
    height: u32,
    interval: u32,
    initial_locktime: u32,
    previous: Option<u32>,
) -> bool {
    spec_next_locktime(height, interval, initial_locktime, previous) < height
}

/// The next lock time, or `LocktimeExhausted` where it lies below `height`.
pub open spec fn spec_checked_next_locktime(
    height: u32,
    interval: u32,
    initial_locktime: u32,
    previous: Option<u32>,
) -> Result<u32, Error> {
    if spec_locktime_exhausted(height, interval, initial_locktime, previous) {
        Err(Error::LocktimeExhausted)
    } else {
        Ok(spec_next_locktime(height, interval, initial_locktime, previous) as u32)
    }
}

/// The lock time for the next backup of a coin, given the chain tip `height`
/// and the lock time of the previous backup, if there is one.
///
/// Fails with `LocktimeExhausted` exactly when that lock time lies below
/// `height`.
pub fn next_locktime(
    height: u32,
    interval: u32,
    initial_locktime: u32,
    previous: Option<u32>,
) -> (result: Result<u32, Error>)
    requires
        previous is None ==> height + initial_locktime <= u32::MAX,
    ensures
        result == spec_checked_next_locktime(height, interval, initial_locktime, previous),
{
    match previous {
        Some(lock) => {
            if lock < interval {
                return Err(Error::LocktimeExhausted);
            }
            let next: u32 = lock - interval;
            if next < height {
                Err(Error::LocktimeExhausted)
            } else {
                Ok(next)
            }
        },
        None => Ok(height + initial_locktime),
    }
}

/// Whether a coin locked until `locktime` can be settled by an earlier owner
/// at chain tip `tip`.
pub open spec fn spec_is_expired(locktime: u32, tip: u32) -> bool {
    locktime <= tip
}

/// Whether a coin locked until `locktime` has expired at chain tip `tip`.
pub fn is_expired(locktime: u32, tip: u32) -> (expired: bool)
    ensures
        expired == spec_is_expired(locktime, tip),
{
    locktime <= tip
}

/// Consecutive backups are at least `interval` apart: where a successor of a
/// backup locked at `previous` is granted, it is locked exactly `interval`
/// blocks earlier, and not below the chain tip.
pub proof fn lemma_successor_keeps_interval(
    height: u32,
    interval: u32,
    initial_locktime: u32,
    previous: u32,
)
    requires
        !spec_locktime_exhausted(height, interval, initial_locktime, Some(previous)),
    ensures
        spec_checked_next_locktime(height, interval, initial_locktime, Some(previous))
            matches Ok(next) && previous - next >= interval && next >= height,
{
}

/// A backup locked at exactly `interval` has a successor at zero, which is
/// refused as exhausted at any chain tip above zero.
pub proof fn lemma_last_interval_exhausts(height: u32, interval: u32, initial_locktime: u32)
    requires
        height > 0,
    ensures
        spec_next_locktime(height, interval, initial_locktime, Some(interval)) == 0,
        spec_checked_next_locktime(height, interval, initial_locktime, Some(interval)) == Err::<
            u32,
            Error,
        >(Error::LocktimeExhausted),
{
}

} // verus!
