//! The confirmation monitor's rules: how a kernel lookup moves a broadcast
//! transaction, and how the polling interval backs off while the base node fails.
use vstd::prelude::*;

use crate::record::{
    is_awaiting_confirmation, ProtocolError, TransactionRecord, TransactionStatus,
};

verus! {

/// Where a kernel lookup sends a watched record: `found` is the depth at which
/// the kernel was seen, or `None` when the base node does not hold it.
pub open spec fn kernel_target(status: TransactionStatus, found: Option<u64>, required: u64) -> TransactionStatus {
    match found {
        Some(depth) => if depth >= required {
            TransactionStatus::MinedConfirmed
        } else {
            TransactionStatus::MinedUnconfirmed
        },
        None => TransactionStatus::Broadcast,
    }
}

/// Whether a kernel lookup result applies to `r`.
pub open spec fn kernel_check(r: TransactionRecord, found: Option<u64>, required: u64) -> Result<bool, ProtocolError> {
    if !is_awaiting_confirmation(r.status) {
        Err(ProtocolError::InvalidState)
    } else {
        Ok(kernel_target(r.status, found, required) != r.status)
    }
}

/// A kernel that was seen mined is gone again.
pub open spec fn is_reorg(r: TransactionRecord, found: Option<u64>) -> bool {
    r.status == TransactionStatus::MinedUnconfirmed && found is None
}

/// `n + 1`, held at the largest `u64`.
pub open spec fn saturating_inc(n: u64) -> u64 {
    if n < u64::MAX { (n + 1) as u64 } else { n }
}

/// The record after a kernel lookup that applies to it.
pub open spec fn kernel_applied(
    r: TransactionRecord,
    found: Option<u64>,
    required: u64,
    max_reorgs: u64,
    now: u64,
) -> TransactionRecord {
    let reorg = is_reorg(r, found);
    let count = if reorg { saturating_inc(r.reorg_count) } else { r.reorg_count };
    TransactionRecord {
        status: kernel_target(r.status, found, required),
        last_update: now,
        reorg_count: count,
        needs_review: r.needs_review || (reorg && count >= max_reorgs),
        ..r
    }
}

/// Decides a kernel lookup result for `r`.
pub fn check_kernel(r: &TransactionRecord, found: Option<u64>, required: u64) -> (c: Result<bool, ProtocolError>)
    ensures
        c == kernel_check(*r, found, required),
{
    let watched = match r.status {
        TransactionStatus::Broadcast => true,
        TransactionStatus::MinedUnconfirmed => true,
        _ => false,
    };
    if !watched {
        return Err(ProtocolError::InvalidState);
    }
    let target = match found {
        Some(depth) => if depth >= required {
            TransactionStatus::MinedConfirmed
        } else {
            TransactionStatus::MinedUnconfirmed
        },
        None => TransactionStatus::Broadcast,
    };
    Ok(target != r.status)
}

/// Polling interval of the confirmation monitor: doubled after each failed
/// query, never above `max`, and back to `base` after a success.
pub struct PollBackoff {
    pub base: u64,
    pub max: u64,
    pub current: u64,
}

/// The interval after one more failure.
pub open spec fn backed_off(current: u64, max: u64) -> u64 {
    if current as int * 2 >= max as int { max } else { (current * 2) as u64 }
}

impl PollBackoff {
    /// Intervals stay between `base` and `max`, and `base` is positive.
    pub open spec fn wf(&self) -> bool {
        0 < self.base <= self.current <= self.max
    }

    /// Starts at `base`; `requires` keeps the bounds ordered.
    pub fn new(base: u64, max: u64) -> (b: PollBackoff)
        requires
            0 < base <= max,
        ensures
            b.wf(),
            b.base == base,
            b.max == max,
            b.current == base,
    {
        PollBackoff { base, max, current: base }
    }

    /// A query failed: status stays as it is and the next poll waits longer.
    pub fn on_failure(&mut self)
        requires
            old(self).wf(),
        ensures
            final(self).wf(),
            final(self).base == old(self).base,
            final(self).max == old(self).max,
            final(self).current == backed_off(old(self).current, old(self).max),
    {
        if self.current >= self.max / 2 + self.max % 2 {
            self.current = self.max;
        } else {
            self.current = self.current * 2;
        }
    }

    /// A query succeeded: polling returns to its base rate.
    pub fn on_success(&mut self)
        requires
            old(self).wf(),
        ensures
            final(self).wf(),
            final(self).base == old(self).base,
            final(self).max == old(self).max,
            final(self).current == old(self).base,
    {
        self.current = self.base;
    }
}

} // verus!
