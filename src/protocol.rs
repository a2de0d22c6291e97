//! The negotiation state machine: for each protocol message or request, whether it
//! applies to a record (`Ok(true)`), is a harmless duplicate (`Ok(false)`), or is
//! rejected (`Err`), and what the record becomes when it applies.
use vstd::prelude::*;

use crate::record::{
    is_broadcast_or_later, is_cancellable, is_finalized_or_later, ProtocolError,
    TransactionDirection, TransactionRecord, TransactionStatus,
};

verus! {

/// The record moved to `status` at time `now`.
pub open spec fn with_status(r: TransactionRecord, status: TransactionStatus, now: u64) -> TransactionRecord {
    TransactionRecord { status, last_update: now, ..r }
}


/// The outbound partial transaction has been handed to the network.
pub open spec fn sent_check(r: TransactionRecord) -> Result<bool, ProtocolError> {
    if r.status == TransactionStatus::Initiated {
        Ok(true)
    } else if r.status == TransactionStatus::PendingReply {
        Ok(false)
    } else {
        Err(ProtocolError::InvalidState)
    }
}

/// A signed reply from the recipient, `valid` being the verdict of the
/// cryptographic collaborator.
pub open spec fn reply_check(r: TransactionRecord, valid: bool) -> Result<bool, ProtocolError> {
    if is_broadcast_or_later(r.status) {
        Ok(false)
    } else if r.direction != TransactionDirection::Outbound || !(r.status
        == TransactionStatus::Initiated || r.status == TransactionStatus::PendingReply) {
        Err(ProtocolError::InvalidState)
    } else if !valid {
        Err(ProtocolError::ValidationFailed)
    } else {
        Ok(true)
    }
}

/// A finalization message from the sender.
pub open spec fn finalize_check(r: TransactionRecord, valid: bool) -> Result<bool, ProtocolError> {
    if is_finalized_or_later(r.status) {
        Ok(false)
    } else if r.status != TransactionStatus::PendingFinalization {
        Err(ProtocolError::InvalidState)
    } else if !valid {
        Err(ProtocolError::ValidationFailed)
    } else {
        Ok(true)
    }
}

/// A cancellation message from the counterparty.
pub open spec fn cancel_message_check(r: TransactionRecord) -> Result<bool, ProtocolError> {
    if r.status == TransactionStatus::MinedConfirmed {
        Err(ProtocolError::NotCancellable)
    } else if r.status == TransactionStatus::Cancelled {
        Ok(false)
    } else {
        Ok(true)
    }
}

/// An explicit cancel request through the API.
pub open spec fn cancel_request_check(r: TransactionRecord) -> Result<bool, ProtocolError> {
    if is_cancellable(r.status) {
        Ok(true)
    } else {
        Err(ProtocolError::NotCancellable)
    }
}

/// Submission of the completed transaction to the network.
pub open spec fn broadcast_check(r: TransactionRecord) -> Result<bool, ProtocolError> {
    if r.status == TransactionStatus::Negotiated || r.status == TransactionStatus::Finalized {
        Ok(true)
    } else if is_broadcast_or_later(r.status) {
        Ok(false)
    } else {
        Err(ProtocolError::InvalidState)
    }
}

/// The record moved to `status` at time `now`, carrying the grown payload.
pub open spec fn with_payload(
    r: TransactionRecord,
    status: TransactionStatus,
    payload: Vec<u8>,
    now: u64,
) -> TransactionRecord {
    TransactionRecord { status, payload, last_update: now, ..r }
}

fn is_broadcast_or_later_exec(s: TransactionStatus) -> (b: bool)
    ensures
        b == is_broadcast_or_later(s),
{
    match s {
        TransactionStatus::Broadcast => true,
        TransactionStatus::MinedUnconfirmed => true,
        TransactionStatus::MinedConfirmed => true,
        _ => false,
    }
}

/// Decides a "partial transaction sent" notification for `r`.
pub fn check_sent(r: &TransactionRecord) -> (c: Result<bool, ProtocolError>)
    ensures
        c == sent_check(*r),
{
    match r.status {
        TransactionStatus::Initiated => Ok(true),
        TransactionStatus::PendingReply => Ok(false),
        _ => Err(ProtocolError::InvalidState),
    }
}

/// Decides a recipient reply for `r`.
pub fn check_reply(r: &TransactionRecord, valid: bool) -> (c: Result<bool, ProtocolError>)
    ensures
        c == reply_check(*r, valid),
{
    if is_broadcast_or_later_exec(r.status) {
        return Ok(false);
    }
    let awaiting = match r.status {
        TransactionStatus::Initiated => true,
        TransactionStatus::PendingReply => true,
        _ => false,
    };
    if r.direction != TransactionDirection::Outbound || !awaiting {
        Err(ProtocolError::InvalidState)
    } else if !valid {
        Err(ProtocolError::ValidationFailed)
    } else {
        Ok(true)
    }
}

/// Decides a finalization message for `r`.
pub fn check_finalize(r: &TransactionRecord, valid: bool) -> (c: Result<bool, ProtocolError>)
    ensures
        c == finalize_check(*r, valid),
{
    if r.status == TransactionStatus::Finalized || is_broadcast_or_later_exec(r.status) {
        Ok(false)
    } else if r.status != TransactionStatus::PendingFinalization {
        Err(ProtocolError::InvalidState)
    } else if !valid {
        Err(ProtocolError::ValidationFailed)
    } else {
        Ok(true)
    }
}

/// Decides a cancellation message for `r`.
pub fn check_cancel_message(r: &TransactionRecord) -> (c: Result<bool, ProtocolError>)
    ensures
        c == cancel_message_check(*r),
{
    match r.status {
        TransactionStatus::MinedConfirmed => Err(ProtocolError::NotCancellable),
        TransactionStatus::Cancelled => Ok(false),
        _ => Ok(true),
    }
}

/// Decides an API cancel request for `r`.
pub fn check_cancel_request(r: &TransactionRecord) -> (c: Result<bool, ProtocolError>)
    ensures
        c == cancel_request_check(*r),
{
    if crate::record::cancellable(r.status) {
        Ok(true)
    } else {
        Err(ProtocolError::NotCancellable)
    }
}

/// Decides a broadcast submission for `r`.
pub fn check_broadcast(r: &TransactionRecord) -> (c: Result<bool, ProtocolError>)
    ensures
        c == broadcast_check(*r),
{
    match r.status {
        TransactionStatus::Negotiated => Ok(true),
        TransactionStatus::Finalized => Ok(true),
        _ => if is_broadcast_or_later_exec(r.status) {
            Ok(false)
        } else {
            Err(ProtocolError::InvalidState)
        },
    }
}

} // verus!
