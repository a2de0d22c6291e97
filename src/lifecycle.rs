//! Facts about whole transaction lifecycles, proved over the same spec
//! functions that the ledger's handlers are specified with.
use vstd::prelude::*;

use crate::ledger::{has_id, keyed_step, step_records, step_result, ticked, timed_out, unique_ids};
use crate::monitor::{kernel_applied, kernel_check, kernel_target};
use crate::protocol::{
    broadcast_check, cancel_request_check, finalize_check, reply_check, sent_check, with_payload,
};
use crate::record::{
    event_of, is_finalized_or_later, valid_transition, ProtocolError, TransactionDirection,
    TransactionEvent, TransactionRecord, TransactionStatus,
};

verus! {

/// A valid reply to an outbound transaction in `Initiated` or `PendingReply`
/// moves it to `Negotiated`, announces that, and leaves every other record and
/// the ledger's size as they were.
pub proof fn lemma_reply_negotiates(s: Seq<TransactionRecord>, i: int, payload: Vec<u8>, now: u64)
    requires
        unique_ids(s),
        0 <= i < s.len(),
        s[i].direction == TransactionDirection::Outbound,
        s[i].status == TransactionStatus::Initiated || s[i].status == TransactionStatus::PendingReply,
    ensures
        ({
            let c = reply_check(s[i], true);
            let next = with_payload(s[i], TransactionStatus::Negotiated, payload, now);
            let t = step_records(s, i, c, next);
            &&& c == Ok::<bool, ProtocolError>(true)
            &&& step_result(c, next) == Ok::<Option<TransactionEvent>, ProtocolError>(Some(event_of(next)))
            &&& t.len() == s.len()
            &&& t[i].status == TransactionStatus::Negotiated
            &&& forall|j: int| 0 <= j < s.len() && j != i ==> t[j] == s[j]
        }),
{
}

/// Delivering the same finalization twice changes the ledger at most once: the
/// second delivery finds the record finalized or later, applies nothing and
/// announces nothing.
pub proof fn lemma_finalize_idempotent(
    s: Seq<TransactionRecord>,
    i: int,
    valid: bool,
    payload: Vec<u8>,
    now: u64,
    later: u64,
)
    requires
        0 <= i < s.len(),
    ensures
        ({
            let c1 = finalize_check(s[i], valid);
            let s1 = step_records(s, i, c1, with_payload(s[i], TransactionStatus::Finalized, payload, now));
            let c2 = finalize_check(s1[i], valid);
            let next2 = with_payload(s1[i], TransactionStatus::Finalized, payload, later);
            c1 is Ok ==> {
                &&& c2 == Ok::<bool, ProtocolError>(false)
                &&& step_result(c2, next2) == Ok::<Option<TransactionEvent>, ProtocolError>(None)
                &&& step_records(s1, i, c2, next2) == s1
            }
        }),
{
}

/// A record already finalized or later ignores any further finalization.
pub proof fn lemma_finalized_ignores_finalization(r: TransactionRecord, valid: bool)
    requires
        is_finalized_or_later(r.status),
    ensures
        finalize_check(r, valid) == Ok::<bool, ProtocolError>(false),
{
}

/// A mined but unconfirmed record whose kernel is no longer found returns to
/// `Broadcast`, and its reorg count grows by exactly one.
pub proof fn lemma_reorg_rolls_back(r: TransactionRecord, required: u64, max_reorgs: u64, now: u64)
    requires
        r.status == TransactionStatus::MinedUnconfirmed,
        r.reorg_count < u64::MAX,
    ensures
        kernel_check(r, None, required) == Ok::<bool, ProtocolError>(true),
        kernel_applied(r, None, required, max_reorgs, now).status == TransactionStatus::Broadcast,
        kernel_applied(r, None, required, max_reorgs, now).reorg_count == r.reorg_count + 1,
{
}

/// A record waiting for a reply is cancelled by the tick at which its last
/// update lies more than `timeout` in the past, and never by an earlier one.
pub proof fn lemma_reply_timeout(r: TransactionRecord, now: u64, timeout: u64)
    requires
        r.status == TransactionStatus::PendingReply,
    ensures
        now > r.last_update + timeout ==> ticked(r, now, timeout).status == TransactionStatus::Cancelled,
        now <= r.last_update + timeout ==> ticked(r, now, timeout) == r,
{
}

/// A keyed step naming an id that no record carries is refused as unknown,
/// adds no record and leaves the ledger as it was.
pub proof fn lemma_unknown_id_creates_nothing(
    old: Seq<TransactionRecord>,
    new: Seq<TransactionRecord>,
    id: u64,
    res: Result<Option<TransactionEvent>, ProtocolError>,
    check: spec_fn(TransactionRecord) -> Result<bool, ProtocolError>,
    next: spec_fn(TransactionRecord) -> TransactionRecord,
)
    requires
        keyed_step(old, new, id, res, check, next),
        !has_id(old, id),
    ensures
        res == Err::<Option<TransactionEvent>, ProtocolError>(ProtocolError::UnknownTransaction),
        new.len() == old.len(),
        !has_id(new, id),
{
}

/// Every step that applies moves a record along the transition table: being
/// sent, a reply, a finalization, a broadcast, an explicit cancel, a kernel
/// lookup and a timeout.
pub proof fn lemma_steps_follow_transition_table(r: TransactionRecord, valid: bool, found: Option<u64>, required: u64, now: u64, timeout: u64)
    ensures
        sent_check(r) == Ok::<bool, ProtocolError>(true) ==> valid_transition(r.status, TransactionStatus::PendingReply),
        reply_check(r, valid) == Ok::<bool, ProtocolError>(true) ==> valid_transition(r.status, TransactionStatus::Negotiated),
        finalize_check(r, valid) == Ok::<bool, ProtocolError>(true) ==> valid_transition(r.status, TransactionStatus::Finalized),
        broadcast_check(r) == Ok::<bool, ProtocolError>(true) ==> valid_transition(r.status, TransactionStatus::Broadcast),
        cancel_request_check(r) == Ok::<bool, ProtocolError>(true) ==> valid_transition(r.status, TransactionStatus::Cancelled),
        kernel_check(r, found, required) == Ok::<bool, ProtocolError>(true) ==> valid_transition(
            r.status,
            kernel_target(r.status, found, required),
        ),
        timed_out(r, now, timeout) ==> valid_transition(r.status, TransactionStatus::Cancelled),
{
}

} // verus!
