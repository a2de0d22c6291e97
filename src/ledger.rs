//! The transaction ledger: the records keyed by transaction id, and every
//! status transition applied to them.
use vstd::prelude::*;

use crate::monitor::{check_kernel, kernel_applied, kernel_check};
use crate::protocol::{
    broadcast_check, cancel_message_check, cancel_request_check, check_broadcast,
    check_cancel_message, check_cancel_request, check_finalize, check_reply, check_sent,
    finalize_check, reply_check, sent_check, with_payload, with_status,
};
use crate::record::{
    awaits_counterparty, event_of, is_awaiting_confirmation, ProtocolError, TransactionDirection,
    TransactionEvent, TransactionRecord, TransactionStatus,
};

verus! {

/// No two records share an id.
pub open spec fn unique_ids(s: Seq<TransactionRecord>) -> bool {
    forall|i: int, j: int| 0 <= i < s.len() && 0 <= j < s.len() && i != j ==> s[i].id != s[j].id
}

/// Some record carries `id`.
pub open spec fn has_id(s: Seq<TransactionRecord>, id: u64) -> bool {
    exists|i: int| 0 <= i < s.len() && s[i].id == id
}

/// What a step returns, given its decision and the record it would produce.
pub open spec fn step_result(c: Result<bool, ProtocolError>, next: TransactionRecord) -> Result<Option<TransactionEvent>, ProtocolError> {
    match c {
        Ok(true) => Ok(Some(event_of(next))),
        Ok(false) => Ok(None),
        Err(e) => Err(e),
    }
}

/// The records after a step at index `i`: changed only when the step applies.
pub open spec fn step_records(
    s: Seq<TransactionRecord>,
    i: int,
    c: Result<bool, ProtocolError>,
    next: TransactionRecord,
) -> Seq<TransactionRecord> {
    if c == Ok::<bool, ProtocolError>(true) { s.update(i, next) } else { s }
}

/// A step keyed by transaction id: an unknown id is refused and changes
/// nothing; otherwise `check` decides on the record and `next` is what it
/// becomes when the step applies.
pub open spec fn keyed_step(
    old: Seq<TransactionRecord>,
    new: Seq<TransactionRecord>,
    id: u64,
    res: Result<Option<TransactionEvent>, ProtocolError>,
    check: spec_fn(TransactionRecord) -> Result<bool, ProtocolError>,
    next: spec_fn(TransactionRecord) -> TransactionRecord,
) -> bool {
    &&& !has_id(old, id) ==> res == Err::<Option<TransactionEvent>, ProtocolError>(
        ProtocolError::UnknownTransaction,
    ) && new == old
    &&& forall|i: int|
        0 <= i < old.len() && old[i].id == id ==> res == step_result(check(old[i]), next(old[i]))
            && new == step_records(old, i, check(old[i]), next(old[i]))
}

/// Whether a tick cancels `r`: it waits on the counterparty and its last update
/// lies more than `timeout` before `now`.
pub open spec fn timed_out(r: TransactionRecord, now: u64, timeout: u64) -> bool {
    awaits_counterparty(r.status) && now > r.last_update + timeout
}

/// `r` after a tick at `now`.
pub open spec fn ticked(r: TransactionRecord, now: u64, timeout: u64) -> TransactionRecord {
    if timed_out(r, now, timeout) { with_status(r, TransactionStatus::Cancelled, now) } else { r }
}

/// The events of a tick, in ledger order.
pub open spec fn tick_events(s: Seq<TransactionRecord>, now: u64, timeout: u64) -> Seq<TransactionEvent>
    decreases s.len(),
{
    if s.len() == 0 {
        Seq::empty()
    } else {
        let prev = tick_events(s.drop_last(), now, timeout);
        if timed_out(s.last(), now, timeout) {
            prev.push(event_of(ticked(s.last(), now, timeout)))
        } else {
            prev
        }
    }
}

/// Ids of the records the confirmation monitor should query, in ledger order:
/// broadcast or mined without confirmation, and not set aside for review.
pub open spec fn pending_ids(s: Seq<TransactionRecord>) -> Seq<u64>
    decreases s.len(),
{
    if s.len() == 0 {
        Seq::empty()
    } else {
        let prev = pending_ids(s.drop_last());
        if is_awaiting_confirmation(s.last().status) && !s.last().needs_review {
            prev.push(s.last().id)
        } else {
            prev
        }
    }
}

/// A fresh outbound record.
pub open spec fn outbound_record(
    id: u64,
    counterparty: Vec<u8>,
    amount: u64,
    fee: u64,
    message: String,
    payload: Vec<u8>,
    now: u64,
) -> TransactionRecord {
    TransactionRecord {
        id,
        direction: TransactionDirection::Outbound,
        status: TransactionStatus::Initiated,
        counterparty,
        amount,
        fee,
        message,
        payload,
        created_at: now,
        last_update: now,
        reorg_count: 0,
        needs_review: false,
    }
}

/// A fresh inbound record, created by the sender's first message.
pub open spec fn inbound_record(
    id: u64,
    counterparty: Vec<u8>,
    amount: u64,
    message: String,
    payload: Vec<u8>,
    now: u64,
) -> TransactionRecord {
    TransactionRecord {
        id,
        direction: TransactionDirection::Inbound,
        status: TransactionStatus::PendingFinalization,
        counterparty,
        amount,
        fee: 0,
        message,
        payload,
        created_at: now,
        last_update: now,
        reorg_count: 0,
        needs_review: false,
    }
}

/// A record for an output found on the chain with no negotiation.
pub open spec fn one_sided_record(
    id: u64,
    counterparty: Vec<u8>,
    amount: u64,
    message: String,
    payload: Vec<u8>,
    now: u64,
) -> TransactionRecord {
    TransactionRecord {
        id,
        direction: TransactionDirection::OneSided,
        status: TransactionStatus::MinedUnconfirmed,
        counterparty,
        amount,
        fee: 0,
        message,
        payload,
        created_at: now,
        last_update: now,
        reorg_count: 0,
        needs_review: false,
    }
}

/// The durable table of transactions; the event loop is its only writer.
pub struct TransactionLedger {
    records: Vec<TransactionRecord>,
}

impl View for TransactionLedger {
    type V = Seq<TransactionRecord>;

    closed spec fn view(&self) -> Seq<TransactionRecord> {
        self.records@
    }
}

impl TransactionLedger {
    /// The ledger's invariant: transaction ids are unique.
    pub open spec fn wf(&self) -> bool {
        unique_ids(self@)
    }

    /// An empty ledger.
    pub fn new() -> (l: TransactionLedger)
        ensures
            l.wf(),
            l@ == Seq::<TransactionRecord>::empty(),
    {
        TransactionLedger { records: Vec::new() }
    }

    /// Number of records.
    pub fn len(&self) -> (n: usize)
        ensures
            n == self@.len(),
    {
        self.records.len()
    }

    /// The record at position `i`, in creation order.
    pub fn record_at(&self, i: usize) -> (r: &TransactionRecord)
        requires
            i < self@.len(),
        ensures
            *r == self@[i as int],
    {
        &self.records[i]
    }

    /// Position of the record with `id`, if any.
    pub fn position_of(&self, id: u64) -> (p: Option<usize>)
        ensures
            match p {
                Some(i) => i < self@.len() && self@[i as int].id == id,
                None => !has_id(self@, id),
            },
    {
        let mut i: usize = 0;
        while i < self.records.len()
            invariant
                i <= self.records@.len(),
                forall|j: int| 0 <= j < i ==> self.records@[j].id != id,
            decreases self.records@.len() - i,
        {
            if self.records[i].id == id {
                return Some(i);
            }
            i = i + 1;
        }
        None
    }

    /// Status of the record with `id`, if any.
    pub fn get_status(&self, id: u64) -> (s: Option<TransactionStatus>)
        requires
            self.wf(),
        ensures
            s is None <==> !has_id(self@, id),
            forall|i: int| 0 <= i < self@.len() && self@[i].id == id ==> s == Some(self@[i].status),
    {
        match self.position_of(id) {
            Some(i) => Some(self.records[i].status),
            None => None,
        }
    }

    fn add(&mut self, r: TransactionRecord)
        requires
            old(self).wf(),
            !has_id(old(self)@, r.id),
        ensures
            final(self).wf(),
            final(self)@ == old(self)@.push(r),
    {
        self.records.push(r);
    }

    /// Creates an outbound transaction in `Initiated`, holding the sender's
    /// partial transaction; an id already in the ledger is refused and nothing
    /// changes.
    pub fn create_outbound(
        &mut self,
        id: u64,
        counterparty: Vec<u8>,
        amount: u64,
        fee: u64,
        message: String,
        payload: Vec<u8>,
        now: u64,
    ) -> (res: Result<TransactionEvent, ProtocolError>)
        requires
            old(self).wf(),
        ensures
            final(self).wf(),
            has_id(old(self)@, id) ==> res == Err::<TransactionEvent, ProtocolError>(
                ProtocolError::DuplicateTransaction,
            ) && final(self)@ == old(self)@,
            !has_id(old(self)@, id) ==> {
                let r = outbound_record(id, counterparty, amount, fee, message, payload, now);
                &&& res == Ok::<TransactionEvent, ProtocolError>(event_of(r))
                &&& final(self)@ == old(self)@.push(r)
            },
    {
        if self.position_of(id).is_some() {
            return Err(ProtocolError::DuplicateTransaction);
        }
        let r = TransactionRecord {
            id,
            direction: TransactionDirection::Outbound,
            status: TransactionStatus::Initiated,
            counterparty,
            amount,
            fee,
            message,
            payload,
            created_at: now,
            last_update: now,
            reorg_count: 0,
            needs_review: false,
        };
        let ev = TransactionEvent { id, status: TransactionStatus::Initiated, amount, fee };
        self.add(r);
        Ok(ev)
    }

    fn event_at(&self, i: usize) -> (ev: TransactionEvent)
        requires
            i < self@.len(),
        ensures
            ev == event_of(self@[i as int]),
    {
        let r = &self.records[i];
        TransactionEvent { id: r.id, status: r.status, amount: r.amount, fee: r.fee }
    }

    fn apply_status_step(
        &mut self,
        i: usize,
        c: Result<bool, ProtocolError>,
        status: TransactionStatus,
        now: u64,
    ) -> (res: Result<Option<TransactionEvent>, ProtocolError>)
        requires
            old(self).wf(),
            i < old(self)@.len(),
        ensures
            final(self).wf(),
            res == step_result(c, with_status(old(self)@[i as int], status, now)),
            final(self)@ == step_records(old(self)@, i as int, c, with_status(old(self)@[i as int], status, now)),
    {
        match c {
            Ok(true) => {
                self.records[i].status = status;
                self.records[i].last_update = now;
                proof {
                    assert(self@ =~= old(self)@.update(i as int, with_status(old(self)@[i as int], status, now)));
                }
                Ok(Some(self.event_at(i)))
            },
            Ok(false) => Ok(None),
            Err(e) => Err(e),
        }
    }

    fn apply_payload_step(
        &mut self,
        i: usize,
        c: Result<bool, ProtocolError>,
        status: TransactionStatus,
        payload: Vec<u8>,
        now: u64,
    ) -> (res: Result<Option<TransactionEvent>, ProtocolError>)
        requires
            old(self).wf(),
            i < old(self)@.len(),
        ensures
            final(self).wf(),
            res == step_result(c, with_payload(old(self)@[i as int], status, payload, now)),
            final(self)@ == step_records(
                old(self)@,
                i as int,
                c,
                with_payload(old(self)@[i as int], status, payload, now),
            ),
    {
        match c {
            Ok(true) => {
                self.records[i].status = status;
                self.records[i].payload = payload;
                self.records[i].last_update = now;
                proof {
                    assert(self@ =~= old(self)@.update(
                        i as int,
                        with_payload(old(self)@[i as int], status, payload, now),
                    ));
                }
                Ok(Some(self.event_at(i)))
            },
            Ok(false) => Ok(None),
            Err(e) => Err(e),
        }
    }

    /// The outbound partial transaction reached the network: `Initiated`
    /// becomes `PendingReply`.
    pub fn mark_sent(&mut self, id: u64, now: u64) -> (res: Result<Option<TransactionEvent>, ProtocolError>)
        requires
            old(self).wf(),
        ensures
            final(self).wf(),
            keyed_step(
                old(self)@,
                final(self)@,
                id,
                res,
                |r: TransactionRecord| sent_check(r),
                |r: TransactionRecord| with_status(r, TransactionStatus::PendingReply, now),
            ),
    {
        match self.position_of(id) {
            None => Err(ProtocolError::UnknownTransaction),
            Some(i) => {
                let c = check_sent(&self.records[i]);
                self.apply_status_step(i, c, TransactionStatus::PendingReply, now)
            },
        }
    }

    /// A signed reply from the recipient, `valid` being the cryptographic
    /// collaborator's verdict and `payload` the aggregated transaction.
    pub fn receive_reply(&mut self, id: u64, valid: bool, payload: Vec<u8>, now: u64) -> (res: Result<
        Option<TransactionEvent>,
        ProtocolError,
    >)
        requires
            old(self).wf(),
        ensures
            final(self).wf(),
            keyed_step(
                old(self)@,
                final(self)@,
                id,
                res,
                |r: TransactionRecord| reply_check(r, valid),
                |r: TransactionRecord| with_payload(r, TransactionStatus::Negotiated, payload, now),
            ),
    {
        match self.position_of(id) {
            None => Err(ProtocolError::UnknownTransaction),
            Some(i) => {
                let c = check_reply(&self.records[i], valid);
                self.apply_payload_step(i, c, TransactionStatus::Negotiated, payload, now)
            },
        }
    }

    /// A finalization message from the sender of an inbound transaction.
    pub fn receive_finalized(&mut self, id: u64, valid: bool, payload: Vec<u8>, now: u64) -> (res:
        Result<Option<TransactionEvent>, ProtocolError>)
        requires
            old(self).wf(),
        ensures
            final(self).wf(),
            keyed_step(
                old(self)@,
                final(self)@,
                id,
                res,
                |r: TransactionRecord| finalize_check(r, valid),
                |r: TransactionRecord| with_payload(r, TransactionStatus::Finalized, payload, now),
            ),
    {
        match self.position_of(id) {
            None => Err(ProtocolError::UnknownTransaction),
            Some(i) => {
                let c = check_finalize(&self.records[i], valid);
                self.apply_payload_step(i, c, TransactionStatus::Finalized, payload, now)
            },
        }
    }

    /// A cancellation message from the counterparty.
    pub fn receive_cancellation(&mut self, id: u64, now: u64) -> (res: Result<Option<TransactionEvent>, ProtocolError>)
        requires
            old(self).wf(),
        ensures
            final(self).wf(),
            keyed_step(
                old(self)@,
                final(self)@,
                id,
                res,
                |r: TransactionRecord| cancel_message_check(r),
                |r: TransactionRecord| with_status(r, TransactionStatus::Cancelled, now),
            ),
    {
        match self.position_of(id) {
            None => Err(ProtocolError::UnknownTransaction),
            Some(i) => {
                let c = check_cancel_message(&self.records[i]);
                self.apply_status_step(i, c, TransactionStatus::Cancelled, now)
            },
        }
    }

    /// An explicit cancel request from a caller of the service.
    pub fn cancel(&mut self, id: u64, now: u64) -> (res: Result<Option<TransactionEvent>, ProtocolError>)
        requires
            old(self).wf(),
        ensures
            final(self).wf(),
            keyed_step(
                old(self)@,
                final(self)@,
                id,
                res,
                |r: TransactionRecord| cancel_request_check(r),
                |r: TransactionRecord| with_status(r, TransactionStatus::Cancelled, now),
            ),
    {
        match self.position_of(id) {
            None => Err(ProtocolError::UnknownTransaction),
            Some(i) => {
                let c = check_cancel_request(&self.records[i]);
                self.apply_status_step(i, c, TransactionStatus::Cancelled, now)
            },
        }
    }

    /// The completed transaction was submitted to the network.
    pub fn submit_broadcast(&mut self, id: u64, now: u64) -> (res: Result<Option<TransactionEvent>, ProtocolError>)
        requires
            old(self).wf(),
        ensures
            final(self).wf(),
            keyed_step(
                old(self)@,
                final(self)@,
                id,
                res,
                |r: TransactionRecord| broadcast_check(r),
                |r: TransactionRecord| with_status(r, TransactionStatus::Broadcast, now),
            ),
    {
        match self.position_of(id) {
            None => Err(ProtocolError::UnknownTransaction),
            Some(i) => {
                let c = check_broadcast(&self.records[i]);
                self.apply_status_step(i, c, TransactionStatus::Broadcast, now)
            },
        }
    }

    /// The first message of an inbound negotiation. An unknown id with a valid
    /// message creates a record in `PendingFinalization`; a repeat of a known
    /// inbound transaction is a harmless duplicate; any other known id is
    /// refused.
    pub fn receive_sender_message(
        &mut self,
        id: u64,
        counterparty: Vec<u8>,
        amount: u64,
        message: String,
        valid: bool,
        payload: Vec<u8>,
        now: u64,
    ) -> (res: Result<Option<TransactionEvent>, ProtocolError>)
        requires
            old(self).wf(),
        ensures
            final(self).wf(),
            !has_id(old(self)@, id) && !valid ==> res == Err::<Option<TransactionEvent>, ProtocolError>(
                ProtocolError::ValidationFailed,
            ) && final(self)@ == old(self)@,
            !has_id(old(self)@, id) && valid ==> {
                let r = inbound_record(id, counterparty, amount, message, payload, now);
                &&& res == Ok::<Option<TransactionEvent>, ProtocolError>(Some(event_of(r)))
                &&& final(self)@ == old(self)@.push(r)
            },
            forall|i: int| 0 <= i < old(self)@.len() && old(self)@[i].id == id ==> {
                &&& final(self)@ == old(self)@
                &&& res == if old(self)@[i].direction == TransactionDirection::Inbound {
                    Ok::<Option<TransactionEvent>, ProtocolError>(None)
                } else {
                    Err(ProtocolError::DuplicateTransaction)
                }
            },
    {
        match self.position_of(id) {
            Some(i) => {
                if self.records[i].direction == TransactionDirection::Inbound {
                    Ok(None)
                } else {
                    Err(ProtocolError::DuplicateTransaction)
                }
            },
            None => {
                if !valid {
                    return Err(ProtocolError::ValidationFailed);
                }
                let r = TransactionRecord {
                    id,
                    direction: TransactionDirection::Inbound,
                    status: TransactionStatus::PendingFinalization,
                    counterparty,
                    amount,
                    fee: 0,
                    message,
                    payload,
                    created_at: now,
                    last_update: now,
                    reorg_count: 0,
                    needs_review: false,
                };
                let ev = TransactionEvent { id, status: TransactionStatus::PendingFinalization, amount, fee: 0 };
                self.add(r);
                Ok(Some(ev))
            },
        }
    }

    /// Hands over an output that a chain scan found for this wallet: it is
    /// recorded as a one-sided receipt, mined but not yet confirmed.
    pub fn import_discovered_output(
        &mut self,
        id: u64,
        counterparty: Vec<u8>,
        amount: u64,
        message: String,
        payload: Vec<u8>,
        now: u64,
    ) -> (res: Result<TransactionEvent, ProtocolError>)
        requires
            old(self).wf(),
        ensures
            final(self).wf(),
            has_id(old(self)@, id) ==> res == Err::<TransactionEvent, ProtocolError>(
                ProtocolError::DuplicateTransaction,
            ) && final(self)@ == old(self)@,
            !has_id(old(self)@, id) ==> {
                let r = one_sided_record(id, counterparty, amount, message, payload, now);
                &&& res == Ok::<TransactionEvent, ProtocolError>(event_of(r))
                &&& final(self)@ == old(self)@.push(r)
            },
    {
        if self.position_of(id).is_some() {
            return Err(ProtocolError::DuplicateTransaction);
        }
        let r = TransactionRecord {
            id,
            direction: TransactionDirection::OneSided,
            status: TransactionStatus::MinedUnconfirmed,
            counterparty,
            amount,
            fee: 0,
            message,
            payload,
            created_at: now,
            last_update: now,
            reorg_count: 0,
            needs_review: false,
        };
        let ev = TransactionEvent { id, status: TransactionStatus::MinedUnconfirmed, amount, fee: 0 };
        self.add(r);
        Ok(ev)
    }

    /// Folds one kernel lookup into the record with `id`: `found` is the depth
    /// at which the base node holds the kernel, `None` when it does not.
    /// `required` is the confirmation depth and `max_reorgs` the number of
    /// rollbacks after which the record is set aside for review.
    pub fn apply_kernel_result(
        &mut self,
        id: u64,
        found: Option<u64>,
        required: u64,
        max_reorgs: u64,
        now: u64,
    ) -> (res: Result<Option<TransactionEvent>, ProtocolError>)
        requires
            old(self).wf(),
        ensures
            final(self).wf(),
            keyed_step(
                old(self)@,
                final(self)@,
                id,
                res,
                |r: TransactionRecord| kernel_check(r, found, required),
                |r: TransactionRecord| kernel_applied(r, found, required, max_reorgs, now),
            ),
    {
        let i = match self.position_of(id) {
            None => return Err(ProtocolError::UnknownTransaction),
            Some(i) => i,
        };
        let c = check_kernel(&self.records[i], found, required);
        match c {
            Ok(true) => {
                let status = match found {
                    Some(depth) => if depth >= required {
                        TransactionStatus::MinedConfirmed
                    } else {
                        TransactionStatus::MinedUnconfirmed
                    },
                    None => TransactionStatus::Broadcast,
                };
                let reorg = self.records[i].status == TransactionStatus::MinedUnconfirmed && found.is_none();
                let old_count = self.records[i].reorg_count;
                let count = if reorg && old_count < u64::MAX {
                    old_count + 1
                } else {
                    old_count
                };
                let review = self.records[i].needs_review || (reorg && count >= max_reorgs);
                self.records[i].status = status;
                self.records[i].last_update = now;
                self.records[i].reorg_count = count;
                self.records[i].needs_review = review;
                proof {
                    assert(self@ =~= old(self)@.update(
                        i as int,
                        kernel_applied(old(self)@[i as int], found, required, max_reorgs, now),
                    ));
                }
                Ok(Some(self.event_at(i)))
            },
            Ok(false) => Ok(None),
            Err(e) => Err(e),
        }
    }

    /// The periodic tick: every record still waiting on its counterparty whose
    /// last update lies more than `timeout` before `now` is cancelled. Returns
    /// the events of those cancellations in ledger order.
    pub fn tick(&mut self, now: u64, timeout: u64) -> (events: Vec<TransactionEvent>)
        requires
            old(self).wf(),
        ensures
            final(self).wf(),
            final(self)@.len() == old(self)@.len(),
            forall|i: int| 0 <= i < old(self)@.len() ==> final(self)@[i] == ticked(old(self)@[i], now, timeout),
            events@ == tick_events(old(self)@, now, timeout),
    {
        let mut events: Vec<TransactionEvent> = Vec::new();
        let n = self.records.len();
        let mut i: usize = 0;
        while i < n
            invariant
                n == old(self)@.len(),
                i <= n,
                self.wf(),
                self@.len() == n,
                forall|j: int| 0 <= j < i ==> self@[j] == ticked(old(self)@[j], now, timeout),
                forall|j: int| i <= j < n ==> self@[j] == old(self)@[j],
                events@ == tick_events(old(self)@.subrange(0, i as int), now, timeout),
            decreases n - i,
        {
            let waiting = match self.records[i].status {
                TransactionStatus::Initiated => true,
                TransactionStatus::PendingReply => true,
                TransactionStatus::PendingFinalization => true,
                _ => false,
            };
            let last = self.records[i].last_update;
            proof {
                assert(old(self)@.subrange(0, i as int + 1).drop_last() =~= old(self)@.subrange(0, i as int));
            }
            if waiting && now > last && now - last > timeout {
                let ghost before = self@;
                self.records[i].status = TransactionStatus::Cancelled;
                self.records[i].last_update = now;
                proof {
                    assert(self@ =~= before.update(i as int, ticked(old(self)@[i as int], now, timeout)));
                }
                let ev = self.event_at(i);
                events.push(ev);
            }
            i = i + 1;
        }
        proof {
            assert(old(self)@.subrange(0, n as int) =~= old(self)@);
        }
        events
    }

    /// Ids to query in one batched kernel lookup, in ledger order.
    pub fn pending_confirmations(&self) -> (ids: Vec<u64>)
        ensures
            ids@ == pending_ids(self@),
    {
        let mut ids: Vec<u64> = Vec::new();
        let mut i: usize = 0;
        while i < self.records.len()
            invariant
                i <= self@.len(),
                ids@ == pending_ids(self@.subrange(0, i as int)),
            decreases self@.len() - i,
        {
            proof {
                assert(self@.subrange(0, i as int + 1).drop_last() =~= self@.subrange(0, i as int));
            }
            let r = &self.records[i];
            let watched = match r.status {
                TransactionStatus::Broadcast => true,
                TransactionStatus::MinedUnconfirmed => true,
                _ => false,
            };
            if watched && !r.needs_review {
                ids.push(r.id);
            }
            i = i + 1;
        }
        proof {
            assert(self@.subrange(0, self@.len() as int) =~= self@);
        }
        ids
    }
}

} // verus!
