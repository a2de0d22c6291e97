//! The decisions of the service event loop. The loop itself (waiting on the
//! message streams, the request channel, the tick and the shutdown signal)
//! runs outside; it hands each input to [`TransactionService`] and performs
//! the action it gets back.
use vstd::prelude::*;

use crate::ledger::{
    has_id, inbound_record, keyed_step, outbound_record, pending_ids, tick_events, ticked,
    TransactionLedger,
};
use crate::monitor::{backed_off, kernel_applied, kernel_check, PollBackoff};
use crate::protocol::{
    broadcast_check, cancel_message_check, cancel_request_check, finalize_check, reply_check,
    sent_check, with_payload, with_status,
};
use crate::record::{
    event_of, ProtocolError, TransactionDirection, TransactionEvent, TransactionRecord,
    TransactionStatus,
};

verus! {

/// Tunables of the service.
#[derive(Clone, Copy, Debug, PartialEq, Eq, Structural)]
pub struct ServiceConfig {
    /// How long a negotiation may wait on its counterparty.
    pub transaction_timeout: u64,
    /// Depth at which a mined kernel counts as confirmed.
    pub required_confirmations: u64,
    /// Rollbacks after which a transaction is set aside for review.
    pub max_reorgs: u64,
    /// First polling interval of the confirmation monitor.
    pub poll_interval: u64,
    /// Longest polling interval after repeated query failures.
    pub max_poll_interval: u64,
}

/// One input of the event loop that concerns a single transaction.
#[derive(Clone, Debug)]
pub enum ServiceInput {
    /// API: start an outbound transaction with the sender's partial transaction.
    SendTransaction { id: u64, counterparty: Vec<u8>, amount: u64, fee: u64, message: String, payload: Vec<u8> },
    /// The partial transaction reached the network.
    TransactionSent { id: u64 },
    /// A sender's first message, as judged by the cryptographic collaborator.
    SenderMessage { id: u64, counterparty: Vec<u8>, amount: u64, message: String, valid: bool, payload: Vec<u8> },
    /// A recipient's signed reply.
    Reply { id: u64, valid: bool, payload: Vec<u8> },
    /// A sender's finalization.
    Finalized { id: u64, valid: bool, payload: Vec<u8> },
    /// A counterparty's cancellation.
    CancelMessage { id: u64 },
    /// API: cancel a transaction.
    Cancel { id: u64 },
    /// The completed transaction was submitted to the network.
    Broadcasted { id: u64 },
    /// The base node's answer on one kernel: the depth it lies at, if any.
    KernelResult { id: u64, found: Option<u64> },
}

/// What the loop must do next for the world outside.
#[derive(Clone, Debug, PartialEq, Eq)]
pub enum ServiceAction {
    /// Send the stored partial transaction to the recipient.
    SendPartialTransaction(u64),
    /// Send the signed reply back to the sender.
    SendReply(u64),
    /// Send the finalization to the recipient and submit the transaction.
    FinalizeAndBroadcast(u64),
    /// Submit the finalized transaction to the network.
    Broadcast(u64),
    /// Tell the counterparty that the transaction is cancelled.
    SendCancellation(u64),
    /// Ask the base node for the kernels of these transactions, in one batch.
    QueryKernels(Vec<u64>),
}

/// The action that follows an input, given the ledger's answer.
pub open spec fn action_for(input: ServiceInput, res: Result<Option<TransactionEvent>, ProtocolError>) -> Option<ServiceAction> {
    match input {
        ServiceInput::SendTransaction { id, .. } => if res is Ok {
            Some(ServiceAction::SendPartialTransaction(id))
        } else {
            None
        },
        ServiceInput::SenderMessage { id, .. } => if res is Ok {
            Some(ServiceAction::SendReply(id))
        } else {
            None
        },
        ServiceInput::Reply { id, .. } => if res matches Ok(Some(_)) {
            Some(ServiceAction::FinalizeAndBroadcast(id))
        } else {
            None
        },
        ServiceInput::Finalized { id, .. } => if res matches Ok(Some(_)) {
            Some(ServiceAction::Broadcast(id))
        } else {
            None
        },
        ServiceInput::Cancel { id } => if res matches Ok(Some(_)) {
            Some(ServiceAction::SendCancellation(id))
        } else {
            None
        },
        _ => None,
    }
}

/// How the ledger moves on an input, as its handlers specify.
pub open spec fn ledger_moves(
    input: ServiceInput,
    config: ServiceConfig,
    old: Seq<TransactionRecord>,
    new: Seq<TransactionRecord>,
    res: Result<Option<TransactionEvent>, ProtocolError>,
    now: u64,
) -> bool {
    match input {
        ServiceInput::SendTransaction { id, counterparty, amount, fee, message, payload } => {
            &&& has_id(old, id) ==> res == Err::<Option<TransactionEvent>, ProtocolError>(
                ProtocolError::DuplicateTransaction,
            ) && new == old
            &&& !has_id(old, id) ==> {
                let r = outbound_record(id, counterparty, amount, fee, message, payload, now);
                res == Ok::<Option<TransactionEvent>, ProtocolError>(Some(event_of(r))) && new == old.push(r)
            }
        },
        ServiceInput::TransactionSent { id } => keyed_step(
            old,
            new,
            id,
            res,
            |r: TransactionRecord| sent_check(r),
            |r: TransactionRecord| with_status(r, TransactionStatus::PendingReply, now),
        ),
        ServiceInput::SenderMessage { id, counterparty, amount, message, valid, payload } => {
            &&& !has_id(old, id) && !valid ==> res == Err::<Option<TransactionEvent>, ProtocolError>(
                ProtocolError::ValidationFailed,
            ) && new == old
            &&& !has_id(old, id) && valid ==> {
                let r = inbound_record(id, counterparty, amount, message, payload, now);
                res == Ok::<Option<TransactionEvent>, ProtocolError>(Some(event_of(r))) && new == old.push(r)
            }
            &&& forall|i: int| 0 <= i < old.len() && old[i].id == id ==> {
                &&& new == old
                &&& res == if old[i].direction == TransactionDirection::Inbound {
                    Ok::<Option<TransactionEvent>, ProtocolError>(None)
                } else {
                    Err(ProtocolError::DuplicateTransaction)
                }
            }
        },
        ServiceInput::Reply { id, valid, payload } => keyed_step(
            old,
            new,
            id,
            res,
            |r: TransactionRecord| reply_check(r, valid),
            |r: TransactionRecord| with_payload(r, TransactionStatus::Negotiated, payload, now),
        ),
        ServiceInput::Finalized { id, valid, payload } => keyed_step(
            old,
            new,
            id,
            res,
            |r: TransactionRecord| finalize_check(r, valid),
            |r: TransactionRecord| with_payload(r, TransactionStatus::Finalized, payload, now),
        ),
        ServiceInput::CancelMessage { id } => keyed_step(
            old,
            new,
            id,
            res,
            |r: TransactionRecord| cancel_message_check(r),
            |r: TransactionRecord| with_status(r, TransactionStatus::Cancelled, now),
        ),
        ServiceInput::Cancel { id } => keyed_step(
            old,
            new,
            id,
            res,
            |r: TransactionRecord| cancel_request_check(r),
            |r: TransactionRecord| with_status(r, TransactionStatus::Cancelled, now),
        ),
        ServiceInput::Broadcasted { id } => keyed_step(
            old,
            new,
            id,
            res,
            |r: TransactionRecord| broadcast_check(r),
            |r: TransactionRecord| with_status(r, TransactionStatus::Broadcast, now),
        ),
        ServiceInput::KernelResult { id, found } => keyed_step(
            old,
            new,
            id,
            res,
            |r: TransactionRecord| kernel_check(r, found, config.required_confirmations),
            |r: TransactionRecord|
                kernel_applied(r, found, config.required_confirmations, config.max_reorgs, now),
        ),
    }
}

/// The state owned by the event loop: the ledger, the tunables and the
/// monitor's polling interval.
pub struct TransactionService {
    pub ledger: TransactionLedger,
    pub config: ServiceConfig,
    pub backoff: PollBackoff,
    /// When the confirmation monitor last queried the base node.
    pub last_poll: u64,
}

/// Whether the tick at `now` is due to query the base node.
pub open spec fn poll_due(last_poll: u64, interval: u64, now: u64) -> bool {
    now >= last_poll + interval
}

impl TransactionService {
    pub open spec fn wf(&self) -> bool {
        &&& self.ledger.wf()
        &&& self.backoff.wf()
        &&& self.backoff.base == self.config.poll_interval
        &&& self.backoff.max == self.config.max_poll_interval
    }

    /// A service with an empty ledger; `requires` keeps the polling bounds
    /// ordered.
    pub fn new(config: ServiceConfig) -> (s: TransactionService)
        requires
            0 < config.poll_interval <= config.max_poll_interval,
        ensures
            s.wf(),
            s.config == config,
            s.ledger@ == Seq::<TransactionRecord>::empty(),
            s.backoff.current == config.poll_interval,
            s.last_poll == 0,
    {
        TransactionService {
            ledger: TransactionLedger::new(),
            config,
            backoff: PollBackoff::new(config.poll_interval, config.max_poll_interval),
            last_poll: 0,
        }
    }

    /// Applies one input to the ledger and says what to do next.
    pub fn handle(&mut self, input: ServiceInput, now: u64) -> (out: (
        Result<Option<TransactionEvent>, ProtocolError>,
        Option<ServiceAction>,
    ))
        requires
            old(self).wf(),
        ensures
            final(self).wf(),
            final(self).config == old(self).config,
            final(self).backoff == old(self).backoff,
            final(self).last_poll == old(self).last_poll,
            ledger_moves(input, old(self).config, old(self).ledger@, final(self).ledger@, out.0, now),
            out.1 == action_for(input, out.0),
    {
        let (if_ok, if_event) = match &input {
            ServiceInput::SendTransaction { id, .. } => (Some(ServiceAction::SendPartialTransaction(*id)), None),
            ServiceInput::SenderMessage { id, .. } => (Some(ServiceAction::SendReply(*id)), None),
            ServiceInput::Reply { id, .. } => (None, Some(ServiceAction::FinalizeAndBroadcast(*id))),
            ServiceInput::Finalized { id, .. } => (None, Some(ServiceAction::Broadcast(*id))),
            ServiceInput::Cancel { id } => (None, Some(ServiceAction::SendCancellation(*id))),
            _ => (None, None),
        };
        let res = match input {
            ServiceInput::SendTransaction { id, counterparty, amount, fee, message, payload } => {
                match self.ledger.create_outbound(id, counterparty, amount, fee, message, payload, now) {
                    Ok(ev) => Ok(Some(ev)),
                    Err(e) => Err(e),
                }
            },
            ServiceInput::TransactionSent { id } => self.ledger.mark_sent(id, now),
            ServiceInput::SenderMessage { id, counterparty, amount, message, valid, payload } => {
                self.ledger.receive_sender_message(id, counterparty, amount, message, valid, payload, now)
            },
            ServiceInput::Reply { id, valid, payload } => self.ledger.receive_reply(id, valid, payload, now),
            ServiceInput::Finalized { id, valid, payload } => self.ledger.receive_finalized(id, valid, payload, now),
            ServiceInput::CancelMessage { id } => self.ledger.receive_cancellation(id, now),
            ServiceInput::Cancel { id } => self.ledger.cancel(id, now),
            ServiceInput::Broadcasted { id } => self.ledger.submit_broadcast(id, now),
            ServiceInput::KernelResult { id, found } => self.ledger.apply_kernel_result(
                id,
                found,
                self.config.required_confirmations,
                self.config.max_reorgs,
                now,
            ),
        };
        let action = match res {
            Ok(Some(_)) => if if_event.is_some() {
                if_event
            } else {
                if_ok
            },
            Ok(None) => if_ok,
            Err(_) => None,
        };
        (res, action)
    }

    /// The periodic tick: cancels timed-out negotiations, and once the
    /// polling interval has passed, asks for the kernels of every transaction
    /// awaiting confirmation in one batch.
    pub fn on_tick(&mut self, now: u64) -> (out: (Vec<TransactionEvent>, Option<ServiceAction>))
        requires
            old(self).wf(),
        ensures
            final(self).wf(),
            final(self).config == old(self).config,
            final(self).backoff == old(self).backoff,
            final(self).ledger@.len() == old(self).ledger@.len(),
            forall|i: int|
                0 <= i < old(self).ledger@.len() ==> final(self).ledger@[i] == ticked(
                    old(self).ledger@[i],
                    now,
                    old(self).config.transaction_timeout,
                ),
            out.0@ == tick_events(old(self).ledger@, now, old(self).config.transaction_timeout),
            ({
                let due = poll_due(old(self).last_poll, old(self).backoff.current, now);
                let ids = pending_ids(final(self).ledger@);
                &&& due && ids.len() > 0 ==> (out.1 matches Some(ServiceAction::QueryKernels(v)) && v@ == ids)
                    && final(self).last_poll == now
                &&& !(due && ids.len() > 0) ==> out.1 is None && final(self).last_poll == old(
                    self,
                ).last_poll
            }),
    {
        let events = self.ledger.tick(now, self.config.transaction_timeout);
        let due = now >= self.last_poll && now - self.last_poll >= self.backoff.current;
        if !due {
            return (events, None);
        }
        let ids = self.ledger.pending_confirmations();
        if ids.len() == 0 {
            return (events, None);
        }
        self.last_poll = now;
        (events, Some(ServiceAction::QueryKernels(ids)))
    }

    /// The base node could not be reached or answered with an error: no
    /// status changes, and the next poll waits longer.
    pub fn on_query_failed(&mut self)
        requires
            old(self).wf(),
        ensures
            final(self).wf(),
            final(self).ledger@ == old(self).ledger@,
            final(self).config == old(self).config,
            final(self).last_poll == old(self).last_poll,
            final(self).backoff.current == backed_off(old(self).backoff.current, old(self).backoff.max),
    {
        self.backoff.on_failure();
    }

    /// The base node answered: polling returns to its base rate.
    pub fn on_query_succeeded(&mut self)
        requires
            old(self).wf(),
        ensures
            final(self).wf(),
            final(self).ledger@ == old(self).ledger@,
            final(self).config == old(self).config,
            final(self).last_poll == old(self).last_poll,
            final(self).backoff.current == old(self).config.poll_interval,
    {
        self.backoff.on_success();
    }
}

/// What to do after a protocol message could not be sent to its peer.
#[derive(Clone, Copy, Debug, PartialEq, Eq, Structural)]
pub enum SendOutcome {
    /// Try the same send again.
    Retry,
    /// Stop retrying; the transaction waits for a manual resend and is not
    /// cancelled.
    ManualResend,
}

/// Decides after the send failed `failures` times in a row, `limit` being
/// the number of attempts allowed.
pub fn after_send_failure(failures: u64, limit: u64) -> (o: SendOutcome)
    ensures
        o == if failures < limit { SendOutcome::Retry } else { SendOutcome::ManualResend },
{
    if failures < limit {
        SendOutcome::Retry
    } else {
        SendOutcome::ManualResend
    }
}

/// Cyclic distance from `from` forward to `to` among `n` sources.
pub open spec fn cyclic_distance(from: int, to: int, n: int) -> int {
    if to >= from { to - from } else { to + n - from }
}

/// Picks the next input source to service, in turn: no ready source is passed
/// over, so none waits for more than one round.
pub struct RoundRobin {
    pub sources: usize,
    pub next: usize,
}

impl RoundRobin {
    pub open spec fn wf(&self) -> bool {
        self.next < self.sources
    }

    /// Starts with source 0; `requires` asks for at least one source.
    pub fn new(sources: usize) -> (rr: RoundRobin)
        requires
            sources > 0,
        ensures
            rr.wf(),
            rr.sources == sources,
            rr.next == 0,
    {
        RoundRobin { sources, next: 0 }
    }

    /// The first ready source at or after `next`, going round; `None` when no
    /// source is ready. The turn passes to the source after the one picked.
    pub fn pick(&mut self, ready: &Vec<bool>) -> (k: Option<usize>)
        requires
            old(self).wf(),
            ready@.len() == old(self).sources,
        ensures
            final(self).wf(),
            final(self).sources == old(self).sources,
            match k {
                Some(k) => {
                    &&& k < ready@.len()
                    &&& ready@[k as int]
                    &&& forall|j: int|
                        0 <= j < ready@.len() && cyclic_distance(old(self).next as int, j, ready@.len() as int)
                            < cyclic_distance(old(self).next as int, k as int, ready@.len() as int) ==> !ready@[j]
                    &&& final(self).next == if k + 1 == ready@.len() { 0 } else { k + 1 }
                },
                None => {
                    &&& forall|j: int| 0 <= j < ready@.len() ==> !ready@[j]
                    &&& final(self).next == old(self).next
                },
            },
    {
        let n = self.sources;
        let mut step: usize = 0;
        while step < n
            invariant
                n == self.sources,
                n == old(self).sources,
                n == ready@.len(),
                self.next < n,
                self.next == old(self).next,
                step <= n,
                forall|j: int|
                    0 <= j < n && cyclic_distance(self.next as int, j, n as int) < step ==> !ready@[j],
            decreases n - step,
        {
            let k = if step < n - self.next {
                self.next + step
            } else {
                step - (n - self.next)
            };
            assert(cyclic_distance(self.next as int, k as int, n as int) == step);
            if ready[k] {
                self.next = if k + 1 == n {
                    0
                } else {
                    k + 1
                };
                return Some(k);
            }
            step = step + 1;
        }
        assert forall|j: int| 0 <= j < n implies !ready@[j] by {
            assert(cyclic_distance(old(self).next as int, j, n as int) < n);
        }
        None
    }
}

} // verus!
