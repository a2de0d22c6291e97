//! Transaction records, their statuses and the per-record transition rules.
use vstd::prelude::*;

verus! {

/// Which side of the payment this wallet is on.
#[derive(PartialEq, Eq, Structural, Clone, Copy, Debug)]
pub enum TransactionDirection {
    Outbound,
    Inbound,
    OneSided,
}

/// The one active status of a transaction record.
#[derive(PartialEq, Eq, Structural, Clone, Copy, Debug)]
pub enum TransactionStatus {
    Initiated,
    PendingReply,
    Negotiated,
    PendingFinalization,
    Finalized,
    Broadcast,
    MinedUnconfirmed,
    MinedConfirmed,
    Cancelled,
}

/// Why a protocol message or an API request was refused.
#[derive(PartialEq, Eq, Structural, Clone, Copy, Debug)]
pub enum ProtocolError {
    /// No record carries the referenced transaction id.
    UnknownTransaction,
    /// A record with this id already exists.
    DuplicateTransaction,
    /// The cryptographic collaborator rejected the message.
    ValidationFailed,
    /// The record's status does not admit this step.
    InvalidState,
    /// The record can no longer be cancelled.
    NotCancellable,
}

/// Notification published whenever a record changes status.
#[derive(PartialEq, Eq, Structural, Clone, Copy, Debug)]
pub struct TransactionEvent {
    pub id: u64,
    pub status: TransactionStatus,
    pub amount: u64,
    pub fee: u64,
}

/// One transaction, as the ledger keeps it.
#[derive(Clone, Debug)]
pub struct TransactionRecord {
    pub id: u64,
    pub direction: TransactionDirection,
    pub status: TransactionStatus,
    /// Public address of the other party.
    pub counterparty: Vec<u8>,
    pub amount: u64,
    pub fee: u64,
    /// User-supplied note.
    pub message: String,
    /// The partially or fully built transaction, opaque to this engine.
    pub payload: Vec<u8>,
    pub created_at: u64,
    pub last_update: u64,
    /// How many times the kernel disappeared from the chain after being mined.
    pub reorg_count: u64,
    /// Set once the reorg count reaches the configured cap.
    pub needs_review: bool,
}

/// The event that announces the record's current status.
pub open spec fn event_of(r: TransactionRecord) -> TransactionEvent {
    TransactionEvent { id: r.id, status: r.status, amount: r.amount, fee: r.fee }
}

/// Statuses after which replies and finalizations are stale duplicates.
pub open spec fn is_broadcast_or_later(s: TransactionStatus) -> bool {
    s == TransactionStatus::Broadcast || s == TransactionStatus::MinedUnconfirmed
        || s == TransactionStatus::MinedConfirmed
}

/// Statuses in which a finalization has already been applied.
pub open spec fn is_finalized_or_later(s: TransactionStatus) -> bool {
    s == TransactionStatus::Finalized || is_broadcast_or_later(s)
}

/// Statuses that wait on the counterparty and so can time out.
pub open spec fn awaits_counterparty(s: TransactionStatus) -> bool {
    s == TransactionStatus::Initiated || s == TransactionStatus::PendingReply
        || s == TransactionStatus::PendingFinalization
}

/// Statuses the confirmation monitor watches.
pub open spec fn is_awaiting_confirmation(s: TransactionStatus) -> bool {
    s == TransactionStatus::Broadcast || s == TransactionStatus::MinedUnconfirmed
}

/// The transition table: whether `from` may move to `to`.
pub open spec fn valid_transition(from: TransactionStatus, to: TransactionStatus) -> bool {
    match from {
        TransactionStatus::Initiated => to == TransactionStatus::PendingReply
            || to == TransactionStatus::Negotiated || to == TransactionStatus::Cancelled,
        TransactionStatus::PendingReply => to == TransactionStatus::Negotiated
            || to == TransactionStatus::Cancelled,
        TransactionStatus::Negotiated => to == TransactionStatus::Broadcast
            || to == TransactionStatus::Cancelled,
        TransactionStatus::PendingFinalization => to == TransactionStatus::Finalized
            || to == TransactionStatus::Cancelled,
        TransactionStatus::Finalized => to == TransactionStatus::Broadcast,
        TransactionStatus::Broadcast => to == TransactionStatus::MinedUnconfirmed
            || to == TransactionStatus::MinedConfirmed || to == TransactionStatus::Cancelled,
        TransactionStatus::MinedUnconfirmed => to == TransactionStatus::MinedConfirmed
            || to == TransactionStatus::Broadcast,
        TransactionStatus::MinedConfirmed => false,
        TransactionStatus::Cancelled => false,
    }
}

/// Whether an explicit cancel request is accepted in this status.
pub open spec fn is_cancellable(s: TransactionStatus) -> bool {
    valid_transition(s, TransactionStatus::Cancelled)
}

/// Executable form of [`is_cancellable`].
pub fn cancellable(s: TransactionStatus) -> (r: bool)
    ensures
        r == is_cancellable(s),
{
    match s {
        TransactionStatus::Initiated => true,
        TransactionStatus::PendingReply => true,
        TransactionStatus::Negotiated => true,
        TransactionStatus::PendingFinalization => true,
        TransactionStatus::Broadcast => true,
        _ => false,
    }
}

} // verus!
