use taiji_wallet::ledger::TransactionLedger;
use taiji_wallet::monitor::PollBackoff;
use taiji_wallet::protocol::{check_finalize, check_reply};
use taiji_wallet::record::{
    cancellable, ProtocolError, TransactionDirection, TransactionEvent, TransactionStatus,
};

const REQUIRED: u64 = 3;
const MAX_REORGS: u64 = 3;

fn outbound(ledger: &mut TransactionLedger, id: u64, now: u64) {
    ledger
        .create_outbound(id, vec![1, 2, 3], 10_000, 50, "rent".to_string(), vec![9], now)
        .unwrap();
}

fn inbound(ledger: &mut TransactionLedger, id: u64, now: u64) {
    ledger
        .receive_sender_message(id, vec![4, 5], 700, "gift".to_string(), true, vec![8], now)
        .unwrap();
}

#[test]
fn full_outbound_lifecycle_scenario() {
    let mut l = TransactionLedger::new();
    let ev = l.create_outbound(42, vec![7], 10_000, 50, String::new(), vec![1], 100).unwrap();
    assert_eq!(ev, TransactionEvent { id: 42, status: TransactionStatus::Initiated, amount: 10_000, fee: 50 });
    assert_eq!(l.get_status(42), Some(TransactionStatus::Initiated));
    let ev = l.receive_reply(42, true, vec![1, 2], 101).unwrap().unwrap();
    assert_eq!(ev.status, TransactionStatus::Negotiated);
    assert_eq!(l.get_status(42), Some(TransactionStatus::Negotiated));
    assert_eq!(l.record_at(0).payload, vec![1, 2]);
    l.submit_broadcast(42, 102).unwrap();
    assert_eq!(l.get_status(42), Some(TransactionStatus::Broadcast));
    l.apply_kernel_result(42, Some(1), 3, MAX_REORGS, 103).unwrap();
    assert_eq!(l.get_status(42), Some(TransactionStatus::MinedUnconfirmed));
    l.apply_kernel_result(42, Some(3), 3, MAX_REORGS, 104).unwrap();
    assert_eq!(l.get_status(42), Some(TransactionStatus::MinedConfirmed));
    assert_eq!(l.cancel(42, 105), Err(ProtocolError::NotCancellable));
    assert_eq!(l.get_status(42), Some(TransactionStatus::MinedConfirmed));
}

#[test]
fn reply_moves_only_its_own_transaction() {
    let mut l = TransactionLedger::new();
    outbound(&mut l, 1, 10);
    outbound(&mut l, 2, 10);
    l.mark_sent(2, 11).unwrap();
    inbound(&mut l, 3, 12);
    assert_eq!(l.get_status(2), Some(TransactionStatus::PendingReply));
    l.receive_reply(2, true, vec![5], 13).unwrap();
    assert_eq!(l.get_status(1), Some(TransactionStatus::Initiated));
    assert_eq!(l.get_status(2), Some(TransactionStatus::Negotiated));
    assert_eq!(l.get_status(3), Some(TransactionStatus::PendingFinalization));
    assert_eq!(l.len(), 3);
}

#[test]
fn messages_for_unknown_ids_create_nothing() {
    let mut l = TransactionLedger::new();
    outbound(&mut l, 1, 10);
    assert_eq!(l.receive_reply(99, true, vec![], 11), Err(ProtocolError::UnknownTransaction));
    assert_eq!(l.receive_finalized(99, true, vec![], 11), Err(ProtocolError::UnknownTransaction));
    assert_eq!(l.receive_cancellation(99, 11), Err(ProtocolError::UnknownTransaction));
    assert_eq!(l.cancel(99, 11), Err(ProtocolError::UnknownTransaction));
    assert_eq!(l.submit_broadcast(99, 11), Err(ProtocolError::UnknownTransaction));
    assert_eq!(l.mark_sent(99, 11), Err(ProtocolError::UnknownTransaction));
    assert_eq!(l.apply_kernel_result(99, None, 3, 3, 11), Err(ProtocolError::UnknownTransaction));
    assert_eq!(l.len(), 1);
    assert_eq!(l.get_status(99), None);
}

#[test]
fn duplicate_finalization_is_applied_once() {
    let mut l = TransactionLedger::new();
    inbound(&mut l, 5, 10);
    let first = l.receive_finalized(5, true, vec![1, 1], 11).unwrap();
    assert_eq!(first.map(|e| e.status), Some(TransactionStatus::Finalized));
    let second = l.receive_finalized(5, true, vec![2, 2], 12).unwrap();
    assert_eq!(second, None);
    assert_eq!(l.record_at(0).payload, vec![1, 1]);
    assert_eq!(l.record_at(0).last_update, 11);
    l.submit_broadcast(5, 13).unwrap();
    assert_eq!(l.receive_finalized(5, true, vec![3], 14), Ok(None));
    assert_eq!(l.get_status(5), Some(TransactionStatus::Broadcast));
}

#[test]
fn reorg_rolls_back_and_counts() {
    let mut l = TransactionLedger::new();
    outbound(&mut l, 8, 0);
    l.receive_reply(8, true, vec![], 1).unwrap();
    l.submit_broadcast(8, 2).unwrap();
    l.apply_kernel_result(8, Some(1), REQUIRED, MAX_REORGS, 3).unwrap();
    let ev = l.apply_kernel_result(8, None, REQUIRED, MAX_REORGS, 4).unwrap().unwrap();
    assert_eq!(ev.status, TransactionStatus::Broadcast);
    assert_eq!(l.record_at(0).reorg_count, 1);
    assert!(!l.record_at(0).needs_review);
    assert_eq!(l.apply_kernel_result(8, None, REQUIRED, MAX_REORGS, 5), Ok(None));
    assert_eq!(l.record_at(0).reorg_count, 1);
}

#[test]
fn repeated_reorgs_set_the_record_aside() {
    let mut l = TransactionLedger::new();
    outbound(&mut l, 8, 0);
    l.receive_reply(8, true, vec![], 1).unwrap();
    l.submit_broadcast(8, 2).unwrap();
    for round in 0..3u64 {
        assert_eq!(l.pending_confirmations(), vec![8]);
        l.apply_kernel_result(8, Some(0), REQUIRED, MAX_REORGS, 3 + 2 * round).unwrap();
        l.apply_kernel_result(8, None, REQUIRED, MAX_REORGS, 4 + 2 * round).unwrap();
    }
    assert_eq!(l.record_at(0).reorg_count, 3);
    assert!(l.record_at(0).needs_review);
    assert_eq!(l.pending_confirmations(), Vec::<u64>::new());
}

#[test]
fn pending_reply_times_out_on_the_tick_after_the_limit() {
    let mut l = TransactionLedger::new();
    outbound(&mut l, 1, 100);
    l.mark_sent(1, 100).unwrap();
    assert!(l.tick(130, 30).is_empty());
    assert_eq!(l.get_status(1), Some(TransactionStatus::PendingReply));
    let events = l.tick(131, 30);
    assert_eq!(
        events,
        vec![TransactionEvent { id: 1, status: TransactionStatus::Cancelled, amount: 10_000, fee: 50 }]
    );
    assert_eq!(l.get_status(1), Some(TransactionStatus::Cancelled));
    assert_eq!(l.receive_reply(1, true, vec![], 132), Err(ProtocolError::InvalidState));
}

#[test]
fn tick_leaves_broadcast_and_clock_skew_alone() {
    let mut l = TransactionLedger::new();
    outbound(&mut l, 1, 0);
    l.receive_reply(1, true, vec![], 0).unwrap();
    l.submit_broadcast(1, 0).unwrap();
    outbound(&mut l, 2, 500);
    assert!(l.tick(1000, 10).len() == 1);
    assert_eq!(l.get_status(1), Some(TransactionStatus::Broadcast));
    assert_eq!(l.get_status(2), Some(TransactionStatus::Cancelled));
    outbound(&mut l, 3, 2000);
    assert!(l.tick(1500, 0).is_empty());
    assert_eq!(l.get_status(3), Some(TransactionStatus::Initiated));
}

#[test]
fn error_variants() {
    let mut l = TransactionLedger::new();
    outbound(&mut l, 1, 0);
    assert_eq!(
        l.create_outbound(1, vec![], 1, 1, String::new(), vec![], 0),
        Err(ProtocolError::DuplicateTransaction)
    );
    assert_eq!(l.receive_reply(1, false, vec![], 1), Err(ProtocolError::ValidationFailed));
    assert_eq!(l.get_status(1), Some(TransactionStatus::Initiated));
    assert_eq!(l.receive_finalized(1, true, vec![], 1), Err(ProtocolError::InvalidState));
    assert_eq!(l.submit_broadcast(1, 1), Err(ProtocolError::InvalidState));
    assert_eq!(
        l.receive_sender_message(1, vec![], 5, String::new(), true, vec![], 1),
        Err(ProtocolError::DuplicateTransaction)
    );
    assert_eq!(
        l.receive_sender_message(2, vec![], 5, String::new(), false, vec![], 1),
        Err(ProtocolError::ValidationFailed)
    );
    assert_eq!(l.len(), 1);
    inbound(&mut l, 3, 2);
    assert_eq!(l.receive_finalized(3, false, vec![], 3), Err(ProtocolError::ValidationFailed));
    assert_eq!(l.receive_reply(3, true, vec![], 3), Err(ProtocolError::InvalidState));
    assert_eq!(l.apply_kernel_result(3, Some(5), 3, 3, 3), Err(ProtocolError::InvalidState));
    assert_eq!(
        l.receive_sender_message(3, vec![], 5, String::new(), true, vec![], 4),
        Ok(None)
    );
    assert_eq!(l.len(), 2);
}

#[test]
fn cancellation_rules() {
    let mut l = TransactionLedger::new();
    outbound(&mut l, 1, 0);
    let ev = l.receive_cancellation(1, 1).unwrap().unwrap();
    assert_eq!(ev.status, TransactionStatus::Cancelled);
    assert_eq!(l.receive_cancellation(1, 2), Ok(None));
    assert_eq!(l.cancel(1, 2), Err(ProtocolError::NotCancellable));
    outbound(&mut l, 2, 0);
    l.receive_reply(2, true, vec![], 1).unwrap();
    l.submit_broadcast(2, 2).unwrap();
    assert_eq!(l.cancel(2, 3).unwrap().map(|e| e.status), Some(TransactionStatus::Cancelled));
    outbound(&mut l, 3, 0);
    l.receive_reply(3, true, vec![], 1).unwrap();
    l.submit_broadcast(3, 2).unwrap();
    l.apply_kernel_result(3, Some(9), 3, 3, 3).unwrap();
    assert_eq!(l.receive_cancellation(3, 4), Err(ProtocolError::NotCancellable));
    assert!(cancellable(TransactionStatus::Initiated));
    assert!(!cancellable(TransactionStatus::Finalized));
    assert!(!cancellable(TransactionStatus::MinedUnconfirmed));
}

#[test]
fn discovered_output_becomes_one_sided_record() {
    let mut l = TransactionLedger::new();
    let ev = l
        .import_discovered_output(77, vec![3], 2_500, "found".to_string(), vec![1], 9)
        .unwrap();
    assert_eq!(ev, TransactionEvent { id: 77, status: TransactionStatus::MinedUnconfirmed, amount: 2_500, fee: 0 });
    assert_eq!(l.record_at(0).direction, TransactionDirection::OneSided);
    assert_eq!(l.record_at(0).message, "found");
    assert_eq!(l.pending_confirmations(), vec![77]);
    assert_eq!(
        l.import_discovered_output(77, vec![3], 1, String::new(), vec![], 9),
        Err(ProtocolError::DuplicateTransaction)
    );
    l.apply_kernel_result(77, Some(3), 3, 3, 10).unwrap();
    assert_eq!(l.get_status(77), Some(TransactionStatus::MinedConfirmed));
}

#[test]
fn stale_reply_after_broadcast_is_ignored() {
    let mut l = TransactionLedger::new();
    outbound(&mut l, 4, 0);
    l.receive_reply(4, true, vec![1], 1).unwrap();
    assert_eq!(l.receive_reply(4, true, vec![2], 2), Err(ProtocolError::InvalidState));
    l.submit_broadcast(4, 3).unwrap();
    assert_eq!(l.submit_broadcast(4, 4), Ok(None));
    assert_eq!(l.receive_reply(4, true, vec![2], 5), Ok(None));
    assert_eq!(l.record_at(0).payload, vec![1]);
    assert_eq!(check_reply(l.record_at(0), false), Ok(false));
    assert_eq!(check_finalize(l.record_at(0), false), Ok(false));
}

#[test]
fn backoff_doubles_up_to_the_limit() {
    let mut b = PollBackoff::new(5, 60);
    b.on_failure();
    assert_eq!(b.current, 10);
    b.on_failure();
    b.on_failure();
    assert_eq!(b.current, 40);
    b.on_failure();
    assert_eq!(b.current, 60);
    b.on_failure();
    assert_eq!(b.current, 60);
    b.on_success();
    assert_eq!(b.current, 5);
    let mut odd = PollBackoff::new(1, 7);
    odd.on_failure();
    odd.on_failure();
    assert_eq!(odd.current, 4);
    odd.on_failure();
    assert_eq!(odd.current, 7);
}
