use taiji_wallet::record::{ProtocolError, TransactionStatus};
use taiji_wallet::service::{
    after_send_failure, RoundRobin, SendOutcome, ServiceAction, ServiceConfig, ServiceInput, TransactionService,
};

fn config() -> ServiceConfig {
    ServiceConfig {
        transaction_timeout: 100,
        required_confirmations: 3,
        max_reorgs: 3,
        poll_interval: 10,
        max_poll_interval: 80,
    }
}

fn send(id: u64) -> ServiceInput {
    ServiceInput::SendTransaction {
        id,
        counterparty: vec![1],
        amount: 10_000,
        fee: 50,
        message: "m".to_string(),
        payload: vec![2],
    }
}

#[test]
fn each_input_yields_its_action() {
    let mut s = TransactionService::new(config());
    let (res, action) = s.handle(send(42), 1);
    assert_eq!(res.unwrap().unwrap().status, TransactionStatus::Initiated);
    assert_eq!(action, Some(ServiceAction::SendPartialTransaction(42)));
    let (_, action) = s.handle(send(42), 1);
    assert_eq!(action, None);
    let (res, action) = s.handle(ServiceInput::TransactionSent { id: 42 }, 2);
    assert!(res.is_ok());
    assert_eq!(action, None);
    let (_, action) = s.handle(ServiceInput::Reply { id: 42, valid: true, payload: vec![3] }, 3);
    assert_eq!(action, Some(ServiceAction::FinalizeAndBroadcast(42)));
    let (_, action) = s.handle(ServiceInput::Broadcasted { id: 42 }, 4);
    assert_eq!(action, None);
    assert_eq!(s.ledger.get_status(42), Some(TransactionStatus::Broadcast));
    let (res, action) = s.handle(ServiceInput::KernelResult { id: 42, found: Some(3) }, 5);
    assert_eq!(res.unwrap().unwrap().status, TransactionStatus::MinedConfirmed);
    assert_eq!(action, None);
    let (res, action) = s.handle(ServiceInput::Cancel { id: 42 }, 6);
    assert_eq!(res, Err(ProtocolError::NotCancellable));
    assert_eq!(action, None);

    let sender = ServiceInput::SenderMessage {
        id: 7,
        counterparty: vec![9],
        amount: 5,
        message: String::new(),
        valid: true,
        payload: vec![],
    };
    let (_, action) = s.handle(sender.clone(), 7);
    assert_eq!(action, Some(ServiceAction::SendReply(7)));
    let (res, action) = s.handle(sender, 8);
    assert_eq!(res, Ok(None));
    assert_eq!(action, Some(ServiceAction::SendReply(7)));
    let (_, action) = s.handle(ServiceInput::Finalized { id: 7, valid: true, payload: vec![1] }, 9);
    assert_eq!(action, Some(ServiceAction::Broadcast(7)));

    let (_, action) = s.handle(send(8), 10);
    assert_eq!(action, Some(ServiceAction::SendPartialTransaction(8)));
    let (_, action) = s.handle(ServiceInput::Cancel { id: 8 }, 11);
    assert_eq!(action, Some(ServiceAction::SendCancellation(8)));
    let (res, action) = s.handle(ServiceInput::CancelMessage { id: 99 }, 12);
    assert_eq!(res, Err(ProtocolError::UnknownTransaction));
    assert_eq!(action, None);
}

#[test]
fn tick_batches_kernel_queries_when_due() {
    let mut s = TransactionService::new(config());
    for id in [1u64, 2, 3] {
        s.handle(send(id), 0);
    }
    s.handle(ServiceInput::Reply { id: 1, valid: true, payload: vec![] }, 1);
    s.handle(ServiceInput::Broadcasted { id: 1 }, 1);
    s.handle(ServiceInput::Reply { id: 3, valid: true, payload: vec![] }, 1);
    s.handle(ServiceInput::Broadcasted { id: 3 }, 1);
    let (events, action) = s.on_tick(5);
    assert!(events.is_empty());
    assert_eq!(action, None);
    let (events, action) = s.on_tick(10);
    assert!(events.is_empty());
    assert_eq!(action, Some(ServiceAction::QueryKernels(vec![1, 3])));
    assert_eq!(s.last_poll, 10);
    let (events, action) = s.on_tick(15);
    assert!(events.is_empty());
    assert_eq!(action, None);
    let (events, _) = s.on_tick(101);
    assert_eq!(events.len(), 1);
    assert_eq!(events[0].id, 2);
    assert_eq!(s.ledger.get_status(2), Some(TransactionStatus::Cancelled));
}

#[test]
fn query_failures_back_off_and_success_resets() {
    let mut s = TransactionService::new(config());
    s.on_query_failed();
    assert_eq!(s.backoff.current, 20);
    s.on_query_failed();
    s.on_query_failed();
    s.on_query_failed();
    assert_eq!(s.backoff.current, 80);
    s.on_query_succeeded();
    assert_eq!(s.backoff.current, 10);
}

#[test]
fn round_robin_serves_every_ready_source() {
    let mut rr = RoundRobin::new(4);
    let all = vec![true, true, true, true];
    assert_eq!(rr.pick(&all), Some(0));
    assert_eq!(rr.pick(&all), Some(1));
    assert_eq!(rr.pick(&all), Some(2));
    assert_eq!(rr.pick(&all), Some(3));
    assert_eq!(rr.pick(&all), Some(0));
    let some = vec![true, false, false, true];
    assert_eq!(rr.pick(&some), Some(3));
    assert_eq!(rr.pick(&some), Some(0));
    assert_eq!(rr.pick(&some), Some(3));
    let none = vec![false, false, false, false];
    assert_eq!(rr.pick(&none), None);
    assert_eq!(rr.next, 0);
}

#[test]
fn sends_are_retried_up_to_the_limit() {
    assert_eq!(after_send_failure(1, 3), SendOutcome::Retry);
    assert_eq!(after_send_failure(2, 3), SendOutcome::Retry);
    assert_eq!(after_send_failure(3, 3), SendOutcome::ManualResend);
    assert_eq!(after_send_failure(0, 0), SendOutcome::ManualResend);
}
