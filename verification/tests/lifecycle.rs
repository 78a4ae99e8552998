use slatedb_checkpoint::laws::wait_while_owned;
use slatedb_checkpoint::{
    checkpoint_outcome_unknown, wait_outcome, CheckpointBoundary, CheckpointCreateResult,
    CheckpointHandle, CheckpointLifecycle, CheckpointRequest, CheckpointResult, Error,
    SlateDBError, Waited,
};
use std::sync::atomic::{AtomicUsize, Ordering};
use std::sync::Arc;
use std::task::{Context, Wake, Waker};
use tokio::sync::oneshot::error::TryRecvError;
use uuid::Uuid;

const ID: u128 = 0xa1a2a3a4b1b2c1c2d1d2d3d4d5d6d7d8;

struct CountingWaker(AtomicUsize);

impl Wake for CountingWaker {
    fn wake(self: Arc<Self>) {
        self.0.fetch_add(1, Ordering::SeqCst);
    }
}

fn wait_now(handle: CheckpointHandle) -> Result<CheckpointCreateResult, Error> {
    match handle.wait(&mut Context::from_waker(Waker::noop())) {
        Waited::Done(result) => result,
        Waited::Pending(_) => panic!("the checkpoint has no outcome yet"),
    }
}

fn wait_inner_now(handle: CheckpointHandle) -> CheckpointResult {
    match handle.wait_inner(&mut Context::from_waker(Waker::noop())) {
        Waited::Done(result) => result,
        Waited::Pending(_) => panic!("the checkpoint has no outcome yet"),
    }
}

#[test]
fn test_dropped_result_sender_reports_unknown_outcome() {
    let id = Uuid::new_v4();
    let (lifecycle, result_rx, _ready_rx) = CheckpointLifecycle::new();
    drop(lifecycle);

    let error = wait_now(CheckpointHandle::new(id, result_rx)).unwrap_err();
    assert!(error
        .to_string()
        .contains(&format!("checkpoint outcome is unknown. checkpoint_id=`{id}`")));
}

#[test]
fn completion_is_observed() {
    let id = Uuid::from_u128(ID);
    let (mut lifecycle, result_rx, mut ready_rx) = CheckpointLifecycle::new();
    let handle = CheckpointHandle::new(id, result_rx);
    assert_eq!(handle.id(), id);
    assert!(matches!(ready_rx.try_recv(), Err(TryRecvError::Empty)));

    lifecycle.accept();
    assert!(matches!(ready_rx.try_recv(), Ok(Ok(()))));
    lifecycle.complete(CheckpointCreateResult::new(id, 7));

    let created = wait_now(handle).unwrap();
    assert_eq!(created.id, id);
    assert_eq!(created.manifest_id, 7);
}

#[test]
fn completion_reaches_the_inner_wait() {
    let id = Uuid::from_u128(ID);
    let (lifecycle, result_rx, _ready_rx) = CheckpointLifecycle::new();
    lifecycle.complete(CheckpointCreateResult::new(id, 3));
    let created = wait_inner_now(CheckpointHandle::new(id, result_rx)).unwrap();
    assert_eq!(created.manifest_id, 3);
}

#[test]
fn completion_without_acceptance_leaves_readiness_unanswered() {
    let id = Uuid::from_u128(ID);
    let (lifecycle, result_rx, mut ready_rx) = CheckpointLifecycle::new();
    lifecycle.complete(CheckpointCreateResult::new(id, 3));
    assert!(matches!(ready_rx.try_recv(), Err(TryRecvError::Closed)));
    assert!(wait_now(CheckpointHandle::new(id, result_rx)).is_ok());
}

#[test]
fn failure_answers_an_undecided_request_on_both_channels() {
    let id = Uuid::from_u128(ID);
    let (lifecycle, result_rx, mut ready_rx) = CheckpointLifecycle::new();
    lifecycle.fail(SlateDBError::Other("flush failed".to_string()));

    match ready_rx.try_recv() {
        Ok(Err(SlateDBError::Other(message))) => assert_eq!(message, "flush failed"),
        other => panic!("unexpected readiness {other:?}"),
    }
    let error = wait_now(CheckpointHandle::new(id, result_rx)).unwrap_err();
    assert_eq!(error.to_string(), "flush failed");
}

#[test]
fn acceptance_stands_when_the_request_fails_later() {
    let id = Uuid::from_u128(ID);
    let (mut lifecycle, result_rx, mut ready_rx) = CheckpointLifecycle::new();
    lifecycle.accept();
    lifecycle.fail(SlateDBError::InvalidDBState);

    assert!(matches!(ready_rx.try_recv(), Ok(Ok(()))));
    assert!(matches!(
        wait_inner_now(CheckpointHandle::new(id, result_rx)),
        Err(SlateDBError::InvalidDBState)
    ));
}

#[test]
fn accepting_twice_answers_once() {
    let (mut lifecycle, _result_rx, mut ready_rx) = CheckpointLifecycle::new();
    lifecycle.accept();
    lifecycle.accept();
    assert!(matches!(ready_rx.try_recv(), Ok(Ok(()))));
    assert!(matches!(ready_rx.try_recv(), Err(TryRecvError::Closed)));
}

#[test]
fn a_report_needs_no_observer() {
    let id = Uuid::from_u128(ID);
    let (mut completed, result_rx, ready_rx) = CheckpointLifecycle::new();
    drop(CheckpointHandle::new(id, result_rx));
    drop(ready_rx);
    completed.accept();
    completed.complete(CheckpointCreateResult::new(id, 1));

    let (failed, result_rx, ready_rx) = CheckpointLifecycle::new();
    drop(CheckpointHandle::new(id, result_rx));
    drop(ready_rx);
    failed.fail(SlateDBError::InvalidDBState);
}

#[test]
fn a_closed_receiver_loses_a_later_report() {
    let id = Uuid::from_u128(ID);
    let (lifecycle, mut result_rx, _ready_rx) = CheckpointLifecycle::new();
    result_rx.close();
    lifecycle.complete(CheckpointCreateResult::new(id, 1));
    assert!(matches!(
        wait_inner_now(CheckpointHandle::new(id, result_rx)),
        Err(SlateDBError::CheckpointOutcomeUnknown(unknown)) if unknown == id
    ));
}

#[test]
fn a_closed_receiver_keeps_an_earlier_report() {
    let id = Uuid::from_u128(ID);
    let (lifecycle, mut result_rx, _ready_rx) = CheckpointLifecycle::new();
    lifecycle.complete(CheckpointCreateResult::new(id, 1));
    result_rx.close();
    assert!(wait_now(CheckpointHandle::new(id, result_rx)).is_ok());
}

#[test]
fn a_pending_handle_comes_back_and_is_woken() {
    let id = Uuid::from_u128(ID);
    let (lifecycle, result_rx, _ready_rx) = CheckpointLifecycle::new();
    let counter = Arc::new(CountingWaker(AtomicUsize::new(0)));
    let waker = Waker::from(counter.clone());
    let mut cx = Context::from_waker(&waker);

    let handle = match CheckpointHandle::new(id, result_rx).wait(&mut cx) {
        Waited::Pending(handle) => handle,
        Waited::Done(_) => panic!("nothing was reported yet"),
    };
    assert_eq!(handle.id(), id);
    assert_eq!(counter.0.load(Ordering::SeqCst), 0);

    lifecycle.complete(CheckpointCreateResult::new(id, 9));
    assert_eq!(counter.0.load(Ordering::SeqCst), 1);
    match handle.wait(&mut cx) {
        Waited::Done(result) => assert_eq!(result.unwrap().manifest_id, 9),
        Waited::Pending(_) => panic!("the outcome was reported"),
    }
}

#[test]
fn what_was_received_decides_the_outcome() {
    let id = Uuid::from_u128(ID);
    let created = wait_outcome(id, Some(Ok(CheckpointCreateResult::new(id, 4)))).unwrap();
    assert_eq!((created.id, created.manifest_id), (id, 4));
    assert!(matches!(
        wait_outcome(id, Some(Err(SlateDBError::InvalidDBState))),
        Err(SlateDBError::InvalidDBState)
    ));
    assert!(matches!(
        wait_outcome(id, None),
        Err(SlateDBError::CheckpointOutcomeUnknown(unknown)) if unknown == id
    ));
    assert!(matches!(
        checkpoint_outcome_unknown(id),
        SlateDBError::CheckpointOutcomeUnknown(unknown) if unknown == id
    ));
}

#[test]
fn a_request_carries_its_lifecycle() {
    let id = Uuid::from_u128(ID);
    let (lifecycle, result_rx, _ready_rx) = CheckpointLifecycle::new();
    let request = CheckpointRequest {
        id,
        boundary: CheckpointBoundary { through_seq: Some(3), wal_id_last_seen: None },
        lifecycle,
        wal_flush: Some("upload"),
    };
    assert_eq!(request.boundary.through_seq, Some(3));
    assert_eq!(request.wal_flush, Some("upload"));
    request.lifecycle.complete(CheckpointCreateResult::new(request.id, 2));
    assert_eq!(wait_now(CheckpointHandle::new(id, result_rx)).unwrap().manifest_id, 2);
}

#[test]
fn a_receiver_that_yielded_its_outcome_gets_no_handle() {
    let id = Uuid::from_u128(ID);
    let (lifecycle, mut result_rx, _ready_rx) = CheckpointLifecycle::new();
    lifecycle.complete(CheckpointCreateResult::new(id, 1));
    assert!(result_rx.try_recv().is_ok());
    assert!(CheckpointHandle::try_new(id, result_rx).is_none());

    let (lifecycle, result_rx, _ready_rx) = CheckpointLifecycle::new();
    lifecycle.complete(CheckpointCreateResult::new(id, 6));
    let handle = CheckpointHandle::try_new(id, result_rx).unwrap();
    assert_eq!(handle.id(), id);
    assert_eq!(wait_now(handle).unwrap().manifest_id, 6);
}

#[test]
fn an_abandoned_request_reports_nothing() {
    let id = Uuid::from_u128(ID);
    let (undecided, result_rx, mut ready_rx) = CheckpointLifecycle::new();
    undecided.abandon();
    assert!(matches!(ready_rx.try_recv(), Err(TryRecvError::Closed)));
    let error = wait_now(CheckpointHandle::new(id, result_rx)).unwrap_err();
    assert_eq!(
        error.to_string(),
        "checkpoint outcome is unknown. checkpoint_id=`a1a2a3a4-b1b2-c1c2-d1d2-d3d4d5d6d7d8`"
    );

    let (mut accepted, result_rx, mut ready_rx) = CheckpointLifecycle::new();
    accepted.accept();
    accepted.abandon();
    assert!(matches!(ready_rx.try_recv(), Ok(Ok(()))));
    assert!(matches!(
        wait_inner_now(CheckpointHandle::new(id, result_rx)),
        Err(SlateDBError::CheckpointOutcomeUnknown(unknown)) if unknown == id
    ));
}

#[test]
fn a_users_wait_converts_the_error() {
    let id = Uuid::from_u128(ID);
    let (lifecycle, result_rx, _ready_rx) = CheckpointLifecycle::new();
    lifecycle.fail(SlateDBError::InvalidDBState);
    assert!(matches!(
        wait_now(CheckpointHandle::new(id, result_rx)),
        Err(Error { cause: SlateDBError::InvalidDBState, .. })
    ));
}

#[test]
fn a_handle_keeps_its_id_while_it_waits() {
    let id = Uuid::from_u128(ID);
    let (lifecycle, result_rx, _ready_rx) = CheckpointLifecycle::new();
    let mut cx = Context::from_waker(Waker::noop());
    let mut handle = CheckpointHandle::new(id, result_rx);
    for _ in 0..3 {
        handle = match handle.wait(&mut cx) {
            Waited::Pending(handle) => handle,
            Waited::Done(_) => panic!("nothing was reported yet"),
        };
        assert_eq!(handle.id(), id);
    }
    lifecycle.complete(CheckpointCreateResult::new(id, 1));
    assert_eq!(wait_now(handle).unwrap().id, id);
}

#[test]
fn a_wait_is_pending_while_the_owner_has_the_request() {
    let id = Uuid::from_u128(ID);
    let (lifecycle, result_rx, mut ready_rx) = CheckpointLifecycle::new();
    let handle = CheckpointHandle::new(id, result_rx);
    let counter = Arc::new(CountingWaker(AtomicUsize::new(0)));
    let waker = Waker::from(counter.clone());
    let mut cx = Context::from_waker(&waker);

    let (mut lifecycle, handle) = wait_while_owned(lifecycle, handle, &mut cx);
    assert_eq!(handle.id(), id);
    lifecycle.accept();
    let (lifecycle, handle) = wait_while_owned(lifecycle, handle, &mut cx);
    assert!(matches!(ready_rx.try_recv(), Ok(Ok(()))));
    assert_eq!(counter.0.load(Ordering::SeqCst), 0);

    lifecycle.fail(SlateDBError::InvalidDBState);
    assert_eq!(counter.0.load(Ordering::SeqCst), 1);
    assert!(matches!(wait_inner_now(handle), Err(SlateDBError::InvalidDBState)));
}
