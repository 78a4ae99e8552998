use slatedb_checkpoint::{
    BeginAction, BeginEvent, BeginState, CheckpointBoundary, CheckpointCreateResult,
    CheckpointHandle, CheckpointLifecycle, CheckpointOptions, CheckpointScope, CreateAction,
    CreateState, Db, SlateDBError,
};
use std::task::{Context, Waker};
use std::time::Duration;
use uuid::Uuid;

const ID: u128 = 0x00000000000040008000000000000001;

fn options() -> CheckpointOptions {
    CheckpointOptions {
        lifetime: Some(Duration::from_secs(60)),
        source: Some(Uuid::from_u128(5)),
        name: Some("my_checkpoint".to_string()),
    }
}

fn assert_same_options(options: &CheckpointOptions) {
    assert_eq!(options.lifetime, Some(Duration::from_secs(60)));
    assert_eq!(options.source, Some(Uuid::from_u128(5)));
    assert_eq!(options.name.as_deref(), Some("my_checkpoint"));
}

#[test]
fn a_checkpoint_of_all_writes_keeps_the_boundary_of_its_freeze() {
    let db = Db { wal_enabled: true, next_wal_sst_id: 100 };
    let (state, action) = db.begin_checkpoint::<&str>(CheckpointScope::All, &options());
    assert!(matches!(action, BeginAction::FlushBatchWriter { freeze_memtable: true }));

    let frozen = CheckpointBoundary { through_seq: Some(42), wal_id_last_seen: Some(8) };
    let (state, action) = state.step(BeginEvent::BatchWriterFlushed(Ok(("upload", Some(frozen)))));
    assert!(matches!(action, BeginAction::DrawId));

    let (state, action) = state.step(BeginEvent::IdDrawn(Uuid::from_u128(ID)));
    match action {
        BeginAction::Submit { id, boundary, options, wal_flush } => {
            assert_eq!(id, Uuid::from_u128(ID));
            assert_eq!(boundary.through_seq, Some(42));
            assert_eq!(boundary.wal_id_last_seen, Some(8));
            assert_same_options(&options);
            assert_eq!(wal_flush, Some("upload"));
        }
        _ => panic!("the request was not submitted"),
    }

    let (_lifecycle, result_rx, _ready_rx) = CheckpointLifecycle::new();
    let handle = CheckpointHandle::new(Uuid::from_u128(ID), result_rx);
    let (state, action) = state.step(BeginEvent::FlusherReplied(Ok(handle)));
    assert!(matches!(state, BeginState::Finished));
    match action {
        BeginAction::Return(Ok(handle)) => assert_eq!(handle.id(), Uuid::from_u128(ID)),
        _ => panic!("the handle was not returned"),
    }
}

#[test]
fn a_failed_freeze_is_returned_and_submits_nothing() {
    let db = Db { wal_enabled: true, next_wal_sst_id: 1 };
    let (state, _) = db.begin_checkpoint::<()>(CheckpointScope::All, &options());
    let (state, action) = state.step(BeginEvent::BatchWriterFlushed(Err(SlateDBError::Other(
        "closed".to_string(),
    ))));
    assert!(matches!(state, BeginState::Finished));
    match action {
        BeginAction::Return(Err(error)) => assert_eq!(error.to_string(), "closed"),
        _ => panic!("the error was not returned"),
    }
}

#[test]
fn a_durable_checkpoint_ends_at_the_last_wal_file() {
    let db = Db { wal_enabled: true, next_wal_sst_id: 5 };
    let (state, action) = db.begin_checkpoint::<()>(CheckpointScope::Durable, &options());
    assert!(matches!(action, BeginAction::DrawId));
    let (state, action) = state.step(BeginEvent::IdDrawn(Uuid::from_u128(ID)));
    assert!(matches!(state, BeginState::AwaitingFlusher));
    match action {
        BeginAction::Submit { id, boundary, options, wal_flush } => {
            assert_eq!(id, Uuid::from_u128(ID));
            assert_eq!(boundary.through_seq, None);
            assert_eq!(boundary.wal_id_last_seen, Some(4));
            assert_same_options(&options);
            assert_eq!(wal_flush, None);
        }
        _ => panic!("the request was not submitted"),
    }
}

#[test]
fn durable_boundaries() {
    let boundary = |wal_enabled: bool, next_wal_sst_id: u64| {
        Db { wal_enabled, next_wal_sst_id }.durable_boundary().map(|b| {
            assert_eq!(b.through_seq, None);
            b.wal_id_last_seen
        })
    };
    assert!(matches!(boundary(true, 0), Err(SlateDBError::InvalidDBState)));
    assert!(matches!(boundary(true, 1), Ok(Some(0))));
    assert!(matches!(boundary(true, u64::MAX), Ok(Some(last)) if last == u64::MAX - 1));
    assert!(matches!(boundary(false, 0), Ok(None)));
    assert!(matches!(boundary(false, 9), Ok(None)));
}

#[test]
fn a_wal_without_files_is_an_invalid_state() {
    let db = Db { wal_enabled: true, next_wal_sst_id: 0 };
    let (state, action) = db.begin_checkpoint::<()>(CheckpointScope::Durable, &options());
    assert!(matches!(state, BeginState::Finished));
    match action {
        BeginAction::Return(Err(error)) => {
            assert_eq!(error.to_string(), "Data error: invalid DB state error")
        }
        _ => panic!("the error was not returned"),
    }
}

#[test]
fn a_refused_submission_is_returned() {
    let db = Db { wal_enabled: false, next_wal_sst_id: 0 };
    let (state, _) = db.begin_checkpoint::<()>(CheckpointScope::Durable, &options());
    let (state, _) = state.step(BeginEvent::IdDrawn(Uuid::from_u128(ID)));
    let (state, action) =
        state.step(BeginEvent::FlusherReplied(Err(SlateDBError::Other("refused".to_string()))));
    assert!(matches!(state, BeginState::Finished));
    match action {
        BeginAction::Return(Err(error)) => assert_eq!(error.to_string(), "refused"),
        _ => panic!("the error was not returned"),
    }
}

#[test]
fn creating_a_checkpoint_waits_for_its_outcome() {
    let id = Uuid::from_u128(ID);
    let db = Db { wal_enabled: false, next_wal_sst_id: 0 };
    let (state, action) = db.create_checkpoint::<()>(CheckpointScope::Durable, &options());
    assert!(matches!(action, CreateAction::Begin(BeginAction::DrawId)));
    let (state, action) = state.step(BeginEvent::IdDrawn(id));
    assert!(matches!(action, CreateAction::Begin(BeginAction::Submit { .. })));

    let (lifecycle, result_rx, _ready_rx) = CheckpointLifecycle::new();
    let handle = CheckpointHandle::new(id, result_rx);
    let (state, action) = state.step(BeginEvent::FlusherReplied(Ok(handle)));
    assert!(matches!(action, CreateAction::Wait));

    let mut cx = Context::from_waker(Waker::noop());
    let (state, action) = state.wait(&mut cx);
    assert!(matches!(action, CreateAction::Wait));
    lifecycle.complete(CheckpointCreateResult::new(id, 12));
    let (state, action) = state.wait(&mut cx);
    assert!(matches!(state, CreateState::Finished));
    match action {
        CreateAction::Return(Ok(created)) => {
            assert_eq!((created.id, created.manifest_id), (id, 12))
        }
        _ => panic!("the created checkpoint was not returned"),
    }
}

#[test]
fn creating_a_checkpoint_returns_an_error_of_beginning_it() {
    let db = Db { wal_enabled: true, next_wal_sst_id: 0 };
    let (state, action) = db.create_checkpoint::<()>(CheckpointScope::Durable, &options());
    assert!(matches!(state, CreateState::Finished));
    assert!(matches!(action, CreateAction::Return(Err(_))));

    let (state, action) = db.create_checkpoint::<()>(CheckpointScope::All, &options());
    assert!(matches!(
        action,
        CreateAction::Begin(BeginAction::FlushBatchWriter { freeze_memtable: true })
    ));
    let (state, action) =
        state.step(BeginEvent::BatchWriterFlushed(Err(SlateDBError::Other("closed".to_string()))));
    assert!(matches!(state, CreateState::Finished));
    match action {
        CreateAction::Return(Err(error)) => assert_eq!(error.to_string(), "closed"),
        _ => panic!("the error was not returned"),
    }
}
