//! Beginning and creating checkpoints of an open database.
//!
//! Both operations alternate between deciding and waiting for the rest of the
//! database. The decisions are here. Each one names the next action, and the
//! database hands back the event that the action ends in.

use crate::checkpoint::{CheckpointBoundary, CheckpointCreateResult};
use crate::config::{CheckpointOptions, CheckpointScope};
use crate::error::{Error, SlateDBError};
use crate::handle::{for_users, CheckpointHandle, Waited};
use std::task::Context;
use uuid::Uuid;
use vstd::prelude::*;

verus! {

/// What a checkpoint reads of an open database.
pub struct Db {
    /// Whether writes go through a write-ahead log (WAL).
    pub wal_enabled: bool,
    /// The id that the next WAL file gets.
    pub next_wal_sst_id: u64,
}

/// What beginning a checkpoint waits for. `W` is what the flush pipeline
/// awaits for a WAL flush.
pub enum BeginState<W> {
    /// The batch writer's flush.
    AwaitingFlush { options: CheckpointOptions },
    /// An identifier for the checkpoint.
    AwaitingId {
        boundary: CheckpointBoundary,
        wal_flush: Option<W>,
        options: CheckpointOptions,
    },
    /// The memtable flusher's reply.
    AwaitingFlusher,
    /// Nothing more.
    Finished,
}

/// What happened in the rest of the database.
pub enum BeginEvent<W> {
    /// The batch writer flushed. It names a boundary where it froze the memtable.
    BatchWriterFlushed(Result<(W, Option<CheckpointBoundary>), SlateDBError>),
    /// A fresh identifier was drawn.
    IdDrawn(Uuid),
    /// The memtable flusher took the request on, or refused it.
    FlusherReplied(Result<CheckpointHandle, SlateDBError>),
}

/// What the database does next.
pub enum BeginAction<W> {
    /// Flush the batch writer, which ends in `BatchWriterFlushed`.
    FlushBatchWriter { freeze_memtable: bool },
    /// Draw a fresh identifier, which ends in `IdDrawn`.
    DrawId,
    /// Hand the request to the memtable flusher, which ends in `FlusherReplied`.
    Submit {
        id: Uuid,
        boundary: CheckpointBoundary,
        options: CheckpointOptions,
        wal_flush: Option<W>,
    },
    /// Return to the caller.
    Return(Result<CheckpointHandle, Error>),
}

/// What creating a checkpoint waits for.
pub enum CreateState<W> {
    /// What beginning it waits for.
    Beginning(BeginState<W>),
    /// The checkpoint's outcome.
    Waiting(CheckpointHandle),
    /// Nothing more.
    Finished,
}

/// What the database does next.
pub enum CreateAction<W> {
    /// What beginning the checkpoint does next, other than return.
    Begin(BeginAction<W>),
    /// Wait for the checkpoint's outcome.
    Wait,
    /// Return to the caller.
    Return(Result<CheckpointCreateResult, Error>),
}

/// What is durable in a database: no bound on sequence numbers, and the last
/// WAL file that was given an id, where there is a WAL. A WAL that has no such
/// file contradicts itself.
pub open spec fn durable_boundary(db: Db) -> Result<CheckpointBoundary, SlateDBError> {
    if db.wal_enabled && db.next_wal_sst_id == 0 {
        Err(SlateDBError::InvalidDBState)
    } else {
        Ok(
            CheckpointBoundary {
                through_seq: None,
                wal_id_last_seen: if db.wal_enabled {
                    Some((db.next_wal_sst_id - 1) as u64)
                } else {
                    None
                },
            },
        )
    }
}

/// How a checkpoint goes on from what was captured for it.
pub open spec fn after_capture<W>(
    captured: Result<(CheckpointBoundary, Option<W>), SlateDBError>,
    options: CheckpointOptions,
) -> (BeginState<W>, BeginAction<W>) {
    match captured {
        Ok((boundary, wal_flush)) => (
            BeginState::AwaitingId { boundary, wal_flush, options },
            BeginAction::DrawId,
        ),
        Err(cause) => (BeginState::Finished, BeginAction::Return(Err(Error { cause }))),
    }
}

/// How beginning a checkpoint starts.
pub open spec fn first_step<W>(
    db: Db,
    scope: CheckpointScope,
    options: CheckpointOptions,
) -> (BeginState<W>, BeginAction<W>) {
    match scope {
        CheckpointScope::All => (
            BeginState::AwaitingFlush { options },
            BeginAction::FlushBatchWriter { freeze_memtable: true },
        ),
        CheckpointScope::Durable => match durable_boundary(db) {
            Ok(boundary) => after_capture(Ok((boundary, None)), options),
            Err(cause) => after_capture(Err(cause), options),
        },
    }
}

/// How creating a checkpoint follows a step of beginning it: once it is begun,
/// it waits on the handle.
pub open spec fn create_step<W>(step: (BeginState<W>, BeginAction<W>)) -> (
    CreateState<W>,
    CreateAction<W>,
) {
    match step {
        (_, BeginAction::Return(Ok(handle))) => (CreateState::Waiting(handle), CreateAction::Wait),
        (_, BeginAction::Return(Err(error))) => (
            CreateState::Finished,
            CreateAction::Return(Err(error)),
        ),
        (state, action) => (CreateState::Beginning(state), CreateAction::Begin(action)),
    }
}

impl<W> BeginState<W> {
    /// Whether `event` is what this state waits for. A flush that froze the
    /// memtable names a boundary.
    pub open spec fn expects(self, event: BeginEvent<W>) -> bool {
        match (self, event) {
            (BeginState::AwaitingFlush { .. }, BeginEvent::BatchWriterFlushed(flushed)) => {
                flushed matches Ok((_, boundary)) ==> boundary is Some
            },
            (BeginState::AwaitingId { .. }, BeginEvent::IdDrawn(_)) => true,
            (BeginState::AwaitingFlusher, BeginEvent::FlusherReplied(_)) => true,
            _ => false,
        }
    }

    /// How beginning a checkpoint goes on after an expected event.
    pub open spec fn next_step(self, event: BeginEvent<W>) -> (BeginState<W>, BeginAction<W>)
        recommends
            self.expects(event),
    {
        match (self, event) {
            (BeginState::AwaitingFlush { options }, BeginEvent::BatchWriterFlushed(flushed)) => {
                after_capture(
                    match flushed {
                        Ok((wal_flush, boundary)) => Ok((boundary.unwrap(), Some(wal_flush))),
                        Err(cause) => Err(cause),
                    },
                    options,
                )
            },
            (
                BeginState::AwaitingId { boundary, wal_flush, options },
                BeginEvent::IdDrawn(id),
            ) => (
                BeginState::AwaitingFlusher,
                BeginAction::Submit { id, boundary, options, wal_flush },
            ),
            (BeginState::AwaitingFlusher, BeginEvent::FlusherReplied(reply)) => (
                BeginState::Finished,
                BeginAction::Return(for_users(reply)),
            ),
            _ => arbitrary(),
        }
    }

    /// Goes on after an expected event.
    pub fn step(self, event: BeginEvent<W>) -> (next: (BeginState<W>, BeginAction<W>))
        requires
            self.expects(event),
        ensures
            next == self.next_step(event),
    {
        match (self, event) {
            (BeginState::AwaitingFlush { options }, BeginEvent::BatchWriterFlushed(flushed)) => {
                match flushed {
                    Ok((wal_flush, boundary)) => (
                        BeginState::AwaitingId {
                            boundary: boundary.unwrap(),
                            wal_flush: Some(wal_flush),
                            options,
                        },
                        BeginAction::DrawId,
                    ),
                    Err(cause) => (
                        BeginState::Finished,
                        BeginAction::Return(Err(Error::from(cause))),
                    ),
                }
            },
            (
                BeginState::AwaitingId { boundary, wal_flush, options },
                BeginEvent::IdDrawn(id),
            ) => (
                BeginState::AwaitingFlusher,
                BeginAction::Submit { id, boundary, options, wal_flush },
            ),
            (BeginState::AwaitingFlusher, BeginEvent::FlusherReplied(Ok(handle))) => (
                BeginState::Finished,
                BeginAction::Return(Ok(handle)),
            ),
            (BeginState::AwaitingFlusher, BeginEvent::FlusherReplied(Err(cause))) => (
                BeginState::Finished,
                BeginAction::Return(Err(Error::from(cause))),
            ),
            _ => vstd::pervasive::unreached(),
        }
    }
}

impl Db {
    /// The boundary of a checkpoint that covers what is durable.
    pub fn durable_boundary(&self) -> (boundary: Result<CheckpointBoundary, SlateDBError>)
        ensures
            boundary == durable_boundary(*self),
    {
        let wal_id_last_seen = if self.wal_enabled {
            match self.next_wal_sst_id.checked_sub(1) {
                Some(last) => Some(last),
                None => return Err(SlateDBError::InvalidDBState),
            }
        } else {
            None
        };
        Ok(CheckpointBoundary { through_seq: None, wal_id_last_seen })
    }

    /// Starts to capture the checkpoint boundary and to hand the durable storage
    /// work to the flush pipeline.
    ///
    /// [`CheckpointScope::All`] freezes the active memtable first, and the
    /// checkpoint keeps the boundary of that freeze. [`CheckpointScope::Durable`]
    /// keeps what is durable in this state of the database. Either way later
    /// writes are excluded. The WAL flush that a freeze starts is handed on, not
    /// awaited: its completion and its errors are reported through the handle.
    ///
    /// The database owns the request once it enters the flush pipeline. Use a
    /// finite [`CheckpointOptions::lifetime`] to limit retention after a timeout
    /// or crash. With `lifetime: None`, abandoned checkpoints remain until
    /// explicit deletion.
    pub fn begin_checkpoint<W>(
        &self,
        scope: CheckpointScope,
        options: &CheckpointOptions,
    ) -> (first: (BeginState<W>, BeginAction<W>))
        ensures
            first == first_step::<W>(*self, scope, *options),
    {
        match scope {
            CheckpointScope::All => (
                BeginState::AwaitingFlush { options: options.clone() },
                BeginAction::FlushBatchWriter { freeze_memtable: true },
            ),
            CheckpointScope::Durable => match self.durable_boundary() {
                Ok(boundary) => (
                    BeginState::AwaitingId { boundary, wal_flush: None, options: options.clone() },
                    BeginAction::DrawId,
                ),
                Err(cause) => (
                    BeginState::Finished,
                    BeginAction::Return(Err(Error::from(cause))),
                ),
            },
        }
    }

    /// Starts to create a checkpoint of an open db using the provided options,
    /// which ends with the id of the created checkpoint and the id of the
    /// referenced manifest.
    pub fn create_checkpoint<W>(
        &self,
        scope: CheckpointScope,
        options: &CheckpointOptions,
    ) -> (first: (CreateState<W>, CreateAction<W>))
        ensures
            first == create_step(first_step::<W>(*self, scope, *options)),
    {
        follow(self.begin_checkpoint(scope, options))
    }
}

/// Follows a step of beginning a checkpoint.
fn follow<W>(step: (BeginState<W>, BeginAction<W>)) -> (next: (CreateState<W>, CreateAction<W>))
    ensures
        next == create_step(step),
{
    match step {
        (_, BeginAction::Return(Ok(handle))) => (CreateState::Waiting(handle), CreateAction::Wait),
        (_, BeginAction::Return(Err(error))) => (
            CreateState::Finished,
            CreateAction::Return(Err(error)),
        ),
        (state, action) => (CreateState::Beginning(state), CreateAction::Begin(action)),
    }
}

impl<W> CreateState<W> {
    /// Goes on after an event that beginning the checkpoint expects.
    pub fn step(self, event: BeginEvent<W>) -> (next: (CreateState<W>, CreateAction<W>))
        requires
            self matches CreateState::Beginning(state) && state.expects(event),
        ensures
            next == create_step(self->Beginning_0.next_step(event)),
    {
        match self {
            CreateState::Beginning(state) => follow(state.step(event)),
            _ => vstd::pervasive::unreached(),
        }
    }

    /// Waits for the checkpoint's outcome, and returns it once it is there. Until
    /// then `cx` is woken when there is more to see.
    pub fn wait(self, cx: &mut Context<'_>) -> (next: (CreateState<W>, CreateAction<W>))
        requires
            self is Waiting,
        ensures
            match next {
                (CreateState::Waiting(handle), CreateAction::Wait) => {
                    handle.same_as(self->Waiting_0) && handle.wakes(*old(cx))
                },
                (CreateState::Finished, CreateAction::Return(result)) => {
                    self->Waiting_0.shows_users(result)
                },
                _ => false,
            },
    {
        match self {
            CreateState::Waiting(handle) => match handle.wait(cx) {
                Waited::Pending(handle) => (CreateState::Waiting(handle), CreateAction::Wait),
                Waited::Done(result) => (CreateState::Finished, CreateAction::Return(result)),
            },
            _ => vstd::pervasive::unreached(),
        }
    }
}

} // verus!
