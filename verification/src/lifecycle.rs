//! The owner's side of a checkpoint request.

use crate::checkpoint::{CheckpointBoundary, CheckpointCreateResult, CheckpointResult, ReadyResult};
use crate::error::SlateDBError;
use crate::oneshot::{
    drop_ready, drop_result, ready_channel, ready_offered, ready_sent, result_channel, result_closed,
    result_offered, result_sent, result_terminated, send_ready, send_result,
};
use tokio::sync::oneshot::{Receiver, Sender};
use uuid::Uuid;
use vstd::prelude::*;

verus! {

/// A checkpoint request on its way through the flush pipeline. `W` is what
/// the pipeline awaits for the request's WAL flush.
pub struct CheckpointRequest<W> {
    pub id: Uuid,
    pub boundary: CheckpointBoundary,
    pub lifecycle: CheckpointLifecycle,
    pub wal_flush: Option<W>,
}

/// The ways in which an owner parts with a checkpoint request.
pub enum Ending {
    /// The checkpoint was created.
    Completed(CheckpointCreateResult),
    /// The request failed.
    Failed(SlateDBError),
    /// The request was dropped without a report.
    Abandoned,
}

impl Ending {
    /// What this ending reports to the observer, if anything.
    pub open spec fn outcome(self) -> Option<CheckpointResult> {
        match self {
            Ending::Completed(created) => Some(Ok(created)),
            Ending::Failed(error) => Some(Err(error)),
            Ending::Abandoned => None,
        }
    }

    /// What this ending answers a requester who still waits, if anything.
    pub open spec fn answer(self) -> Option<ReadyResult> {
        match self {
            Ending::Failed(error) => Some(Err(error)),
            _ => None,
        }
    }
}

/// Answers a checkpoint request: once whether it is taken on, and once how it
/// ends.
pub struct CheckpointLifecycle {
    result_tx: Sender<CheckpointResult>,
    ready_tx: Option<Sender<ReadyResult>>,
}

impl CheckpointLifecycle {
    /// How this request is reported to end, if it ever is.
    pub closed spec fn outcome(self) -> Option<CheckpointResult> {
        result_sent(self.result_tx)
    }

    /// Whether the requester still awaits the readiness answer.
    pub closed spec fn is_undecided(self) -> bool {
        self.ready_tx is Some
    }

    /// The readiness answer that an undecided request is given, if it ever is.
    pub closed spec fn answer(self) -> Option<ReadyResult> {
        match self.ready_tx {
            Some(tx) => ready_sent(tx),
            None => None,
        }
    }

    /// Whether taking this request on makes it `after`: decided, with the same
    /// end to come, and answered if it was undecided.
    pub open spec fn accepted_as(self, after: Self) -> bool {
        &&& !after.is_undecided()
        &&& after.outcome() == self.outcome()
        &&& self.is_undecided() ==> self.answer() == Some(ReadyResult::Ok(()))
    }

    /// Whether this request ends by `ending`: the observer is reported no more
    /// than it says, and an undecided request is answered no more than it says.
    pub open spec fn ended_by(self, ending: Ending) -> bool {
        &&& self.outcome() == ending.outcome()
        &&& self.is_undecided() ==> self.answer() == ending.answer()
    }

    /// Starts an undecided request, with the receivers for its end and for its
    /// readiness.
    pub fn new() -> (started: (Self, Receiver<CheckpointResult>, Receiver<ReadyResult>))
        ensures
            started.0.is_undecided(),
            result_offered(started.1) == started.0.outcome(),
            !result_closed(started.1),
            !result_terminated(started.1),
            ready_offered(started.2) == started.0.answer(),
    {
        let (result_tx, result_rx) = result_channel();
        let (ready_tx, ready_rx) = ready_channel();
        (CheckpointLifecycle { result_tx, ready_tx: Some(ready_tx) }, result_rx, ready_rx)
    }

    /// Takes the request on. A request that is decided already stays as it is.
    pub fn accept(&mut self)
        ensures
            old(self).accepted_as(*final(self)),
    {
        if let Some(ready_tx) = self.ready_tx.take() {
            let _ = send_ready(ready_tx, Ok(()));
        }
    }

    /// Ends the request with a created checkpoint. A request that is still
    /// undecided gets no readiness answer.
    pub fn complete(self, result: CheckpointCreateResult)
        ensures
            self.ended_by(Ending::Completed(result)),
    {
        let mut ready_tx = self.ready_tx;
        let _ = send_result(self.result_tx, Ok(result));
        drop_ready(&mut ready_tx);
    }

    /// Ends the request with an error, which also answers a request that is
    /// still undecided.
    pub fn fail(self, error: SlateDBError)
        ensures
            self.ended_by(Ending::Failed(error)),
    {
        if let Some(ready_tx) = self.ready_tx {
            let _ = send_ready(ready_tx, Err(error.clone()));
        }
        let _ = send_result(self.result_tx, Err(error));
    }

    /// Drops the request without a report, and without a readiness answer if it
    /// is still undecided.
    pub fn abandon(self)
        ensures
            self.ended_by(Ending::Abandoned),
    {
        let mut result_tx = Some(self.result_tx);
        let mut ready_tx = self.ready_tx;
        drop_result(&mut result_tx);
        drop_ready(&mut ready_tx);
    }
}

} // verus!
