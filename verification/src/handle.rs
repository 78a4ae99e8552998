//! The observer's side of a checkpoint request.

use crate::checkpoint::{CheckpointCreateResult, CheckpointResult};
use crate::error::{Error, SlateDBError};
use crate::oneshot::{
    is_result_terminated, poll_result, result_closed, result_offered, result_received,
    result_terminated, result_wakes,
};
use std::task::Context;
use tokio::sync::oneshot::Receiver;
use uuid::Uuid;
use vstd::prelude::*;

verus! {

/// How a request ends for an observer who received `received`: as its owner
/// reported, or with an unknown outcome where the owner reported nothing.
pub open spec fn observed(id: Uuid, received: Option<CheckpointResult>) -> CheckpointResult {
    match received {
        Some(result) => result,
        None => Err(SlateDBError::CheckpointOutcomeUnknown(id)),
    }
}

/// A result of the database as its users see it.
pub open spec fn for_users<T>(result: Result<T, SlateDBError>) -> Result<T, Error> {
    match result {
        Ok(value) => Ok(value),
        Err(cause) => Err(Error { cause }),
    }
}

/// The error for a checkpoint whose owner went away without reporting.
pub fn checkpoint_outcome_unknown(id: Uuid) -> (error: SlateDBError)
    ensures
        error == SlateDBError::CheckpointOutcomeUnknown(id),
{
    SlateDBError::CheckpointOutcomeUnknown(id)
}

/// What an observer of checkpoint `id` learns from what was received.
pub fn wait_outcome(id: Uuid, received: Option<CheckpointResult>) -> (result: CheckpointResult)
    ensures
        result == observed(id, received),
{
    match received {
        Some(result) => result,
        None => Err(checkpoint_outcome_unknown(id)),
    }
}

/// How far waiting for a checkpoint has come.
pub enum Waited<T> {
    /// There is no outcome yet; the handle waits on.
    Pending(CheckpointHandle),
    /// The outcome.
    Done(T),
}

/// Observes a checkpoint that the database owns.
///
/// Dropping this handle does not cancel or delete the checkpoint.
/// Use [`CheckpointOptions::lifetime`](crate::CheckpointOptions::lifetime) to
/// limit retention of abandoned checkpoints.
pub struct CheckpointHandle {
    id: Uuid,
    result_rx: Receiver<CheckpointResult>,
}

impl CheckpointHandle {
    /// The identifier reserved for this checkpoint.
    pub closed spec fn checkpoint_id(self) -> Uuid {
        self.id
    }

    /// How the owner reports the request to end, if it ever does.
    pub closed spec fn reported(self) -> Option<CheckpointResult> {
        result_offered(self.result_rx)
    }

    /// What waiting receives of the owner's report in the end, if anything.
    pub closed spec fn received(self) -> Option<CheckpointResult> {
        result_received(self.result_rx)
    }

    /// Whether the receiver was closed, so that a later report is lost.
    pub closed spec fn is_closed(self) -> bool {
        result_closed(self.result_rx)
    }

    /// Whether the last wait on this handle was pending and was given `cx` to
    /// wake.
    pub closed spec fn wakes(self, cx: Context<'_>) -> bool {
        result_wakes(self.result_rx, cx)
    }

    /// A handle still waits for its outcome.
    #[verifier::type_invariant]
    spec fn is_waiting(self) -> bool {
        !result_terminated(self.result_rx)
    }

    /// Whether this handle observes the same checkpoint as `other`, with the same
    /// report to come.
    pub open spec fn same_as(self, other: Self) -> bool {
        &&& self.checkpoint_id() == other.checkpoint_id()
        &&& self.reported() == other.reported()
        &&& self.received() == other.received()
        &&& self.is_closed() == other.is_closed()
    }

    /// Whether what is received is what the owner reports: always on an open
    /// receiver, and on a closed one unless nothing is received.
    pub open spec fn receives_the_report(self) -> bool {
        &&& self.received() is Some ==> self.received() == self.reported()
        &&& !self.is_closed() ==> self.received() == self.reported()
    }

    /// Whether waiting ends in `result`, by what it receives of the owner's
    /// report.
    pub open spec fn shows(self, result: CheckpointResult) -> bool {
        &&& self.receives_the_report()
        &&& result == observed(self.checkpoint_id(), self.received())
    }

    /// Whether waiting ends in `result` for a user.
    pub open spec fn shows_users(self, result: Result<CheckpointCreateResult, Error>) -> bool {
        &&& self.receives_the_report()
        &&& result == for_users(observed(self.checkpoint_id(), self.received()))
    }

    /// A handle that observes checkpoint `id` through `result_rx`, which has not
    /// yielded its outcome.
    pub fn new(id: Uuid, result_rx: Receiver<CheckpointResult>) -> (handle: Self)
        requires
            !result_terminated(result_rx),
        ensures
            handle.checkpoint_id() == id,
            handle.reported() == result_offered(result_rx),
            handle.received() == result_received(result_rx),
            handle.is_closed() == result_closed(result_rx),
            forall|cx: Context<'_>| handle.wakes(cx) == #[trigger] result_wakes(result_rx, cx),
    {
        CheckpointHandle { id, result_rx }
    }

    /// A handle as [`new`](CheckpointHandle::new) makes it, or `None` if
    /// `result_rx` has yielded its outcome already.
    pub fn try_new(id: Uuid, result_rx: Receiver<CheckpointResult>) -> (handle: Option<Self>)
        ensures
            handle is None <==> result_terminated(result_rx),
            handle matches Some(handle) ==> {
                &&& handle.checkpoint_id() == id
                &&& handle.reported() == result_offered(result_rx)
                &&& handle.received() == result_received(result_rx)
                &&& handle.is_closed() == result_closed(result_rx)
                &&& forall|cx: Context<'_>|
                    handle.wakes(cx) == #[trigger] result_wakes(result_rx, cx)
            },
    {
        if is_result_terminated(&result_rx) {
            None
        } else {
            Some(CheckpointHandle::new(id, result_rx))
        }
    }

    /// Returns the identifier reserved for this checkpoint.
    pub fn id(&self) -> (id: Uuid)
        ensures
            id == self.checkpoint_id(),
    {
        self.id
    }

    /// Waits until the checkpoint manifest is durable. While it is not, the
    /// handle comes back, and `cx` is woken when there is more to see.
    ///
    /// This method consumes the handle without changing the checkpoint lifetime.
    /// To stop waiting does not cancel or delete the checkpoint.
    pub fn wait(self, cx: &mut Context<'_>) -> (waited: Waited<Result<CheckpointCreateResult, Error>>)
        ensures
            match waited {
                Waited::Pending(handle) => handle.same_as(self) && handle.wakes(*old(cx)),
                Waited::Done(result) => self.shows_users(result),
            },
    {
        match self.wait_inner(cx) {
            Waited::Pending(handle) => Waited::Pending(handle),
            Waited::Done(Ok(created)) => Waited::Done(Ok(created)),
            Waited::Done(Err(cause)) => Waited::Done(Err(Error::from(cause))),
        }
    }

    /// Waits as [`wait`](CheckpointHandle::wait) does, with the database's own
    /// errors.
    pub fn wait_inner(self, cx: &mut Context<'_>) -> (waited: Waited<CheckpointResult>)
        ensures
            match waited {
                Waited::Pending(handle) => handle.same_as(self) && handle.wakes(*old(cx)),
                Waited::Done(result) => self.shows(result),
            },
    {
        proof {
            use_type_invariant(&self);
        }
        let id = self.id;
        let mut result_rx = self.result_rx;
        match poll_result(&mut result_rx, cx) {
            None => Waited::Pending(CheckpointHandle { id, result_rx }),
            Some(received) => Waited::Done(wait_outcome(id, received)),
        }
    }
}

} // verus!
