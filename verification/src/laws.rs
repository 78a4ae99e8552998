//! What the checkpoint protocol promises across its operations.

use crate::checkpoint::{CheckpointBoundary, CheckpointCreateResult, CheckpointResult, ReadyResult};
use crate::config::{CheckpointOptions, CheckpointScope};
use crate::db::{
    create_step, durable_boundary, first_step, BeginAction, BeginEvent, BeginState, CreateAction,
    CreateState, Db,
};
use crate::error::{error_text, Error, SlateDBError};
use crate::handle::{for_users, observed, CheckpointHandle, Waited};
use crate::ident::{digits_before, hex_digit, hyphenated, is_hyphen_position, uuid_number};
use crate::lifecycle::{CheckpointLifecycle, Ending};
use crate::oneshot::{ready_offered, result_offered};
use std::task::Context;
use tokio::sync::oneshot::Receiver;
use uuid::Uuid;
use vstd::arithmetic::power::pow;
use vstd::prelude::*;
use vstd::std_specs::convert::FromSpec;

verus! {

/// Whether `handle` observes the request that `lifecycle` answers, through a
/// receiver that nobody closed.
pub open spec fn observes(handle: CheckpointHandle, lifecycle: CheckpointLifecycle) -> bool {
    &&& handle.reported() == lifecycle.outcome()
    &&& !handle.is_closed()
}

/// A request that its owner completes ends in the created checkpoint, for
/// whoever waits on its handle.
pub proof fn law_completion_is_observed(
    lifecycle: CheckpointLifecycle,
    handle: CheckpointHandle,
    created: CheckpointCreateResult,
    result: CheckpointResult,
    for_user: Result<CheckpointCreateResult, Error>,
)
    requires
        observes(handle, lifecycle),
        lifecycle.outcome() == Some(CheckpointResult::Ok(created)),
        handle.shows(result),
        handle.shows_users(for_user),
    ensures
        result == CheckpointResult::Ok(created),
        for_user == Ok::<CheckpointCreateResult, Error>(created),
{
}

/// A request that its owner fails ends in that very error, for whoever waits on
/// its handle.
pub proof fn law_failure_is_observed(
    lifecycle: CheckpointLifecycle,
    handle: CheckpointHandle,
    error: SlateDBError,
    result: CheckpointResult,
    for_user: Result<CheckpointCreateResult, Error>,
)
    requires
        observes(handle, lifecycle),
        lifecycle.outcome() == Some(CheckpointResult::Err(error)),
        handle.shows(result),
        handle.shows_users(for_user),
    ensures
        result == CheckpointResult::Err(error),
        for_user == Err::<CheckpointCreateResult, Error>(Error { cause: error }),
{
}

/// A request whose owner goes away without reporting ends in an unknown
/// outcome, which names the checkpoint.
pub proof fn law_silence_is_unknown(
    lifecycle: CheckpointLifecycle,
    handle: CheckpointHandle,
    result: CheckpointResult,
    for_user: Result<CheckpointCreateResult, Error>,
)
    requires
        observes(handle, lifecycle),
        lifecycle.outcome() is None,
        handle.shows(result),
        handle.shows_users(for_user),
    ensures
        ({
            let unknown = SlateDBError::CheckpointOutcomeUnknown(handle.checkpoint_id());
            &&& result == CheckpointResult::Err(unknown)
            &&& for_user == Err::<CheckpointCreateResult, Error>(Error { cause: unknown })
        }),
{
}

/// An observer, or a user, learns of a created checkpoint only if the owner
/// reported that very checkpoint, even on a closed receiver.
pub proof fn law_success_was_reported(handle: CheckpointHandle, created: CheckpointCreateResult)
    requires
        handle.shows(Ok(created)) || handle.shows_users(Ok(created)),
    ensures
        handle.reported() == Some(CheckpointResult::Ok(created)),
{
}

/// A user's wait is the database's own wait with its error converted: it ends in
/// a value exactly when the own wait ends in that value, and in an error exactly
/// when the own wait ends in the cause of that error.
pub proof fn law_users_wait_converts_the_error(
    handle: CheckpointHandle,
    for_user: Result<CheckpointCreateResult, Error>,
)
    ensures
        handle.shows_users(for_user) <==> exists|result: CheckpointResult| #[trigger]
            handle.shows(result) && for_user == for_users(result),
        match for_user {
            Ok(created) => handle.shows_users(for_user) <==> handle.shows(Ok(created)),
            Err(error) => handle.shows_users(for_user) <==> handle.shows(Err(error.cause)),
        },
{
    let result = match for_user {
        Ok(created) => CheckpointResult::Ok(created),
        Err(error) => CheckpointResult::Err(error.cause),
    };
    assert(for_user == for_users(result));
    assert(handle.shows_users(for_user) <==> handle.shows(result));
}

/// What is received decides what is observed, for every identifier: a result as
/// it is, and nothing as an unknown outcome of that identifier.
pub proof fn law_reception_decides(id: Uuid, result: CheckpointResult)
    ensures
        observed(id, Some(result)) == result,
        observed(id, None) == CheckpointResult::Err(SlateDBError::CheckpointOutcomeUnknown(id)),
{
}

/// A user's result has the value, or the cause, of the database's own result.
pub proof fn law_users_see_value_or_cause<T>(value: T, cause: SlateDBError)
    ensures
        for_users(Ok::<T, SlateDBError>(value)) == Ok::<T, Error>(value),
        for_users(Err::<T, SlateDBError>(cause)) == Err::<T, Error>(Error { cause }),
        <Error as FromSpec<SlateDBError>>::from_spec(cause).cause == cause,
{
}

/// A wait that is pending changes nothing that can be observed: neither the
/// identifier, nor what may still be shown, nor whose request it is.
pub proof fn law_pending_wait_changes_nothing(
    handle: CheckpointHandle,
    later: CheckpointHandle,
    lifecycle: CheckpointLifecycle,
    result: CheckpointResult,
    for_user: Result<CheckpointCreateResult, Error>,
)
    requires
        later.same_as(handle),
    ensures
        later.checkpoint_id() == handle.checkpoint_id(),
        later.is_closed() == handle.is_closed(),
        later.reported() == handle.reported(),
        later.received() == handle.received(),
        observes(later, lifecycle) <==> observes(handle, lifecycle),
        later.shows(result) <==> handle.shows(result),
        later.shows_users(for_user) <==> handle.shows_users(for_user),
{
}

/// An error that an observer sees was reported by the owner, unless it is the
/// unknown outcome of the observed checkpoint, which on an open receiver means
/// that nothing, or that very error, was reported.
pub proof fn law_error_was_reported_or_unknown(handle: CheckpointHandle, cause: SlateDBError)
    requires
        handle.shows(Err(cause)) || handle.shows_users(Err(Error { cause })),
    ensures
        handle.reported() == Some(CheckpointResult::Err(cause)) || cause
            == SlateDBError::CheckpointOutcomeUnknown(handle.checkpoint_id()),
        handle.reported() != Some(CheckpointResult::Err(cause)) && !handle.is_closed()
            ==> handle.reported() is None,
{
}

/// A handle ends in one result only, however often it is waited on.
pub proof fn law_end_is_unique(
    handle: CheckpointHandle,
    later: CheckpointHandle,
    one: CheckpointResult,
    other: CheckpointResult,
)
    requires
        later.same_as(handle),
        handle.shows(one),
        later.shows(other),
    ensures
        one == other,
{
}

/// Waits while the owner still has the request, taken on or not: there is no
/// outcome yet. The owner keeps the request as it is, and the handle waits on.
pub fn wait_while_owned(
    lifecycle: CheckpointLifecycle,
    handle: CheckpointHandle,
    cx: &mut Context<'_>,
) -> (kept: (CheckpointLifecycle, CheckpointHandle))
    requires
        observes(handle, lifecycle),
    ensures
        kept.0 == lifecycle,
        kept.1.same_as(handle),
        kept.1.wakes(*old(cx)),
{
    let id = handle.id();
    match handle.wait_inner(cx) {
        Waited::Pending(handle) => (lifecycle, handle),
        // A report that was received leaves the owner nothing to report.
        Waited::Done(Ok(_)) => {
            lifecycle.abandon();
            vstd::pervasive::unreached()
        },
        Waited::Done(Err(_)) => {
            lifecycle.complete(CheckpointCreateResult::new(id, 0));
            vstd::pervasive::unreached()
        },
    }
}

/// Taking a request on twice is taking it on once.
pub proof fn law_accept_is_idempotent(
    before: CheckpointLifecycle,
    once: CheckpointLifecycle,
    twice: CheckpointLifecycle,
)
    requires
        before.accepted_as(once),
        once.accepted_as(twice),
    ensures
        before.accepted_as(twice),
        twice.outcome() == once.outcome(),
{
}

/// Taking a request on decides it, keeps its end open, and answers it if it was
/// undecided.
pub proof fn law_acceptance_decides(before: CheckpointLifecycle, after: CheckpointLifecycle)
    requires
        before.accepted_as(after),
    ensures
        !after.is_undecided(),
        after.outcome() == before.outcome(),
        before.is_undecided() ==> before.answer() == Some(ReadyResult::Ok(())),
{
}

/// A request that was taken on and fails later keeps its readiness answer: the
/// requester heard that it was taken on, and only the observer hears the error.
pub proof fn law_acceptance_stands(
    before: CheckpointLifecycle,
    accepted: CheckpointLifecycle,
    error: SlateDBError,
)
    requires
        before.is_undecided(),
        before.accepted_as(accepted),
        accepted.outcome() == Some(CheckpointResult::Err(error)),
    ensures
        before.answer() == Some(ReadyResult::Ok(())),
        before.outcome() == Some(CheckpointResult::Err(error)),
{
}

/// What the two receivers of a request get over its whole life: it starts
/// undecided, is taken on any number of times, and ends. The requester hears
/// that it was taken on exactly if it was, the error exactly if it failed before
/// that, and otherwise nothing. The observer hears the created checkpoint exactly
/// if the request completed, the error exactly if it failed, and nothing exactly
/// if it was dropped.
pub proof fn law_request_history(
    result_rx: Receiver<CheckpointResult>,
    ready_rx: Receiver<ReadyResult>,
    history: Seq<CheckpointLifecycle>,
    ending: Ending,
)
    requires
        history.len() > 0,
        history[0].is_undecided(),
        result_offered(result_rx) == history[0].outcome(),
        ready_offered(ready_rx) == history[0].answer(),
        forall|i: int|
            0 <= i < history.len() - 1 ==> (#[trigger] history[i]).accepted_as(history[i + 1]),
        history.last().ended_by(ending),
    ensures
        ready_offered(ready_rx) == Some(ReadyResult::Ok(())) <==> history.len() > 1,
        forall|error: SlateDBError|
            ready_offered(ready_rx) == Some(ReadyResult::Err(error)) <==> history.len() == 1
                && ending == Ending::Failed(error),
        ready_offered(ready_rx) is None <==> history.len() == 1 && ending !is Failed,
        forall|created: CheckpointCreateResult|
            result_offered(result_rx) == Some(CheckpointResult::Ok(created)) <==> ending
                == Ending::Completed(created),
        forall|error: SlateDBError|
            result_offered(result_rx) == Some(CheckpointResult::Err(error)) <==> ending
                == Ending::Failed(error),
        result_offered(result_rx) is None <==> ending is Abandoned,
{
    lemma_accepting_keeps_the_outcome(history);
    if history.len() > 1 {
        assert(history[0].accepted_as(history[1]));
    }
}

/// Taking a request on any number of times keeps the end that is to come.
proof fn lemma_accepting_keeps_the_outcome(history: Seq<CheckpointLifecycle>)
    requires
        history.len() > 0,
        forall|i: int|
            0 <= i < history.len() - 1 ==> (#[trigger] history[i]).accepted_as(history[i + 1]),
    ensures
        history.last().outcome() == history[0].outcome(),
    decreases history.len(),
{
    if history.len() > 1 {
        let earlier = history.drop_last();
        assert forall|i: int| 0 <= i < earlier.len() - 1 implies (
        #[trigger] earlier[i]).accepted_as(earlier[i + 1]) by {
            assert(history[i].accepted_as(history[i + 1]));
        }
        lemma_accepting_keeps_the_outcome(earlier);
        assert(history[history.len() - 2].accepted_as(history[history.len() - 1]));
    }
}

/// The identifier of a handle is the same however long it is waited on.
pub proof fn law_id_is_constant(waited_on: Seq<CheckpointHandle>, i: int)
    requires
        0 <= i < waited_on.len(),
        forall|k: int|
            0 <= k < waited_on.len() - 1 ==> waited_on[k + 1].same_as(#[trigger] waited_on[k]),
    ensures
        waited_on[i].checkpoint_id() == waited_on[0].checkpoint_id(),
    decreases i,
{
    if i > 0 {
        law_id_is_constant(waited_on, i - 1);
        assert(waited_on[i - 1 + 1].same_as(waited_on[i - 1]));
    }
}

/// Whether each event is the one that beginning a checkpoint waits for.
pub open spec fn valid_run<W>(state: BeginState<W>, events: Seq<BeginEvent<W>>) -> bool
    decreases events.len(),
{
    events.len() > 0 ==> {
        &&& state.expects(events[0])
        &&& valid_run(state.next_step(events[0]).0, events.drop_first())
    }
}

/// The actions that the events of a run lead to, one for each.
pub open spec fn actions<W>(state: BeginState<W>, events: Seq<BeginEvent<W>>) -> Seq<BeginAction<W>>
    decreases events.len(),
{
    if events.len() == 0 {
        Seq::empty()
    } else {
        let (next, action) = state.next_step(events[0]);
        seq![action] + actions(next, events.drop_first())
    }
}

/// How many events a state can still wait for.
pub open spec fn events_ahead<W>(state: BeginState<W>) -> nat {
    match state {
        BeginState::AwaitingFlush { .. } => 3,
        BeginState::AwaitingId { .. } => 2,
        BeginState::AwaitingFlusher => 1,
        BeginState::Finished => 0,
    }
}

/// Beginning a checkpoint ends: every step brings it closer, and no run has
/// more events than its first state has ahead.
pub proof fn law_begin_ends<W>(state: BeginState<W>, events: Seq<BeginEvent<W>>)
    requires
        valid_run(state, events),
    ensures
        events.len() <= events_ahead(state),
        actions(state, events).len() == events.len(),
    decreases events.len(),
{
    if events.len() > 0 {
        law_begin_ends(state.next_step(events[0]).0, events.drop_first());
    }
}

/// The states that a run goes through and the actions it leads to, event by
/// event.
proof fn lemma_run_shape<W>(state: BeginState<W>, events: Seq<BeginEvent<W>>)
    requires
        valid_run(state, events),
    ensures
        events.len() <= events_ahead(state),
        actions(state, events).len() == events.len(),
        events.len() > 0 ==> {
            &&& state.expects(events[0])
            &&& actions(state, events)[0] == state.next_step(events[0]).1
        },
        events.len() > 1 ==> {
            let second = state.next_step(events[0]).0;
            &&& second.expects(events[1])
            &&& actions(state, events)[1] == second.next_step(events[1]).1
        },
        events.len() > 2 ==> {
            let third = state.next_step(events[0]).0.next_step(events[1]).0;
            &&& third.expects(events[2])
            &&& actions(state, events)[2] == third.next_step(events[2]).1
        },
{
    law_begin_ends(state, events);
    reveal_with_fuel(valid_run, 4);
    reveal_with_fuel(actions, 4);
}

/// What a checkpoint of `scope` captures: for all writes, what the frozen
/// memtable names, with the WAL flush to await; otherwise what was durable in
/// the database when the checkpoint began, with nothing to await.
pub open spec fn captured<W>(
    db: Db,
    scope: CheckpointScope,
    events: Seq<BeginEvent<W>>,
) -> Result<(CheckpointBoundary, Option<W>), SlateDBError> {
    match scope {
        CheckpointScope::All => match events[0] {
            BeginEvent::BatchWriterFlushed(Ok((wal_flush, Some(boundary)))) => {
                Ok((boundary, Some(wal_flush)))
            },
            BeginEvent::BatchWriterFlushed(Err(error)) => Err(error),
            _ => arbitrary(),
        },
        CheckpointScope::Durable => match durable_boundary(db) {
            Ok(boundary) => Ok((boundary, None)),
            Err(error) => Err(error),
        },
    }
}

/// The memtable flusher is asked for exactly the checkpoint that was captured:
/// with the options of the call, under the identifier that was just drawn. What
/// happens in the database later plays no part.
pub proof fn law_submission_is_what_was_captured<W>(
    db: Db,
    scope: CheckpointScope,
    options: CheckpointOptions,
    events: Seq<BeginEvent<W>>,
    i: int,
)
    requires
        valid_run(first_step::<W>(db, scope, options).0, events),
        0 <= i < events.len(),
        actions(first_step::<W>(db, scope, options).0, events)[i] is Submit,
    ensures
        ({
            let submitted = actions(first_step::<W>(db, scope, options).0, events)[i];
            &&& events[i] == BeginEvent::<W>::IdDrawn(submitted->id)
            &&& submitted->options == options
            &&& captured(db, scope, events) == Ok::<_, SlateDBError>(
                (submitted->boundary, submitted->wal_flush),
            )
        }),
{
    lemma_run_shape(first_step::<W>(db, scope, options).0, events);
}

/// A checkpoint is submitted at most once.
pub proof fn law_at_most_one_submission<W>(
    db: Db,
    scope: CheckpointScope,
    options: CheckpointOptions,
    events: Seq<BeginEvent<W>>,
    i: int,
    j: int,
)
    requires
        valid_run(first_step::<W>(db, scope, options).0, events),
        0 <= i < events.len(),
        0 <= j < events.len(),
        actions(first_step::<W>(db, scope, options).0, events)[i] is Submit,
        actions(first_step::<W>(db, scope, options).0, events)[j] is Submit,
    ensures
        i == j,
{
    lemma_run_shape(first_step::<W>(db, scope, options).0, events);
}

/// A checkpoint whose capture fails returns that error at once, and is never
/// submitted.
pub proof fn law_failed_capture_submits_nothing<W>(
    db: Db,
    scope: CheckpointScope,
    options: CheckpointOptions,
    events: Seq<BeginEvent<W>>,
    error: SlateDBError,
)
    requires
        valid_run(first_step::<W>(db, scope, options).0, events),
        scope is All ==> events.len() > 0,
        captured(db, scope, events) == Err::<(CheckpointBoundary, Option<W>), _>(error),
    ensures
        match scope {
            CheckpointScope::All => actions(first_step::<W>(db, scope, options).0, events)
                =~= seq![BeginAction::<W>::Return(Err(Error { cause: error }))],
            CheckpointScope::Durable => {
                &&& first_step::<W>(db, scope, options).1 == BeginAction::<W>::Return(
                    Err(Error { cause: error }),
                )
                &&& events.len() == 0
            },
        },
{
    lemma_run_shape(first_step::<W>(db, scope, options).0, events);
}

/// A checkpoint that was captured returns what the memtable flusher replies to
/// its submission, and nothing follows a return.
pub proof fn law_flusher_decides<W>(
    db: Db,
    scope: CheckpointScope,
    options: CheckpointOptions,
    events: Seq<BeginEvent<W>>,
    i: int,
)
    requires
        valid_run(first_step::<W>(db, scope, options).0, events),
        0 <= i < events.len(),
        captured(db, scope, events) is Ok,
        actions(first_step::<W>(db, scope, options).0, events)[i] is Return,
    ensures
        i == events.len() - 1,
        i > 0,
        actions(first_step::<W>(db, scope, options).0, events)[i - 1] is Submit,
        match events[i] {
            BeginEvent::FlusherReplied(Ok(handle)) => actions(
                first_step::<W>(db, scope, options).0,
                events,
            )[i] == BeginAction::<W>::Return(Ok(handle)),
            BeginEvent::FlusherReplied(Err(cause)) => actions(
                first_step::<W>(db, scope, options).0,
                events,
            )[i] == BeginAction::<W>::Return(Err(Error { cause })),
            _ => false,
        },
{
    lemma_run_shape(first_step::<W>(db, scope, options).0, events);
}

/// A checkpoint of all writes freezes the active memtable before anything else,
/// and no checkpoint flushes the batch writer at any other time.
pub proof fn law_freeze_comes_first<W>(
    db: Db,
    scope: CheckpointScope,
    options: CheckpointOptions,
    events: Seq<BeginEvent<W>>,
    i: int,
)
    requires
        valid_run(first_step::<W>(db, scope, options).0, events),
        0 <= i < events.len(),
    ensures
        scope is All <==> first_step::<W>(db, scope, options).1
            == (BeginAction::<W>::FlushBatchWriter { freeze_memtable: true }),
        actions(first_step::<W>(db, scope, options).0, events)[i] !is FlushBatchWriter,
{
    lemma_run_shape(first_step::<W>(db, scope, options).0, events);
}

/// A checkpoint keeps the identifier that was drawn for it, as far as the
/// memtable flusher keeps it: if the flusher replies with a handle of the
/// submitted identifier and the request is completed under it, then the handle
/// returned has that identifier, and so has the created checkpoint that a wait
/// on it ends in.
pub proof fn law_checkpoint_keeps_its_id<W>(
    db: Db,
    scope: CheckpointScope,
    options: CheckpointOptions,
    events: Seq<BeginEvent<W>>,
    i: int,
    handle: CheckpointHandle,
    completed: CheckpointCreateResult,
    created: CheckpointCreateResult,
)
    requires
        valid_run(first_step::<W>(db, scope, options).0, events),
        0 <= i < events.len() - 1,
        actions(first_step::<W>(db, scope, options).0, events)[i] is Submit,
        events[i + 1] == BeginEvent::<W>::FlusherReplied(Ok(handle)),
        handle.checkpoint_id() == actions(first_step::<W>(db, scope, options).0, events)[i]->id,
        handle.reported() == Some(CheckpointResult::Ok(completed)),
        completed.id == handle.checkpoint_id(),
        handle.shows_users(Ok(created)),
    ensures
        events[i] == BeginEvent::<W>::IdDrawn(handle.checkpoint_id()),
        actions(first_step::<W>(db, scope, options).0, events)[i + 1] == BeginAction::<W>::Return(
            Ok(handle),
        ),
        created.id == handle.checkpoint_id(),
{
    lemma_run_shape(first_step::<W>(db, scope, options).0, events);
}

/// A checkpoint that was begun ends, for the user who waits on its handle, as
/// its owner ends the request, however often the owner took it on before: with
/// the created checkpoint, with the very error that it failed with, or with an
/// unknown outcome.
pub proof fn law_begun_checkpoint_ends_as_its_request<W>(
    db: Db,
    scope: CheckpointScope,
    options: CheckpointOptions,
    events: Seq<BeginEvent<W>>,
    i: int,
    handle: CheckpointHandle,
    history: Seq<CheckpointLifecycle>,
    ending: Ending,
    for_user: Result<CheckpointCreateResult, Error>,
)
    requires
        valid_run(first_step::<W>(db, scope, options).0, events),
        0 <= i < events.len(),
        actions(first_step::<W>(db, scope, options).0, events)[i] == BeginAction::<W>::Return(
            Ok(handle),
        ),
        history.len() > 0,
        observes(handle, history[0]),
        forall|k: int|
            0 <= k < history.len() - 1 ==> (#[trigger] history[k]).accepted_as(history[k + 1]),
        history.last().ended_by(ending),
        handle.shows_users(for_user),
    ensures
        events[i] == BeginEvent::<W>::FlusherReplied(Ok(handle)),
        match ending {
            Ending::Completed(created) => for_user == Ok::<_, Error>(created),
            Ending::Failed(cause) => for_user == Err::<CheckpointCreateResult, _>(Error { cause }),
            Ending::Abandoned => for_user == Err::<CheckpointCreateResult, _>(
                Error { cause: SlateDBError::CheckpointOutcomeUnknown(handle.checkpoint_id()) },
            ),
        },
{
    lemma_run_shape(first_step::<W>(db, scope, options).0, events);
    lemma_accepting_keeps_the_outcome(history);
}

/// A durable checkpoint reaches no further than the last WAL file that had an
/// id when it began, and bounds no sequence numbers.
pub proof fn law_durable_boundary_is_behind_the_wal(db: Db, boundary: CheckpointBoundary)
    requires
        durable_boundary(db) == Ok::<_, SlateDBError>(boundary),
    ensures
        boundary.through_seq is None,
        boundary.wal_id_last_seen is Some <==> db.wal_enabled,
        boundary.wal_id_last_seen matches Some(last) ==> last + 1 == db.next_wal_sst_id,
{
}

/// The durable boundary can be told exactly unless there is a WAL that was never
/// given a file: with a WAL it is the id before the next one, without a WAL there
/// is no such id, and sequence numbers are never bounded.
pub proof fn law_durable_boundary_fails_only_before_the_first_wal_file(db: Db)
    ensures
        db.wal_enabled && db.next_wal_sst_id == 0 ==> durable_boundary(db) == Err::<
            CheckpointBoundary,
            _,
        >(SlateDBError::InvalidDBState),
        db.wal_enabled && db.next_wal_sst_id > 0 ==> (durable_boundary(db) matches Ok(boundary)
            && boundary.through_seq is None && boundary.wal_id_last_seen == Some(
            (db.next_wal_sst_id - 1) as u64,
        )),
        !db.wal_enabled ==> (durable_boundary(db) matches Ok(boundary)
            && boundary.through_seq is None && boundary.wal_id_last_seen is None),
{
}

/// The next WAL file moves the durable boundary by one file, and without a WAL
/// the boundary does not depend on the files at all.
pub proof fn law_durable_boundary_follows_the_wal(db: Db, next: Db)
    requires
        next.wal_enabled == db.wal_enabled,
        next.next_wal_sst_id == db.next_wal_sst_id + 1,
    ensures
        !db.wal_enabled ==> durable_boundary(next) == durable_boundary(db),
        db.wal_enabled ==> (durable_boundary(next) matches Ok(boundary)
            && boundary.wal_id_last_seen == Some(db.next_wal_sst_id)),
        db.wal_enabled && db.next_wal_sst_id > 0 ==> (durable_boundary(db) matches Ok(earlier)
            && durable_boundary(next) matches Ok(later) && earlier.wal_id_last_seen matches Some(e)
            && later.wal_id_last_seen matches Some(l) && l == e + 1),
{
}

/// A checkpoint of all writes is never refused before the freeze: whatever the
/// database and the options, it asks for a freezing flush and keeps the options.
pub proof fn law_all_writes_start_with_a_freeze<W>(db: Db, options: CheckpointOptions)
    ensures
        first_step::<W>(db, CheckpointScope::All, options) == (
            BeginState::<W>::AwaitingFlush { options },
            BeginAction::<W>::FlushBatchWriter { freeze_memtable: true },
        ),
{
}

/// A durable checkpoint fails at once exactly if there is a WAL that was never
/// given a file. Otherwise it keeps the last WAL file, the options and no WAL
/// flush, and asks for an identifier.
pub proof fn law_durable_starts_with_its_boundary<W>(db: Db, options: CheckpointOptions)
    ensures
        db.wal_enabled && db.next_wal_sst_id == 0 ==> first_step::<W>(
            db,
            CheckpointScope::Durable,
            options,
        ) == (
            BeginState::<W>::Finished,
            BeginAction::<W>::Return(Err(Error { cause: SlateDBError::InvalidDBState })),
        ),
        !(db.wal_enabled && db.next_wal_sst_id == 0) ==> first_step::<W>(
            db,
            CheckpointScope::Durable,
            options,
        ) == (
            BeginState::<W>::AwaitingId {
                boundary: CheckpointBoundary {
                    through_seq: None,
                    wal_id_last_seen: if db.wal_enabled {
                        Some((db.next_wal_sst_id - 1) as u64)
                    } else {
                        None
                    },
                },
                wal_flush: None,
                options,
            },
            BeginAction::<W>::DrawId,
        ),
{
}

/// Every boundary that a freeze names is kept as it is, with its WAL flush and
/// the options, until an identifier is drawn.
pub proof fn law_freeze_is_kept<W>(
    options: CheckpointOptions,
    wal_flush: W,
    boundary: CheckpointBoundary,
)
    ensures
        (BeginState::<W>::AwaitingFlush { options }).next_step(
            BeginEvent::BatchWriterFlushed(Ok((wal_flush, Some(boundary)))),
        ) == (
            BeginState::<W>::AwaitingId { boundary, wal_flush: Some(wal_flush), options },
            BeginAction::<W>::DrawId,
        ),
{
}

/// Every error of the freeze is returned as it is.
pub proof fn law_failed_freeze_is_returned<W>(options: CheckpointOptions, cause: SlateDBError)
    ensures
        (BeginState::<W>::AwaitingFlush { options }).next_step(
            BeginEvent::BatchWriterFlushed(Err(cause)),
        ) == (BeginState::<W>::Finished, BeginAction::<W>::Return(Err(Error { cause }))),
{
}

/// What was captured is submitted as soon as an identifier is drawn, under that
/// identifier, whatever it is.
pub proof fn law_drawn_id_is_submitted<W>(
    boundary: CheckpointBoundary,
    wal_flush: Option<W>,
    options: CheckpointOptions,
    id: Uuid,
)
    ensures
        (BeginState::<W>::AwaitingId { boundary, wal_flush, options }).next_step(
            BeginEvent::IdDrawn(id),
        ) == (
            BeginState::<W>::AwaitingFlusher,
            BeginAction::<W>::Submit { id, boundary, options, wal_flush },
        ),
{
}

/// The memtable flusher's handle is returned as it is, and so is its refusal.
pub proof fn law_reply_is_returned<W>(handle: CheckpointHandle, cause: SlateDBError)
    ensures
        BeginState::<W>::AwaitingFlusher.next_step(BeginEvent::FlusherReplied(Ok(handle))) == (
            BeginState::<W>::Finished,
            BeginAction::<W>::Return(Ok(handle)),
        ),
        BeginState::<W>::AwaitingFlusher.next_step(BeginEvent::FlusherReplied(Err(cause))) == (
            BeginState::<W>::Finished,
            BeginAction::<W>::Return(Err(Error { cause })),
        ),
{
}

/// Each state expects every event of its own kind and no other. The one event
/// left out is a freeze that names no boundary.
pub proof fn law_states_expect_their_events<W>(state: BeginState<W>, event: BeginEvent<W>)
    ensures
        state.expects(event) <==> match event {
            BeginEvent::BatchWriterFlushed(Ok((_, boundary))) => {
                state is AwaitingFlush && boundary is Some
            },
            BeginEvent::BatchWriterFlushed(Err(_)) => state is AwaitingFlush,
            BeginEvent::IdDrawn(_) => state is AwaitingId,
            BeginEvent::FlusherReplied(_) => state is AwaitingFlusher,
        },
{
}

/// No step stops short: an action asks for an event that the next state expects,
/// and only a return leaves nothing to expect.
pub open spec fn awaits_its_action<W>(step: (BeginState<W>, BeginAction<W>)) -> bool {
    match step.1 {
        BeginAction::FlushBatchWriter { .. } => step.0 is AwaitingFlush,
        BeginAction::DrawId => step.0 is AwaitingId,
        BeginAction::Submit { .. } => step.0 is AwaitingFlusher,
        BeginAction::Return(_) => step.0 is Finished,
    }
}

/// A run never stops before it returns: from its first step on, every step awaits
/// what its action ends in.
pub proof fn law_run_goes_on_until_it_returns<W>(
    db: Db,
    scope: CheckpointScope,
    options: CheckpointOptions,
    state: BeginState<W>,
    event: BeginEvent<W>,
)
    requires
        state.expects(event),
    ensures
        awaits_its_action(first_step::<W>(db, scope, options)),
        awaits_its_action(state.next_step(event)),
{
}

/// In a run, every identifier that is drawn is submitted with what was captured
/// and the options of the call.
pub proof fn law_every_drawn_id_is_submitted<W>(
    db: Db,
    scope: CheckpointScope,
    options: CheckpointOptions,
    events: Seq<BeginEvent<W>>,
    i: int,
    id: Uuid,
)
    requires
        valid_run(first_step::<W>(db, scope, options).0, events),
        0 <= i < events.len(),
        events[i] == BeginEvent::<W>::IdDrawn(id),
    ensures
        captured(db, scope, events) is Ok,
        actions(first_step::<W>(db, scope, options).0, events)[i] == (BeginAction::<W>::Submit {
            id,
            boundary: captured(db, scope, events)->Ok_0.0,
            options,
            wal_flush: captured(db, scope, events)->Ok_0.1,
        }),
{
    lemma_run_shape(first_step::<W>(db, scope, options).0, events);
}

/// The whole run of a checkpoint of all writes, for every freeze that names a
/// boundary: the boundary and the WAL flush of that freeze are submitted with the
/// options of the call under the drawn identifier, and the flusher's handle is
/// returned.
pub proof fn law_all_writes_run_to_the_handle<W>(
    db: Db,
    options: CheckpointOptions,
    wal_flush: W,
    boundary: CheckpointBoundary,
    id: Uuid,
    handle: CheckpointHandle,
)
    ensures
        ({
            let first = first_step::<W>(db, CheckpointScope::All, options);
            let events = seq![
                BeginEvent::<W>::BatchWriterFlushed(Ok((wal_flush, Some(boundary)))),
                BeginEvent::<W>::IdDrawn(id),
                BeginEvent::<W>::FlusherReplied(Ok(handle)),
            ];
            &&& first.1 == (BeginAction::<W>::FlushBatchWriter { freeze_memtable: true })
            &&& valid_run(first.0, events)
            &&& actions(first.0, events) =~= seq![
                BeginAction::<W>::DrawId,
                BeginAction::<W>::Submit { id, boundary, options, wal_flush: Some(wal_flush) },
                BeginAction::<W>::Return(Ok(handle)),
            ]
        }),
{
    let state = first_step::<W>(db, CheckpointScope::All, options).0;
    let events = seq![
        BeginEvent::<W>::BatchWriterFlushed(Ok((wal_flush, Some(boundary)))),
        BeginEvent::<W>::IdDrawn(id),
        BeginEvent::<W>::FlusherReplied(Ok(handle)),
    ];
    reveal_with_fuel(valid_run, 4);
    lemma_run_shape(state, events);
}

/// The whole run of a durable checkpoint, for every database whose WAL is off or
/// was given a file: the last WAL file is submitted with the options of the call
/// under the drawn identifier, without a WAL flush, and the flusher's handle is
/// returned.
pub proof fn law_durable_runs_to_the_handle<W>(
    db: Db,
    options: CheckpointOptions,
    id: Uuid,
    handle: CheckpointHandle,
)
    requires
        db.wal_enabled ==> db.next_wal_sst_id > 0,
    ensures
        ({
            let first = first_step::<W>(db, CheckpointScope::Durable, options);
            let events = seq![
                BeginEvent::<W>::IdDrawn(id),
                BeginEvent::<W>::FlusherReplied(Ok(handle)),
            ];
            let last_wal = if db.wal_enabled {
                Some((db.next_wal_sst_id - 1) as u64)
            } else {
                None
            };
            &&& first.1 == BeginAction::<W>::DrawId
            &&& valid_run(first.0, events)
            &&& actions(first.0, events) =~= seq![
                BeginAction::<W>::Submit {
                    id,
                    boundary: CheckpointBoundary { through_seq: None, wal_id_last_seen: last_wal },
                    options,
                    wal_flush: None,
                },
                BeginAction::<W>::Return(Ok(handle)),
            ]
        }),
{
    let state = first_step::<W>(db, CheckpointScope::Durable, options).0;
    let events = seq![
        BeginEvent::<W>::IdDrawn(id),
        BeginEvent::<W>::FlusherReplied(Ok(handle)),
    ];
    reveal_with_fuel(valid_run, 4);
    lemma_run_shape(state, events);
}

/// Creating a checkpoint takes the steps of beginning it until there is a handle
/// or an error, then waits on that very handle, or returns that very error.
pub proof fn law_create_takes_every_step<W>(
    state: BeginState<W>,
    action: BeginAction<W>,
    handle: CheckpointHandle,
    error: Error,
)
    ensures
        action !is Return ==> create_step((state, action)) == (
            CreateState::<W>::Beginning(state),
            CreateAction::<W>::Begin(action),
        ),
        create_step((state, BeginAction::<W>::Return(Ok(handle)))) == (
            CreateState::<W>::Waiting(handle),
            CreateAction::<W>::Wait,
        ),
        create_step((state, BeginAction::<W>::Return(Err(error)))) == (
            CreateState::<W>::Finished,
            CreateAction::<W>::Return(Err(error)),
        ),
{
}

/// Creating a checkpoint is beginning it and then waiting on its handle: an
/// error of beginning it is returned as it is, nothing is returned before the
/// handle has shown it, and every other action of beginning it is carried out.
pub proof fn law_create_is_begin_then_wait<W>(step: (BeginState<W>, BeginAction<W>))
    ensures
        match create_step(step) {
            (CreateState::Beginning(state), CreateAction::Begin(action)) => {
                step == (state, action) && action !is Return
            },
            (CreateState::Waiting(handle), CreateAction::Wait) => {
                step.1 == BeginAction::<W>::Return(Ok(handle))
            },
            (CreateState::Finished, CreateAction::Return(result)) => {
                result matches Err(error) && step.1 == BeginAction::<W>::Return(Err(error))
            },
            _ => false,
        },
{
}

/// What users read: an unknown outcome names its checkpoint, an invalid state
/// reads as a data error, and every other error reads as its message.
pub proof fn law_error_texts(id: Uuid, message: String)
    ensures
        error_text(SlateDBError::CheckpointOutcomeUnknown(id))
            == "checkpoint outcome is unknown. checkpoint_id=`"@ + hyphenated(uuid_number(id))
            + "`"@,
        error_text(SlateDBError::InvalidDBState) == "Data error: invalid DB state error"@,
        error_text(SlateDBError::Other(message)) == message@,
{
}

/// The text of an identifier has its five hyphenated groups of lower-case
/// hexadecimal digits.
pub proof fn law_identifier_text_shape(n: u128, i: int)
    requires
        0 <= i < 36,
    ensures
        hyphenated(n).len() == 36,
        hyphenated(n)[i] == '-' <==> (i == 8 || i == 13 || i == 18 || i == 23),
        hyphenated(n)[i] != '-' ==> ('0' <= hyphenated(n)[i] <= '9' || 'a' <= hyphenated(n)[i]
            <= 'f'),
{
}

/// Different identifiers have different texts.
pub proof fn law_identifier_texts_differ(a: u128, b: u128)
    requires
        hyphenated(a) == hyphenated(b),
    ensures
        a == b,
{
    assert forall|k: nat| k < 32 implies #[trigger] hex_place(a, k) == hex_place(b, k) by {
        let d = 31 - k;
        let i = if d < 8 {
            d
        } else if d < 12 {
            d + 1
        } else if d < 16 {
            d + 2
        } else if d < 20 {
            d + 3
        } else {
            d + 4
        };
        assert(!is_hyphen_position(i) && digits_before(i) == d);
        assert(hyphenated(a)[i] == hex_digit(hex_place(a, k)));
        assert(hyphenated(b)[i] == hex_digit(hex_place(b, k)));
    }
    lemma_places_determine_the_number(a, b, 0);
    vstd::arithmetic::power::lemma_pow0(16);
}

/// The hexadecimal digit of `n` at place `k`, counted from the least significant.
spec fn hex_place(n: u128, k: nat) -> int {
    n as int / pow(16, k) % 16
}

/// Numbers that agree at every place from `k` on agree without the places below.
proof fn lemma_places_determine_the_number(a: u128, b: u128, k: nat)
    requires
        k <= 32,
        forall|j: nat| j < 32 ==> #[trigger] hex_place(a, j) == hex_place(b, j),
    ensures
        a as int / pow(16, k) == b as int / pow(16, k),
    decreases 32 - k,
{
    vstd::arithmetic::power::lemma_pow_positive(16, k);
    if k == 32 {
        assert(pow(16, 32) == 0x1_0000_0000_0000_0000_0000_0000_0000_0000int) by {
            reveal(pow);
            reveal_with_fuel(pow, 33);
        }
        vstd::arithmetic::div_mod::lemma_basic_div(a as int, pow(16, 32));
        vstd::arithmetic::div_mod::lemma_basic_div(b as int, pow(16, 32));
    } else {
        lemma_places_determine_the_number(a, b, k + 1);
        vstd::arithmetic::power::lemma_pow_adds(16, k, 1);
        vstd::arithmetic::power::lemma_pow1(16);
        vstd::arithmetic::div_mod::lemma_div_denominator(a as int, pow(16, k), 16);
        vstd::arithmetic::div_mod::lemma_div_denominator(b as int, pow(16, k), 16);
        assert(hex_place(a, k) == hex_place(b, k));
    }
}

/// Two unknown outcomes read the same only if they are of checkpoints with the
/// same identifier number.
pub proof fn law_unknown_outcomes_tell_checkpoints_apart(a: Uuid, b: Uuid)
    requires
        error_text(SlateDBError::CheckpointOutcomeUnknown(a)) == error_text(
            SlateDBError::CheckpointOutcomeUnknown(b),
        ),
    ensures
        uuid_number(a) == uuid_number(b),
{
    let before = "checkpoint outcome is unknown. checkpoint_id=`"@;
    let text_a = hyphenated(uuid_number(a));
    let text_b = hyphenated(uuid_number(b));
    let whole_a = before + text_a + "`"@;
    let whole_b = before + text_b + "`"@;
    assert(whole_a == whole_b);
    assert forall|i: int| 0 <= i < 36 implies text_a[i] == text_b[i] by {
        assert(whole_a[before.len() + i] == text_a[i]);
        assert(whole_b[before.len() + i] == text_b[i]);
    }
    assert(text_a =~= text_b);
    law_identifier_texts_differ(uuid_number(a), uuid_number(b));
}

} // verus!
