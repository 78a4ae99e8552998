//! The two channels of a checkpoint request, over tokio's `oneshot`.
//!
//! A sender is consumed by `send` and cannot be copied, so over the whole life
//! of a channel at most one value is handed to it. Which value that is, if any,
//! belongs to the channel, and the names below give it for either end. It is
//! learned when the value is sent, when the sender is dropped, or when the
//! receiver yields its outcome.

use crate::checkpoint::{CheckpointResult, ReadyResult};
use std::future::Future;
use std::pin::Pin;
use std::task::{Context, Poll};
use tokio::sync::oneshot::error::RecvError;
use tokio::sync::oneshot::{channel, Receiver, Sender};
use vstd::prelude::*;

verus! {

/// `tokio::sync::oneshot::Sender`, the sending end of a channel.
#[verifier::external_type_specification]
#[verifier::external_body]
#[verifier::reject_recursive_types(T)]
pub struct ExSender<T>(Sender<T>);

/// `tokio::sync::oneshot::Receiver`, the receiving end of a channel.
#[verifier::external_type_specification]
#[verifier::external_body]
#[verifier::reject_recursive_types(T)]
pub struct ExReceiver<T>(Receiver<T>);

/// `tokio::sync::oneshot::error::RecvError`, what a receiver yields when no
/// value will come.
#[verifier::external_type_specification]
#[verifier::external_body]
pub struct ExRecvError(RecvError);

/// `std::task::Context`, which tells a pending receiver whom to wake.
#[verifier::external_type_specification]
#[verifier::external_body]
pub struct ExContext<'a>(Context<'a>);

/// The result that is handed to `send` on this sender, if any ever is.
pub uninterp spec fn result_sent(tx: Sender<CheckpointResult>) -> Option<CheckpointResult>;

/// The result that is handed to `send` on the sender of this receiver's
/// channel, if any ever is.
pub uninterp spec fn result_offered(rx: Receiver<CheckpointResult>) -> Option<CheckpointResult>;

/// The result that this receiver yields when it is polled to its end: `None`
/// stands for a `RecvError`.
pub uninterp spec fn result_received(rx: Receiver<CheckpointResult>) -> Option<CheckpointResult>;

/// Whether this receiver has called `close`, after which `send` fails.
pub uninterp spec fn result_closed(rx: Receiver<CheckpointResult>) -> bool;

/// What `Receiver::is_terminated` returns: whether this receiver has yielded its
/// outcome, so that polling it again would panic.
pub uninterp spec fn result_terminated(rx: Receiver<CheckpointResult>) -> bool;

/// Whether the last poll of this receiver was pending and was given `cx` to
/// wake.
pub uninterp spec fn result_wakes(rx: Receiver<CheckpointResult>, cx: Context<'_>) -> bool;

/// The answer that is handed to `send` on this sender, if any ever is.
pub uninterp spec fn ready_sent(tx: Sender<ReadyResult>) -> Option<ReadyResult>;

/// The answer that is handed to `send` on the sender of this receiver's
/// channel, if any ever is.
pub uninterp spec fn ready_offered(rx: Receiver<ReadyResult>) -> Option<ReadyResult>;

/// Calls `tokio::sync::oneshot::channel` for a result. The contract claims
/// that the two ends belong to one channel, and that the receiver is new:
/// neither closed nor terminated.
#[verifier::external_body]
pub(crate) fn result_channel() -> (ends: (Sender<CheckpointResult>, Receiver<CheckpointResult>))
    ensures
        result_offered(ends.1) == result_sent(ends.0),
        !result_closed(ends.1),
        !result_terminated(ends.1),
{
    channel()
}

/// Calls `tokio::sync::oneshot::channel` for a readiness answer. The contract
/// claims that the two ends belong to one channel.
#[verifier::external_body]
pub(crate) fn ready_channel() -> (ends: (Sender<ReadyResult>, Receiver<ReadyResult>))
    ensures
        ready_offered(ends.1) == ready_sent(ends.0),
{
    channel()
}

/// Calls `Sender::send` with a result. The contract claims that this result is
/// the one value handed to the sender, and that `send` gives it back when the
/// receiver is gone.
#[verifier::external_body]
pub(crate) fn send_result(tx: Sender<CheckpointResult>, result: CheckpointResult) -> (sent: Result<
    (),
    CheckpointResult,
>)
    ensures
        match sent {
            Ok(()) => result_sent(tx) == Some(result),
            Err(returned) => returned == result && result_sent(tx) == Some(result),
        },
{
    tx.send(result)
}

/// Calls `Sender::send` with a readiness answer. The contract claims that this
/// answer is the one value handed to the sender, and that `send` gives it back
/// when the receiver is gone.
#[verifier::external_body]
pub(crate) fn send_ready(tx: Sender<ReadyResult>, ready: ReadyResult) -> (sent: Result<
    (),
    ReadyResult,
>)
    ensures
        match sent {
            Ok(()) => ready_sent(tx) == Some(ready),
            Err(returned) => returned == ready && ready_sent(tx) == Some(ready),
        },
{
    tx.send(ready)
}

/// Drops the sender in `slot`, if there is one, which runs `Sender`'s `Drop`.
/// The contract claims that a dropped sender is never handed a value.
#[verifier::external_body]
pub(crate) fn drop_result(slot: &mut Option<Sender<CheckpointResult>>)
    ensures
        match *old(slot) {
            Some(tx) => *final(slot) is None && result_sent(tx) is None,
            None => *final(slot) is None,
        },
{
    drop(slot.take())
}

/// Drops the sender in `slot`, if there is one, which runs `Sender`'s `Drop`.
/// The contract claims that a dropped sender is never handed a value.
#[verifier::external_body]
pub(crate) fn drop_ready(slot: &mut Option<Sender<ReadyResult>>)
    ensures
        match *old(slot) {
            Some(tx) => *final(slot) is None && ready_sent(tx) is None,
            None => *final(slot) is None,
        },
{
    drop(slot.take())
}

/// Calls `Receiver::is_terminated`.
#[verifier::external_body]
pub(crate) fn is_result_terminated(rx: &Receiver<CheckpointResult>) -> (terminated: bool)
    ensures
        terminated == result_terminated(*rx),
{
    rx.is_terminated()
}

/// Calls `Future::poll` on the receiver: `None` while it is pending, then
/// `Some` of the value, or of `None` for a `RecvError`. The contract claims
/// that a value received is the one that was handed to the sender, that an
/// open receiver gets a `RecvError` only if none ever is, that the outcome
/// terminates the receiver, and that a pending receiver stays what it was and
/// was given `cx` to wake: its waker is registered with the channel, or, where
/// the task has used up its budget, with the runtime. A terminated receiver
/// panics when it is polled.
#[verifier::external_body]
pub(crate) fn poll_result(
    rx: &mut Receiver<CheckpointResult>,
    cx: &mut Context<'_>,
) -> (polled: Option<Option<CheckpointResult>>)
    requires
        !result_terminated(*old(rx)),
    ensures
        match polled {
            None => {
                &&& !result_terminated(*final(rx))
                &&& result_closed(*final(rx)) == result_closed(*old(rx))
                &&& result_offered(*final(rx)) == result_offered(*old(rx))
                &&& result_received(*final(rx)) == result_received(*old(rx))
                &&& result_wakes(*final(rx), *old(cx))
            },
            Some(received) => {
                &&& result_terminated(*final(rx))
                &&& received == result_received(*old(rx))
                &&& received is Some ==> received == result_offered(*old(rx))
                &&& !result_closed(*old(rx)) ==> received == result_offered(*old(rx))
            },
        },
{
    match Pin::new(rx).poll(cx) {
        Poll::Pending => None,
        Poll::Ready(Ok(result)) => Some(Some(result)),
        Poll::Ready(Err(_)) => Some(None),
    }
}

} // verus!
