//! The sending halves of multi-producer channels as sinks.

use vstd::prelude::*;
use core::task::Context;
use futures_channel::mpsc::{Sender, UnboundedSender};
use crate::poll::Poll;
use crate::sink::Sink;

verus! {

/// `core::task::Context`: the bundle around the wake capability of one poll
/// call. It is carried through to the channel and never looked into.
#[verifier::external_type_specification]
#[verifier::external_body]
pub struct ExContext<'a>(core::task::Context<'a>);

/// `futures_channel::mpsc::Sender`: the sending half of a bounded channel.
#[verifier::external_type_specification]
#[verifier::external_body]
#[verifier::reject_recursive_types(T)]
pub struct ExSender<T>(futures_channel::mpsc::Sender<T>);

/// `futures_channel::mpsc::UnboundedSender`: the sending half of an
/// unbounded channel.
#[verifier::external_type_specification]
#[verifier::external_body]
#[verifier::reject_recursive_types(T)]
pub struct ExUnboundedSender<T>(futures_channel::mpsc::UnboundedSender<T>);

/// `futures_channel::mpsc::SendError`: the channel's reason for not taking
/// an item.
#[verifier::external_type_specification]
#[verifier::external_body]
pub struct ExSendError(futures_channel::mpsc::SendError);

/// Why a channel did not take an item.
#[derive(Debug, Clone, Copy, PartialEq, Eq)]
pub enum SendFailure {
    /// The channel has no room.
    Full,
    /// The receiving half is gone.
    Disconnected,
}

impl SendFailure {
    /// Whether the channel had no room.
    pub fn is_full(&self) -> (r: bool)
        ensures
            r == (*self is Full),
    {
        match self {
            SendFailure::Full => true,
            SendFailure::Disconnected => false,
        }
    }

    /// Whether the receiving half is gone.
    pub fn is_disconnected(&self) -> (r: bool)
        ensures
            r == (*self is Disconnected),
    {
        match self {
            SendFailure::Full => false,
            SendFailure::Disconnected => true,
        }
    }
}

/// `futures_channel::mpsc::SendError::is_disconnected`: whether the error
/// tells of a receiver that is gone. Nothing is claimed of the answer.
#[verifier::external_body]
fn error_is_disconnected(e: &futures_channel::mpsc::SendError) -> (r: bool) {
    e.is_disconnected()
}

/// `futures_channel::mpsc::Sender::poll_ready`: asks the bounded channel for
/// room, the reason of a refusal told by `SendError::is_disconnected`.
/// Whether there is room depends on the channel. What is claimed is what the
/// crate documents of every answer: the only refusal is that the receiver
/// is gone.
#[verifier::external_body]
fn sender_poll_ready<T>(sender: &mut Sender<T>, cx: &mut Context<'_>) -> (r: Poll<
    Result<(), SendFailure>,
>)
    ensures
        r matches Poll::Ready(Err(reason)) ==> reason is Disconnected,
{
    match sender.poll_ready(cx) {
        core::task::Poll::Ready(Ok(())) => Poll::Ready(Ok(())),
        core::task::Poll::Ready(Err(e)) if e.is_disconnected() => Poll::Ready(
            Err(SendFailure::Disconnected),
        ),
        core::task::Poll::Ready(Err(_)) => Poll::Ready(Err(SendFailure::Full)),
        core::task::Poll::Pending => Poll::Pending,
    }
}

/// `futures_channel::mpsc::Sender::start_send`: offers `msg` to the bounded
/// channel. Whether it is taken depends on the channel, and it may be
/// refused for either reason: the error is handed out as it is and nothing
/// is claimed of the answer.
#[verifier::external_body]
fn sender_start_send<T>(sender: &mut Sender<T>, msg: T) -> (r: Result<
    (),
    futures_channel::mpsc::SendError,
>) {
    sender.start_send(msg)
}

/// `futures_channel::mpsc::Sender::disconnect`: lets go of the channel.
#[verifier::external_body]
fn sender_disconnect<T>(sender: &mut Sender<T>) {
    sender.disconnect()
}

/// `futures_channel::mpsc::UnboundedSender::poll_ready`: asks whether the
/// unbounded channel still takes items, the reason of a refusal told by
/// `SendError::is_disconnected`. Whether it does depends on the channel.
/// What is claimed is what the crate's source shows of every answer: it
/// comes at once, and the only refusal is that the receiver is gone.
#[verifier::external_body]
fn unbounded_poll_ready<T>(sender: &UnboundedSender<T>, cx: &mut Context<'_>) -> (r: Poll<
    Result<(), SendFailure>,
>)
    ensures
        r is Ready,
        r matches Poll::Ready(Err(reason)) ==> reason is Disconnected,
{
    match sender.poll_ready(cx) {
        core::task::Poll::Ready(Ok(())) => Poll::Ready(Ok(())),
        core::task::Poll::Ready(Err(e)) if e.is_disconnected() => Poll::Ready(
            Err(SendFailure::Disconnected),
        ),
        core::task::Poll::Ready(Err(_)) => Poll::Ready(Err(SendFailure::Full)),
        core::task::Poll::Pending => Poll::Pending,
    }
}

/// `futures_channel::mpsc::UnboundedSender::start_send`: offers `msg` to the
/// unbounded channel, the reason of a refusal told by
/// `SendError::is_disconnected`. Whether it is taken depends on the channel.
/// What is claimed is what the crate's source shows of every answer: the
/// only refusal is that the receiver is gone.
#[verifier::external_body]
fn unbounded_start_send<T>(sender: &mut UnboundedSender<T>, msg: T) -> (r: Result<
    (),
    SendFailure,
>)
    ensures
        r matches Err(reason) ==> reason is Disconnected,
{
    match sender.start_send(msg) {
        Ok(()) => Ok(()),
        Err(e) if e.is_disconnected() => Err(SendFailure::Disconnected),
        Err(_) => Err(SendFailure::Full),
    }
}

/// `futures_channel::mpsc::UnboundedSender::unbounded_send`: offers `msg`
/// through a shared handle. The message that comes back with a refusal is
/// dropped by `TrySendError::into_send_error`, and the reason is told by
/// `SendError::is_disconnected`. Whether the message is taken depends on the
/// channel. What is claimed is what the crate's source shows of every
/// answer: the only refusal is that the receiver is gone.
#[verifier::external_body]
fn unbounded_send<T>(sender: &UnboundedSender<T>, msg: T) -> (r: Result<(), SendFailure>)
    ensures
        r matches Err(reason) ==> reason is Disconnected,
{
    match sender.unbounded_send(msg) {
        Ok(()) => Ok(()),
        Err(e) => {
            let reason = e.into_send_error();
            Err(if reason.is_disconnected() { SendFailure::Disconnected } else { SendFailure::Full })
        },
    }
}

/// `futures_channel::mpsc::UnboundedSender::disconnect`: lets go of the
/// channel.
#[verifier::external_body]
fn unbounded_disconnect<T>(sender: &mut UnboundedSender<T>) {
    sender.disconnect()
}

/// `futures_channel::mpsc::UnboundedSender::close_channel`: closes the
/// channel for every sender, through a shared handle.
#[verifier::external_body]
fn unbounded_close_channel<T>(sender: &UnboundedSender<T>) {
    sender.close_channel()
}

/// The reason that stands for a channel's error, given whether the error
/// tells of a receiver that is gone: a channel knows no reason but that one
/// and having no room.
pub open spec fn reason_of(disconnected: bool) -> SendFailure {
    if disconnected {
        SendFailure::Disconnected
    } else {
        SendFailure::Full
    }
}

/// Decides the reason that stands for a channel's error from what the error
/// answered when asked whether the receiver is gone.
pub fn failure_for(disconnected: bool) -> (r: SendFailure)
    ensures
        r == reason_of(disconnected),
{
    if disconnected {
        SendFailure::Disconnected
    } else {
        SendFailure::Full
    }
}

/// The library's error for a channel's own.
fn own_error(e: futures_channel::mpsc::SendError) -> (r: SendFailure) {
    failure_for(error_is_disconnected(&e))
}

/// The result of a send with its error replaced by the library's.
fn own_result(sent: Result<(), futures_channel::mpsc::SendError>) -> (r: Result<(), SendFailure>)
    ensures
        sent is Ok <==> r is Ok,
{
    match sent {
        Ok(()) => Ok(()),
        Err(e) => Err(own_error(e)),
    }
}

/// What flushing reports, given what the channel answered when asked for
/// room: a receiver that is gone counts as flushed, anything else is passed
/// on.
pub open spec fn flushed(ready: Poll<Result<(), SendFailure>>) -> Poll<Result<(), SendFailure>> {
    match ready {
        Poll::Ready(Err(SendFailure::Disconnected)) => Poll::Ready(Ok(())),
        other => other,
    }
}

/// Decides what flushing a bounded sender reports from the channel's answer
/// to being asked for room.
pub fn flush_outcome(ready: Poll<Result<(), SendFailure>>) -> (r: Poll<Result<(), SendFailure>>)
    ensures
        r == flushed(ready),
{
    match ready {
        Poll::Ready(Err(SendFailure::Disconnected)) => Poll::Ready(Ok(())),
        other => other,
    }
}

impl<T> Sink<T> for Sender<T> {
    type SinkError = SendFailure;

    /// Whether there is room the channel decides. The only failure is a
    /// receiver that is gone.
    open spec fn ready_step(before: Self, after: Self, r: Poll<Result<(), SendFailure>>) -> bool {
        r matches Poll::Ready(Err(reason)) ==> reason is Disconnected
    }

    /// The channel decides; nothing is promised.
    open spec fn send_step(before: Self, item: T, after: Self, r: Result<(), SendFailure>) -> bool {
        true
    }

    /// Flushing never fails: it is suspended while the channel has no room,
    /// and done else, also where the receiver is gone.
    open spec fn flush_step(before: Self, after: Self, r: Poll<Result<(), SendFailure>>) -> bool {
        r is Pending || r matches Poll::Ready(Ok(_))
    }

    /// Closing succeeds at once.
    open spec fn close_step(before: Self, after: Self, r: Poll<Result<(), SendFailure>>) -> bool {
        r == Poll::<Result<(), SendFailure>>::Ready(Ok(()))
    }

    fn poll_ready(&mut self, cx: &mut Context<'_>) -> (r: Poll<Result<(), SendFailure>>) {
        sender_poll_ready(self, cx)
    }

    fn start_send(&mut self, item: T) -> (r: Result<(), SendFailure>) {
        own_result(sender_start_send(self, item))
    }

    fn poll_flush(&mut self, cx: &mut Context<'_>) -> (r: Poll<Result<(), SendFailure>>) {
        flush_outcome(sender_poll_ready(self, cx))
    }

    fn poll_close(&mut self, cx: &mut Context<'_>) -> (r: Poll<Result<(), SendFailure>>) {
        sender_disconnect(self);
        Poll::Ready(Ok(()))
    }
}

impl<T> Sink<T> for UnboundedSender<T> {
    type SinkError = SendFailure;

    /// The answer comes at once and leaves the sender as it is: there is
    /// always room, and the only failure is a receiver that is gone.
    open spec fn ready_step(before: Self, after: Self, r: Poll<Result<(), SendFailure>>) -> bool {
        &&& after == before
        &&& r is Ready
        &&& r matches Poll::Ready(Err(reason)) ==> reason is Disconnected
    }

    /// Whether the item is taken the channel decides. The only failure is a
    /// receiver that is gone.
    open spec fn send_step(before: Self, item: T, after: Self, r: Result<(), SendFailure>) -> bool {
        r matches Err(reason) ==> reason is Disconnected
    }

    /// Nothing is ever held back: flushing succeeds at once and leaves the
    /// sender as it is.
    open spec fn flush_step(before: Self, after: Self, r: Poll<Result<(), SendFailure>>) -> bool {
        r == Poll::<Result<(), SendFailure>>::Ready(Ok(())) && after == before
    }

    /// Closing succeeds at once.
    open spec fn close_step(before: Self, after: Self, r: Poll<Result<(), SendFailure>>) -> bool {
        r == Poll::<Result<(), SendFailure>>::Ready(Ok(()))
    }

    fn poll_ready(&mut self, cx: &mut Context<'_>) -> (r: Poll<Result<(), SendFailure>>) {
        unbounded_poll_ready(&*self, cx)
    }

    fn start_send(&mut self, item: T) -> (r: Result<(), SendFailure>) {
        unbounded_start_send(self, item)
    }

    fn poll_flush(&mut self, cx: &mut Context<'_>) -> (r: Poll<Result<(), SendFailure>>) {
        Poll::Ready(Ok(()))
    }

    fn poll_close(&mut self, cx: &mut Context<'_>) -> (r: Poll<Result<(), SendFailure>>) {
        unbounded_disconnect(self);
        Poll::Ready(Ok(()))
    }
}

impl<'a, T> Sink<T> for &'a UnboundedSender<T> {
    type SinkError = SendFailure;

    /// The answer comes at once and the handle stays: there is always room,
    /// and the only failure is a receiver that is gone.
    open spec fn ready_step(before: Self, after: Self, r: Poll<Result<(), SendFailure>>) -> bool {
        &&& after == before
        &&& r is Ready
        &&& r matches Poll::Ready(Err(reason)) ==> reason is Disconnected
    }

    /// Whether the item is taken the channel decides; the handle stays. The
    /// only failure is a receiver that is gone.
    open spec fn send_step(before: Self, item: T, after: Self, r: Result<(), SendFailure>) -> bool {
        &&& after == before
        &&& r matches Err(reason) ==> reason is Disconnected
    }

    /// Nothing is ever held back: flushing succeeds at once and the handle
    /// stays.
    open spec fn flush_step(before: Self, after: Self, r: Poll<Result<(), SendFailure>>) -> bool {
        r == Poll::<Result<(), SendFailure>>::Ready(Ok(())) && after == before
    }

    /// Closing succeeds at once and the handle stays.
    open spec fn close_step(before: Self, after: Self, r: Poll<Result<(), SendFailure>>) -> bool {
        r == Poll::<Result<(), SendFailure>>::Ready(Ok(())) && after == before
    }

    fn poll_ready(&mut self, cx: &mut Context<'_>) -> (r: Poll<Result<(), SendFailure>>) {
        unbounded_poll_ready(*self, cx)
    }

    fn start_send(&mut self, item: T) -> (r: Result<(), SendFailure>) {
        unbounded_send(*self, item)
    }

    fn poll_flush(&mut self, cx: &mut Context<'_>) -> (r: Poll<Result<(), SendFailure>>) {
        Poll::Ready(Ok(()))
    }

    fn poll_close(&mut self, cx: &mut Context<'_>) -> (r: Poll<Result<(), SendFailure>>) {
        unbounded_close_channel(*self);
        Poll::Ready(Ok(()))
    }
}

} // verus!
