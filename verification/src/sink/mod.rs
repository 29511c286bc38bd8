//! Backpressured consumers.

use vstd::prelude::*;
use core::task::Context;
use crate::poll::Poll;

pub mod channel;

verus! {

/// A consumer that accepts items one at a time and says when it has room.
///
/// An item may be handed over by `start_send` only after `poll_ready` has
/// answered `Ready(Ok(()))`. `poll_flush` drives what was accepted to its
/// destination, `poll_close` shuts the sink down; nothing may be sent
/// afterwards.
///
/// What an implementation does in one call is told by the four relations
/// between the sink before the call, the sink after it and the answer.
pub trait Sink<Item>: Sized {
    /// What the sink reports when it fails.
    type SinkError;

    /// One call of `poll_ready`.
    spec fn ready_step(before: Self, after: Self, r: Poll<Result<(), Self::SinkError>>) -> bool;

    /// One call of `start_send`.
    spec fn send_step(before: Self, item: Item, after: Self, r: Result<(), Self::SinkError>) -> bool;

    /// One call of `poll_flush`.
    spec fn flush_step(before: Self, after: Self, r: Poll<Result<(), Self::SinkError>>) -> bool;

    /// One call of `poll_close`.
    spec fn close_step(before: Self, after: Self, r: Poll<Result<(), Self::SinkError>>) -> bool;

    /// Asks whether the next item can be accepted.
    fn poll_ready(&mut self, cx: &mut Context<'_>) -> (r: Poll<Result<(), Self::SinkError>>)
        ensures
            Self::ready_step(*old(self), *final(self), r),
    ;

    /// Hands an item to the sink.
    fn start_send(&mut self, item: Item) -> (r: Result<(), Self::SinkError>)
        ensures
            Self::send_step(*old(self), item, *final(self), r),
    ;

    /// Drives the accepted items to their destination.
    fn poll_flush(&mut self, cx: &mut Context<'_>) -> (r: Poll<Result<(), Self::SinkError>>)
        ensures
            Self::flush_step(*old(self), *final(self), r),
    ;

    /// Shuts the sink down.
    fn poll_close(&mut self, cx: &mut Context<'_>) -> (r: Poll<Result<(), Self::SinkError>>)
        ensures
            Self::close_step(*old(self), *final(self), r),
    ;
}

} // verus!
