//! `inspect_ok`: look at the successes of a stream as they pass.

use vstd::prelude::*;
use core::task::Context;
use crate::poll::Poll;
use crate::sink::Sink;

verus! {

/// Stream combinator that shows every success of its source to a function and
/// passes every item on as it came.
#[must_use]
pub struct InspectOk<St, F> {
    stream: St,
    f: F,
}

impl<St, F> InspectOk<St, F> {
    /// The wrapped source.
    pub closed spec fn source(&self) -> St {
        self.stream
    }

    /// The function that is shown the successes.
    pub closed spec fn step_fn(&self) -> F {
        self.f
    }

    /// Wraps `stream`.
    pub fn new(stream: St, f: F) -> (r: Self)
        ensures
            r.source() == stream,
            r.step_fn() == f,
    {
        InspectOk { stream, f }
    }

    /// The source this combinator pulls from.
    pub fn get_ref(&self) -> (r: &St)
        ensures
            *r == self.source(),
    {
        &self.stream
    }

    /// The source this combinator pulls from, for mutation.
    pub fn get_mut(&mut self) -> (r: &mut St)
        ensures
            *r == old(self).source(),
            final(self).source() == *final(r),
            final(self).step_fn() == old(self).step_fn(),
    {
        &mut self.stream
    }

    /// Gives the source back.
    pub fn into_inner(self) -> (r: St)
        ensures
            r == self.source(),
    {
        self.stream
    }

    /// Whether the stream has ended for good: it has when its source has.
    pub fn is_terminated(&self, source_terminated: bool) -> (r: bool)
        ensures
            r == source_terminated,
    {
        source_terminated
    }

    /// Takes the outcome of polling the source and gives what the poll call
    /// returns, which is that very outcome; a success has been shown to the
    /// function on the way.
    pub fn source_polled<T, E>(&mut self, polled: Poll<Option<Result<T, E>>>) -> (r: Poll<
        Option<Result<T, E>>,
    >)
        where F: FnMut(&T)
        requires
            polled matches Poll::Ready(Some(Ok(value))) ==> old(self).step_fn().requires((&value,)),
        ensures
            final(self).source() == old(self).source(),
            r == polled,
            final(self).step_fn() == old(self).step_fn(),
    {
        match &polled {
            Poll::Ready(Some(Ok(value))) => {
                (self.f)(value);
            },
            _ => {},
        }
        polled
    }
}

/// The sink half of a wrapped source passes through unchanged: every
/// operation is the source's own, with the source's error, and touches
/// nothing else in the combinator.
impl<S, F, Item> Sink<Item> for InspectOk<S, F> where S: Sink<Item> {
    type SinkError = S::SinkError;

    open spec fn ready_step(before: Self, after: Self, r: Poll<Result<(), S::SinkError>>) -> bool {
        S::ready_step(before.source(), after.source(), r) && after.step_fn() == before.step_fn()
    }

    open spec fn send_step(
        before: Self,
        item: Item,
        after: Self,
        r: Result<(), S::SinkError>,
    ) -> bool {
        S::send_step(before.source(), item, after.source(), r) && after.step_fn()
            == before.step_fn()
    }

    open spec fn flush_step(before: Self, after: Self, r: Poll<Result<(), S::SinkError>>) -> bool {
        S::flush_step(before.source(), after.source(), r) && after.step_fn() == before.step_fn()
    }

    open spec fn close_step(before: Self, after: Self, r: Poll<Result<(), S::SinkError>>) -> bool {
        S::close_step(before.source(), after.source(), r) && after.step_fn() == before.step_fn()
    }

    fn poll_ready(&mut self, cx: &mut Context<'_>) -> (r: Poll<Result<(), S::SinkError>>) {
        self.stream.poll_ready(cx)
    }

    fn start_send(&mut self, item: Item) -> (r: Result<(), S::SinkError>) {
        self.stream.start_send(item)
    }

    fn poll_flush(&mut self, cx: &mut Context<'_>) -> (r: Poll<Result<(), S::SinkError>>) {
        self.stream.poll_flush(cx)
    }

    fn poll_close(&mut self, cx: &mut Context<'_>) -> (r: Poll<Result<(), S::SinkError>>) {
        self.stream.poll_close(cx)
    }
}

} // verus!
