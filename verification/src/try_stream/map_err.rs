//! `map_err`: transform the errors of a stream in place.

use vstd::prelude::*;
use core::task::Context;
use crate::poll::{relay_preserves_order, relays, yielded, Poll};
use crate::sink::Sink;

verus! {

/// Stream combinator that applies a function to every error of its source
/// and lets every success pass.
#[must_use]
pub struct MapErr<St, F> {
    stream: St,
    f: F,
}

impl<St, F> MapErr<St, F> {
    /// The wrapped source.
    pub closed spec fn source(&self) -> St {
        self.stream
    }

    /// The function applied to errors.
    pub closed spec fn step_fn(&self) -> F {
        self.f
    }

    /// Wraps `stream`.
    pub fn new(stream: St, f: F) -> (r: Self)
        ensures
            r.source() == stream,
            r.step_fn() == f,
    {
        MapErr { stream, f }
    }

    /// The source this combinator pulls from.
    pub fn get_ref(&self) -> (r: &St)
        ensures
            *r == self.source(),
    {
        &self.stream
    }

    /// The source this combinator pulls from, for mutation.
    pub fn get_mut(&mut self) -> (r: &mut St)
        ensures
            *r == old(self).source(),
            final(self).source() == *final(r),
            final(self).step_fn() == old(self).step_fn(),
    {
        &mut self.stream
    }

    /// Gives the source back.
    pub fn into_inner(self) -> (r: St)
        ensures
            r == self.source(),
    {
        self.stream
    }

    /// Whether the stream has ended for good: it has when its source has.
    pub fn is_terminated(&self, source_terminated: bool) -> (r: bool)
        ensures
            r == source_terminated,
    {
        source_terminated
    }

    /// Takes the outcome of polling the source and gives what the poll call
    /// returns: the function's value for an error, everything else as it
    /// came.
    pub fn source_polled<T, E, E2>(&mut self, polled: Poll<Option<Result<T, E>>>) -> (r: Poll<
        Option<Result<T, E2>>,
    >)
        where F: FnMut(E) -> E2
        requires
            polled matches Poll::Ready(Some(Err(e))) ==> old(self).step_fn().requires((e,)),
        ensures
            final(self).source() == old(self).source(),
            relays(
                polled,
                r,
                |item: Result<T, E>, out: Result<T, E2>|
                    map_err_item(
                        item,
                        out,
                        |e: E, mapped: E2| old(self).step_fn().ensures((e,), mapped),
                    ),
            ),
            final(self).step_fn() == old(self).step_fn(),
    {
        match polled {
            Poll::Pending => Poll::Pending,
            Poll::Ready(None) => Poll::Ready(None),
            Poll::Ready(Some(Ok(value))) => Poll::Ready(Some(Ok(value))),
            Poll::Ready(Some(Err(e))) => {
                let mapped = (self.f)(e);
                Poll::Ready(Some(Err(mapped)))
            },
        }
    }
}

/// The sink half of a wrapped source passes through unchanged: every
/// operation is the source's own, with the source's error, and touches
/// nothing else in the combinator.
impl<S, F, Item> Sink<Item> for MapErr<S, F> where S: Sink<Item> {
    type SinkError = S::SinkError;

    open spec fn ready_step(before: Self, after: Self, r: Poll<Result<(), S::SinkError>>) -> bool {
        S::ready_step(before.source(), after.source(), r) && after.step_fn() == before.step_fn()
    }

    open spec fn send_step(
        before: Self,
        item: Item,
        after: Self,
        r: Result<(), S::SinkError>,
    ) -> bool {
        S::send_step(before.source(), item, after.source(), r) && after.step_fn()
            == before.step_fn()
    }

    open spec fn flush_step(before: Self, after: Self, r: Poll<Result<(), S::SinkError>>) -> bool {
        S::flush_step(before.source(), after.source(), r) && after.step_fn() == before.step_fn()
    }

    open spec fn close_step(before: Self, after: Self, r: Poll<Result<(), S::SinkError>>) -> bool {
        S::close_step(before.source(), after.source(), r) && after.step_fn() == before.step_fn()
    }

    fn poll_ready(&mut self, cx: &mut Context<'_>) -> (r: Poll<Result<(), S::SinkError>>) {
        self.stream.poll_ready(cx)
    }

    fn start_send(&mut self, item: Item) -> (r: Result<(), S::SinkError>) {
        self.stream.start_send(item)
    }

    fn poll_flush(&mut self, cx: &mut Context<'_>) -> (r: Poll<Result<(), S::SinkError>>) {
        self.stream.poll_flush(cx)
    }

    fn poll_close(&mut self, cx: &mut Context<'_>) -> (r: Poll<Result<(), S::SinkError>>) {
        self.stream.poll_close(cx)
    }
}

/// Whether `out` stands for `item`: a success is itself, an error is an
/// error with a value that `step` allows for it.
pub open spec fn map_err_item<T, E, E2>(
    item: Result<T, E>,
    out: Result<T, E2>,
    step: spec_fn(E, E2) -> bool,
) -> bool {
    match item {
        Ok(value) => out == Ok::<T, E2>(value),
        Err(e) => out matches Err(mapped) && step(e, mapped),
    }
}

/// Order preservation. Over any sequence of source outcomes, the combinator
/// yields as many items as the source and in the same order: every success
/// in its place untouched, every error in its place transformed.
pub proof fn map_err_preserves_order<T, E, E2>(
    polled: Seq<Poll<Option<Result<T, E>>>>,
    answers: Seq<Poll<Option<Result<T, E2>>>>,
    step: spec_fn(E, E2) -> bool,
)
    requires
        polled.len() == answers.len(),
        forall|i: int|
            0 <= i < polled.len() ==> relays(
                #[trigger] polled[i],
                answers[i],
                |item: Result<T, E>, out: Result<T, E2>| map_err_item(item, out, step),
            ),
    ensures
        yielded(answers).len() == yielded(polled).len(),
        forall|k: int|
            0 <= k < yielded(polled).len() ==> map_err_item(
                #[trigger] yielded(polled)[k],
                yielded(answers)[k],
                step,
            ),
{
    relay_preserves_order(
        polled,
        answers,
        |item: Result<T, E>, out: Result<T, E2>| map_err_item(item, out, step),
    );
}

} // verus!
