//! `err_into`: convert the errors of a stream into another error type.

use vstd::prelude::*;
use core::marker::PhantomData;
use core::task::Context;
use crate::poll::{relay_preserves_order, relays, yielded, Poll};
use crate::sink::Sink;

verus! {

/// Stream combinator that converts every error of its source into `E2` and
/// lets every success pass.
#[must_use]
pub struct ErrInto<St, E2> {
    stream: St,
    _marker: PhantomData<E2>,
}

impl<St, E2> ErrInto<St, E2> {
    /// The wrapped source.
    pub closed spec fn source(&self) -> St {
        self.stream
    }

    /// Wraps `stream`.
    pub fn new(stream: St) -> (r: Self)
        ensures
            r.source() == stream,
    {
        ErrInto { stream, _marker: PhantomData }
    }

    /// The source this combinator pulls from.
    pub fn get_ref(&self) -> (r: &St)
        ensures
            *r == self.source(),
    {
        &self.stream
    }

    /// The source this combinator pulls from, for mutation.
    pub fn get_mut(&mut self) -> (r: &mut St)
        ensures
            *r == old(self).source(),
            final(self).source() == *final(r),
    {
        &mut self.stream
    }

    /// Gives the source back.
    pub fn into_inner(self) -> (r: St)
        ensures
            r == self.source(),
    {
        self.stream
    }

    /// Whether the stream has ended for good: it has when its source has.
    pub fn is_terminated(&self, source_terminated: bool) -> (r: bool)
        ensures
            r == source_terminated,
    {
        source_terminated
    }

    /// Takes the outcome of polling the source and gives what the poll call
    /// returns: the conversion of an error, everything else as it came.
    pub fn source_polled<T, E>(&mut self, polled: Poll<Option<Result<T, E>>>) -> (r: Poll<
        Option<Result<T, E2>>,
    >)
        where E: Into<E2>
        ensures
            final(self).source() == old(self).source(),
            relays(polled, r, |item: Result<T, E>, out: Result<T, E2>| err_into_item(item, out)),
    {
        match polled {
            Poll::Pending => Poll::Pending,
            Poll::Ready(None) => Poll::Ready(None),
            Poll::Ready(Some(Ok(value))) => Poll::Ready(Some(Ok(value))),
            Poll::Ready(Some(Err(e))) => {
                let converted: E2 = e.into();
                Poll::Ready(Some(Err(converted)))
            },
        }
    }
}

/// The sink half of a wrapped source passes through unchanged: every
/// operation is the source's own, with the source's error, and touches
/// nothing else in the combinator.
impl<S, E2, Item> Sink<Item> for ErrInto<S, E2> where S: Sink<Item> {
    type SinkError = S::SinkError;

    open spec fn ready_step(before: Self, after: Self, r: Poll<Result<(), S::SinkError>>) -> bool {
        S::ready_step(before.source(), after.source(), r)
    }

    open spec fn send_step(
        before: Self,
        item: Item,
        after: Self,
        r: Result<(), S::SinkError>,
    ) -> bool {
        S::send_step(before.source(), item, after.source(), r)
    }

    open spec fn flush_step(before: Self, after: Self, r: Poll<Result<(), S::SinkError>>) -> bool {
        S::flush_step(before.source(), after.source(), r)
    }

    open spec fn close_step(before: Self, after: Self, r: Poll<Result<(), S::SinkError>>) -> bool {
        S::close_step(before.source(), after.source(), r)
    }

    fn poll_ready(&mut self, cx: &mut Context<'_>) -> (r: Poll<Result<(), S::SinkError>>) {
        self.stream.poll_ready(cx)
    }

    fn start_send(&mut self, item: Item) -> (r: Result<(), S::SinkError>) {
        self.stream.start_send(item)
    }

    fn poll_flush(&mut self, cx: &mut Context<'_>) -> (r: Poll<Result<(), S::SinkError>>) {
        self.stream.poll_flush(cx)
    }

    fn poll_close(&mut self, cx: &mut Context<'_>) -> (r: Poll<Result<(), S::SinkError>>) {
        self.stream.poll_close(cx)
    }
}

/// Whether `out` stands for `item`: a success is itself, an error is the
/// error that the conversion gives for it.
pub open spec fn err_into_item<T, E: Into<E2>, E2>(item: Result<T, E>, out: Result<T, E2>) -> bool {
    match item {
        Ok(value) => out == Ok::<T, E2>(value),
        Err(e) => out matches Err(converted) && call_ensures(
            <E as Into<E2>>::into,
            (e,),
            converted,
        ),
    }
}

/// Order preservation. Over any sequence of source outcomes, the combinator
/// yields as many items as the source and in the same order: every success
/// in its place untouched, every error in its place converted.
pub proof fn err_into_preserves_order<T, E: Into<E2>, E2>(
    polled: Seq<Poll<Option<Result<T, E>>>>,
    answers: Seq<Poll<Option<Result<T, E2>>>>,
)
    requires
        polled.len() == answers.len(),
        forall|i: int|
            0 <= i < polled.len() ==> relays(
                #[trigger] polled[i],
                answers[i],
                |item: Result<T, E>, out: Result<T, E2>| err_into_item(item, out),
            ),
    ensures
        yielded(answers).len() == yielded(polled).len(),
        forall|k: int|
            0 <= k < yielded(polled).len() ==> err_into_item(
                #[trigger] yielded(polled)[k],
                yielded(answers)[k],
            ),
{
    relay_preserves_order(
        polled,
        answers,
        |item: Result<T, E>, out: Result<T, E2>| err_into_item(item, out),
    );
}

} // verus!
