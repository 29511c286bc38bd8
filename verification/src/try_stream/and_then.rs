//! `and_then`: run an asynchronous, fallible step on every success of a
//! stream.

use vstd::prelude::*;
use core::future::Future;
use core::task::Context;
use crate::poll::{source_items, yielded, Action, Event, Poll, Progress};
use crate::sink::Sink;

verus! {

/// Stream combinator that lets the errors of its source pass and hands
/// every success to a step function, yielding what the resulting step
/// resolves to in the success's place.
#[must_use]
pub struct AndThen<St, Fut, F> {
    stream: St,
    future: Option<Fut>,
    f: F,
}

impl<St, Fut, F> AndThen<St, Fut, F> {
    /// The wrapped source.
    pub closed spec fn source(&self) -> St {
        self.stream
    }

    /// The suspended step, if there is one.
    pub closed spec fn in_flight(&self) -> Option<Fut> {
        self.future
    }

    /// The step function.
    pub closed spec fn step_fn(&self) -> F {
        self.f
    }

    /// Wraps `stream`; no step is in flight.
    pub fn new<T>(stream: St, f: F) -> (r: Self)
        where F: FnMut(T) -> Fut
        ensures
            r.source() == stream,
            r.in_flight() is None,
            r.step_fn() == f,
    {
        AndThen { stream, future: None, f }
    }

    /// The source this combinator pulls from.
    pub fn get_ref(&self) -> (r: &St)
        ensures
            *r == self.source(),
    {
        &self.stream
    }

    /// The source this combinator pulls from, for mutation. Whatever the
    /// caller leaves there is the source from then on; the step slot and the
    /// step function are untouched.
    pub fn get_mut(&mut self) -> (r: &mut St)
        ensures
            *r == old(self).source(),
            final(self).source() == *final(r),
            final(self).in_flight() == old(self).in_flight(),
            final(self).step_fn() == old(self).step_fn(),
    {
        &mut self.stream
    }

    /// Gives the source back and drops a step that may be in flight.
    pub fn into_inner(self) -> (r: St)
        ensures
            r == self.source(),
    {
        self.stream
    }

    /// Whether the stream has ended for good: no step is in flight and the
    /// source reports that it has terminated.
    pub fn is_terminated(&self, source_terminated: bool) -> (r: bool)
        ensures
            r == (self.in_flight() is None && source_terminated),
    {
        self.future.is_none() && source_terminated
    }

    /// What the driver must poll next: the source while the slot is empty,
    /// the step while it is full.
    pub fn next_action(&self) -> (r: Action)
        ensures
            r == (if self.in_flight() is Some { Action::PollStep } else { Action::PollSource }),
    {
        if self.future.is_none() {
            Action::PollSource
        } else {
            Action::PollStep
        }
    }

    /// Takes the outcome of polling the source while no step is in flight.
    ///
    /// A suspended or exhausted source, and an error, end the poll call with
    /// that outcome: an error never reaches the step function. A success is
    /// handed to it, and the step it returns is stored; the poll call goes on
    /// with polling that step.
    pub fn source_polled<T, E, U>(&mut self, polled: Poll<Option<Result<T, E>>>) -> (r: Progress<
        Result<U, E>,
    >)
        where F: FnMut(T) -> Fut, Fut: Future<Output = Result<U, E>>
        requires
            old(self).in_flight() is None,
            polled matches Poll::Ready(Some(Ok(value))) ==> old(self).step_fn().requires((value,)),
        ensures
            final(self).source() == old(self).source(),
            r == and_then_on_source::<T, E, U>(polled),
            final(self).in_flight() is Some <==> r is Continue,
            final(self).step_fn() == old(self).step_fn(),
            polled matches Poll::Ready(Some(Ok(value))) ==> old(self).step_fn().ensures(
                (value,),
                final(self).in_flight().unwrap(),
            ),
    {
        match polled {
            Poll::Pending => Progress::Return(Poll::Pending),
            Poll::Ready(None) => Progress::Return(Poll::Ready(None)),
            Poll::Ready(Some(Err(e))) => Progress::Return(Poll::Ready(Some(Err(e)))),
            Poll::Ready(Some(Ok(value))) => {
                let fut = (self.f)(value);
                self.future = Some(fut);
                Progress::Continue
            },
        }
    }

    /// The suspended step, for the driver to poll.
    pub fn step_mut(&mut self) -> (r: &mut Fut)
        requires
            old(self).in_flight() is Some,
        ensures
            *r == old(self).in_flight().unwrap(),
            final(self).in_flight() == Some(*final(r)),
            final(self).source() == old(self).source(),
            final(self).step_fn() == old(self).step_fn(),
    {
        match &mut self.future {
            Some(fut) => fut,
            None => unreached(),
        }
    }

    /// Takes the outcome of polling the suspended step.
    ///
    /// A suspended step stays in its slot. A resolved one is dropped and its
    /// result, success or error, is the stream's next item. Either way the
    /// poll call returns.
    pub fn step_polled(&mut self, polled: Poll<Fut::Output>) -> (r: Poll<Option<Fut::Output>>)
        where Fut: Future
        requires
            old(self).in_flight() is Some,
        ensures
            final(self).source() == old(self).source(),
            final(self).step_fn() == old(self).step_fn(),
            r == and_then_on_step(polled),
            final(self).in_flight() is Some <==> polled is Pending,
            polled is Pending ==> final(self).in_flight() == old(self).in_flight(),
    {
        match polled {
            Poll::Pending => Poll::Pending,
            Poll::Ready(result) => {
                self.future = None;
                Poll::Ready(Some(result))
            },
        }
    }
}

/// The sink half of a wrapped source passes through unchanged: every
/// operation is the source's own, with the source's error, and touches
/// nothing else in the combinator.
impl<S, Fut, F, Item> Sink<Item> for AndThen<S, Fut, F> where S: Sink<Item> {
    type SinkError = S::SinkError;

    open spec fn ready_step(before: Self, after: Self, r: Poll<Result<(), S::SinkError>>) -> bool {
        S::ready_step(before.source(), after.source(), r) && after.in_flight() == before.in_flight() && after.step_fn() == before.step_fn()
    }

    open spec fn send_step(before: Self, item: Item, after: Self, r: Result<(), S::SinkError>) -> bool {
        S::send_step(before.source(), item, after.source(), r) && after.in_flight() == before.in_flight() && after.step_fn() == before.step_fn()
    }

    open spec fn flush_step(before: Self, after: Self, r: Poll<Result<(), S::SinkError>>) -> bool {
        S::flush_step(before.source(), after.source(), r) && after.in_flight() == before.in_flight() && after.step_fn() == before.step_fn()
    }

    open spec fn close_step(before: Self, after: Self, r: Poll<Result<(), S::SinkError>>) -> bool {
        S::close_step(before.source(), after.source(), r) && after.in_flight() == before.in_flight() && after.step_fn() == before.step_fn()
    }

    fn poll_ready(&mut self, cx: &mut Context<'_>) -> (r: Poll<Result<(), S::SinkError>>) {
        self.stream.poll_ready(cx)
    }

    fn start_send(&mut self, item: Item) -> (r: Result<(), S::SinkError>) {
        self.stream.start_send(item)
    }

    fn poll_flush(&mut self, cx: &mut Context<'_>) -> (r: Poll<Result<(), S::SinkError>>) {
        self.stream.poll_flush(cx)
    }

    fn poll_close(&mut self, cx: &mut Context<'_>) -> (r: Poll<Result<(), S::SinkError>>) {
        self.stream.poll_close(cx)
    }
}

/// What the outcome of polling the source means for the poll call: a
/// success starts a step and the call goes on, anything else is returned as
/// it is.
pub open spec fn and_then_on_source<T, E, U>(polled: Poll<Option<Result<T, E>>>) -> Progress<
    Result<U, E>,
> {
    match polled {
        Poll::Pending => Progress::Return(Poll::Pending),
        Poll::Ready(None) => Progress::Return(Poll::Ready(None)),
        Poll::Ready(Some(Err(e))) => Progress::Return(Poll::Ready(Some(Err(e)))),
        Poll::Ready(Some(Ok(_))) => Progress::Continue,
    }
}

/// What the poll call returns once the step has been polled.
pub open spec fn and_then_on_step<Out>(polled: Poll<Out>) -> Poll<Option<Out>> {
    match polled {
        Poll::Pending => Poll::Pending,
        Poll::Ready(result) => Poll::Ready(Some(result)),
    }
}

/// What `event` means for the poll call in which it arrives.
pub open spec fn and_then_progress<T, E, U>(
    event: Event<Result<T, E>, Result<U, E>>,
) -> Progress<Result<U, E>> {
    match event {
        Event::Source(polled) => and_then_on_source(polled),
        Event::Step(polled) => Progress::Return(and_then_on_step(polled)),
    }
}

/// Whether a step is in flight once the events of `trace` have been taken,
/// starting with an empty slot.
pub open spec fn and_then_busy<T, E, U>(trace: Seq<Event<Result<T, E>, Result<U, E>>>) -> bool {
    trace.len() > 0 && match trace.last() {
        Event::Source(polled) => and_then_on_source::<T, E, U>(polled) is Continue,
        Event::Step(polled) => polled is Pending,
    }
}

/// Whether `trace` is a run that a driver can produce: every event answers
/// the action that the combinator asked for at that point.
pub open spec fn and_then_valid<T, E, U>(trace: Seq<Event<Result<T, E>, Result<U, E>>>) -> bool
    decreases trace.len(),
{
    trace.len() == 0 || (and_then_valid(trace.drop_last()) && (and_then_busy(trace.drop_last())
        <==> trace.last() is Step))
}

/// The outcomes of the poll calls that returned in the course of `trace`.
pub open spec fn and_then_outcomes<T, E, U>(
    trace: Seq<Event<Result<T, E>, Result<U, E>>>,
) -> Seq<Poll<Option<Result<U, E>>>>
    decreases trace.len(),
{
    if trace.len() == 0 {
        Seq::empty()
    } else {
        let before = and_then_outcomes(trace.drop_last());
        match and_then_progress(trace.last()) {
            Progress::Return(outcome) => before.push(outcome),
            Progress::Continue => before,
        }
    }
}

/// The success whose step is in flight after `trace`.
pub open spec fn and_then_stepping<T, E, U>(
    trace: Seq<Event<Result<T, E>, Result<U, E>>>,
) -> Option<T>
    decreases trace.len(),
{
    if trace.len() == 0 {
        None
    } else {
        match trace.last() {
            Event::Source(Poll::Ready(Some(Ok(value)))) => Some(value),
            Event::Source(_) => None,
            Event::Step(Poll::Pending) => and_then_stepping(trace.drop_last()),
            Event::Step(Poll::Ready(_)) => None,
        }
    }
}

/// Whether every step that resolves in `trace` resolves to `g` of the
/// success it was started for.
pub open spec fn and_then_resolves_by<T, E, U>(
    trace: Seq<Event<Result<T, E>, Result<U, E>>>,
    g: spec_fn(T) -> Result<U, E>,
) -> bool
    decreases trace.len(),
{
    trace.len() == 0 || (and_then_resolves_by(trace.drop_last(), g) && (
    trace.last() matches Event::Step(Poll::Ready(result)) ==> and_then_stepping(
        trace.drop_last(),
    ) matches Some(value) && result == g(value)))
}

/// What stands downstream for one item of the source: an error as it is, a
/// success as the step `g` answers it.
pub open spec fn chained<T, E, U>(item: Result<T, E>, g: spec_fn(T) -> Result<U, E>) -> Result<
    U,
    E,
> {
    match item {
        Ok(value) => g(value),
        Err(e) => Err(e),
    }
}

/// Chaining keeps count and order. In every run, the items yielded
/// downstream are the source's items, one for one and in the source's order,
/// with every error untouched and every success replaced by what its step
/// resolved to; the only source item not yet answered is a success whose
/// step is still in flight.
pub proof fn and_then_chains_in_order<T, E, U>(
    trace: Seq<Event<Result<T, E>, Result<U, E>>>,
    g: spec_fn(T) -> Result<U, E>,
)
    requires
        and_then_valid(trace),
        and_then_resolves_by(trace, g),
    ensures
        source_items(trace).len() == yielded(and_then_outcomes(trace)).len() + (if and_then_busy(
            trace,
        ) {
            1nat
        } else {
            0nat
        }),
        yielded(and_then_outcomes(trace)) == source_items(trace).take(
            yielded(and_then_outcomes(trace)).len() as int,
        ).map_values(|item: Result<T, E>| chained(item, g)),
        and_then_busy(trace) ==> source_items(trace).last() is Ok && and_then_stepping(trace)
            == Some(source_items(trace).last()->Ok_0),
    decreases trace.len(),
{
    let h = |item: Result<T, E>| chained(item, g);
    if trace.len() > 0 {
        let before = trace.drop_last();
        and_then_chains_in_order(before, g);
        let xs0 = source_items(before);
        let xs = source_items(trace);
        let out0 = and_then_outcomes(before);
        let out = and_then_outcomes(trace);
        let ys0 = yielded(out0);
        let ys = yielded(out);
        match trace.last() {
            Event::Source(polled) => {
                match and_then_on_source::<T, E, U>(polled) {
                    Progress::Return(outcome) => {
                        assert(out.drop_last() == out0);
                        match polled {
                            Poll::Ready(Some(item)) => {
                                assert(xs.take(ys.len() as int) == xs0.take(
                                    ys0.len() as int,
                                ).push(item));
                                assert(ys =~= xs.take(ys.len() as int).map_values(h));
                            },
                            _ => {},
                        }
                    },
                    Progress::Continue => {
                        assert(xs.take(ys.len() as int) == xs0.take(ys0.len() as int));
                    },
                }
            },
            Event::Step(Poll::Pending) => {
                assert(out.drop_last() == out0);
            },
            Event::Step(Poll::Ready(result)) => {
                assert(out.drop_last() == out0);
                assert(ys == ys0.push(result));
                assert(xs.take(ys.len() as int) == xs0.take(ys0.len() as int).push(xs0.last()));
                assert(ys =~= xs.take(ys.len() as int).map_values(h));
            },
        }
    } else {
        assert(yielded(and_then_outcomes(trace)) =~= source_items(trace).take(0).map_values(h));
    }
}

/// Fused idempotence. Once no step is in flight and the source has
/// terminated, so that polling it brings no further item, the combinator
/// stays terminated through any number of further events and yields nothing
/// more.
pub proof fn and_then_stays_terminated<T, E, U>(
    trace: Seq<Event<Result<T, E>, Result<U, E>>>,
    more: Seq<Event<Result<T, E>, Result<U, E>>>,
)
    requires
        and_then_valid(trace + more),
        !and_then_busy(trace),
        forall|i: int|
            0 <= i < more.len() ==> !(#[trigger] more[i] matches Event::Source(Poll::Ready(Some(_)))),
    ensures
        !and_then_busy(trace + more),
        yielded(and_then_outcomes(trace + more)) == yielded(and_then_outcomes(trace)),
        source_items(trace + more) == source_items(trace),
    decreases more.len(),
{
    if more.len() == 0 {
        assert(trace + more == trace);
    } else {
        let all = trace + more;
        assert(all.drop_last() == trace + more.drop_last());
        assert(all.last() == more[more.len() - 1]);
        and_then_stays_terminated(trace, more.drop_last());
        match and_then_progress(all.last()) {
            Progress::Return(outcome) => {
                assert(and_then_outcomes(all).drop_last() == and_then_outcomes(all.drop_last()));
            },
            Progress::Continue => {},
        }
    }
}

} // verus!
