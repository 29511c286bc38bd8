//! `try_filter_map`: run an asynchronous, fallible step on every success of
//! a stream and keep the results that are present.

use vstd::prelude::*;
use core::future::Future;
use core::task::Context;
use crate::poll::{source_items, yielded, Action, Event, Poll, Progress};
use crate::sink::Sink;

verus! {

/// Stream combinator that lets the errors of its source pass, hands every
/// success to a step function, and yields what the steps resolve to: errors
/// and present values, leaving out the absent ones.
#[must_use]
pub struct TryFilterMap<St, Fut, F> {
    stream: St,
    f: F,
    pending: Option<Fut>,
}

impl<St, Fut, F> TryFilterMap<St, Fut, F> {
    /// The wrapped source.
    pub closed spec fn source(&self) -> St {
        self.stream
    }

    /// The suspended step, if there is one.
    pub closed spec fn in_flight(&self) -> Option<Fut> {
        self.pending
    }

    /// The step function.
    pub closed spec fn step_fn(&self) -> F {
        self.f
    }

    /// Wraps `stream`; no step is in flight.
    pub fn new<T>(stream: St, f: F) -> (r: Self)
        where F: FnMut(T) -> Fut
        ensures
            r.source() == stream,
            r.in_flight() is None,
            r.step_fn() == f,
    {
        TryFilterMap { stream, f, pending: None }
    }

    /// The source this combinator pulls from.
    pub fn get_ref(&self) -> (r: &St)
        ensures
            *r == self.source(),
    {
        &self.stream
    }

    /// The source this combinator pulls from, for mutation. Whatever the
    /// caller leaves there is the source from then on; the step slot and the
    /// step function are untouched.
    pub fn get_mut(&mut self) -> (r: &mut St)
        ensures
            *r == old(self).source(),
            final(self).source() == *final(r),
            final(self).in_flight() == old(self).in_flight(),
            final(self).step_fn() == old(self).step_fn(),
    {
        &mut self.stream
    }

    /// Gives the source back and drops a step that may be in flight.
    pub fn into_inner(self) -> (r: St)
        ensures
            r == self.source(),
    {
        self.stream
    }

    /// Whether the stream has ended for good: no step is in flight and the
    /// source reports that it has terminated.
    pub fn is_terminated(&self, source_terminated: bool) -> (r: bool)
        ensures
            r == (self.in_flight() is None && source_terminated),
    {
        self.pending.is_none() && source_terminated
    }

    /// What the driver must poll next: the source while the slot is empty,
    /// the step while it is full.
    pub fn next_action(&self) -> (r: Action)
        ensures
            r == (if self.in_flight() is Some { Action::PollStep } else { Action::PollSource }),
    {
        if self.pending.is_none() {
            Action::PollSource
        } else {
            Action::PollStep
        }
    }

    /// Takes the outcome of polling the source while no step is in flight.
    ///
    /// A suspended or exhausted source, and an error, end the poll call with
    /// that outcome. A success is handed to the step function, and the step
    /// it returns is stored; the poll call goes on with polling that step.
    pub fn source_polled<T, E, U>(&mut self, polled: Poll<Option<Result<T, E>>>) -> (r: Progress<
        Result<U, E>,
    >)
        where F: FnMut(T) -> Fut, Fut: Future<Output = Result<Option<U>, E>>
        requires
            old(self).in_flight() is None,
            polled matches Poll::Ready(Some(Ok(value))) ==> old(self).step_fn().requires((value,)),
        ensures
            final(self).source() == old(self).source(),
            r == try_filter_map_on_source::<T, E, U>(polled),
            final(self).in_flight() is Some <==> r is Continue,
            final(self).step_fn() == old(self).step_fn(),
            polled matches Poll::Ready(Some(Ok(value))) ==> old(self).step_fn().ensures(
                (value,),
                final(self).in_flight().unwrap(),
            ),
    {
        match polled {
            Poll::Pending => Progress::Return(Poll::Pending),
            Poll::Ready(None) => Progress::Return(Poll::Ready(None)),
            Poll::Ready(Some(Err(e))) => Progress::Return(Poll::Ready(Some(Err(e)))),
            Poll::Ready(Some(Ok(value))) => {
                let fut = (self.f)(value);
                self.pending = Some(fut);
                Progress::Continue
            },
        }
    }

    /// The suspended step, for the driver to poll.
    pub fn step_mut(&mut self) -> (r: &mut Fut)
        requires
            old(self).in_flight() is Some,
        ensures
            *r == old(self).in_flight().unwrap(),
            final(self).in_flight() == Some(*final(r)),
            final(self).source() == old(self).source(),
            final(self).step_fn() == old(self).step_fn(),
    {
        match &mut self.pending {
            Some(fut) => fut,
            None => unreached(),
        }
    }

    /// Takes the outcome of polling the suspended step.
    ///
    /// A suspended step stays in its slot and the poll call returns. A
    /// resolved one is dropped: an error or a value that is present is the
    /// stream's next item, an absent value yields nothing and the poll call
    /// goes on with the source.
    pub fn step_polled<U, E>(&mut self, polled: Poll<Result<Option<U>, E>>) -> (r: Progress<
        Result<U, E>,
    >)
        where Fut: Future<Output = Result<Option<U>, E>>
        requires
            old(self).in_flight() is Some,
        ensures
            final(self).source() == old(self).source(),
            final(self).step_fn() == old(self).step_fn(),
            r == try_filter_map_on_step(polled),
            final(self).in_flight() is Some <==> polled is Pending,
            polled is Pending ==> final(self).in_flight() == old(self).in_flight(),
    {
        match polled {
            Poll::Pending => Progress::Return(Poll::Pending),
            Poll::Ready(result) => {
                self.pending = None;
                match result {
                    Ok(Some(value)) => Progress::Return(Poll::Ready(Some(Ok(value)))),
                    Err(e) => Progress::Return(Poll::Ready(Some(Err(e)))),
                    Ok(None) => Progress::Continue,
                }
            },
        }
    }
}

/// The sink half of a wrapped source passes through unchanged: every
/// operation is the source's own, with the source's error, and touches
/// nothing else in the combinator.
impl<S, Fut, F, Item> Sink<Item> for TryFilterMap<S, Fut, F> where S: Sink<Item> {
    type SinkError = S::SinkError;

    open spec fn ready_step(before: Self, after: Self, r: Poll<Result<(), S::SinkError>>) -> bool {
        S::ready_step(before.source(), after.source(), r) && after.in_flight() == before.in_flight() && after.step_fn() == before.step_fn()
    }

    open spec fn send_step(before: Self, item: Item, after: Self, r: Result<(), S::SinkError>) -> bool {
        S::send_step(before.source(), item, after.source(), r) && after.in_flight() == before.in_flight() && after.step_fn() == before.step_fn()
    }

    open spec fn flush_step(before: Self, after: Self, r: Poll<Result<(), S::SinkError>>) -> bool {
        S::flush_step(before.source(), after.source(), r) && after.in_flight() == before.in_flight() && after.step_fn() == before.step_fn()
    }

    open spec fn close_step(before: Self, after: Self, r: Poll<Result<(), S::SinkError>>) -> bool {
        S::close_step(before.source(), after.source(), r) && after.in_flight() == before.in_flight() && after.step_fn() == before.step_fn()
    }

    fn poll_ready(&mut self, cx: &mut Context<'_>) -> (r: Poll<Result<(), S::SinkError>>) {
        self.stream.poll_ready(cx)
    }

    fn start_send(&mut self, item: Item) -> (r: Result<(), S::SinkError>) {
        self.stream.start_send(item)
    }

    fn poll_flush(&mut self, cx: &mut Context<'_>) -> (r: Poll<Result<(), S::SinkError>>) {
        self.stream.poll_flush(cx)
    }

    fn poll_close(&mut self, cx: &mut Context<'_>) -> (r: Poll<Result<(), S::SinkError>>) {
        self.stream.poll_close(cx)
    }
}

/// What the outcome of polling the source means for the poll call: a
/// success starts a step and the call goes on, anything else is returned as
/// it is.
pub open spec fn try_filter_map_on_source<T, E, U>(
    polled: Poll<Option<Result<T, E>>>,
) -> Progress<Result<U, E>> {
    match polled {
        Poll::Pending => Progress::Return(Poll::Pending),
        Poll::Ready(None) => Progress::Return(Poll::Ready(None)),
        Poll::Ready(Some(Err(e))) => Progress::Return(Poll::Ready(Some(Err(e)))),
        Poll::Ready(Some(Ok(_))) => Progress::Continue,
    }
}

/// What the outcome of polling the step means for the poll call: an error
/// or a present value is yielded, an absent value sends the call back to the
/// source.
pub open spec fn try_filter_map_on_step<U, E>(polled: Poll<Result<Option<U>, E>>) -> Progress<
    Result<U, E>,
> {
    match polled {
        Poll::Pending => Progress::Return(Poll::Pending),
        Poll::Ready(Ok(Some(value))) => Progress::Return(Poll::Ready(Some(Ok(value)))),
        Poll::Ready(Err(e)) => Progress::Return(Poll::Ready(Some(Err(e)))),
        Poll::Ready(Ok(None)) => Progress::Continue,
    }
}

/// What `event` means for the poll call in which it arrives.
pub open spec fn try_filter_map_progress<T, E, U>(
    event: Event<Result<T, E>, Result<Option<U>, E>>,
) -> Progress<Result<U, E>> {
    match event {
        Event::Source(polled) => try_filter_map_on_source(polled),
        Event::Step(polled) => try_filter_map_on_step(polled),
    }
}

/// Whether a step is in flight once the events of `trace` have been taken,
/// starting with an empty slot.
pub open spec fn try_filter_map_busy<T, E, U>(
    trace: Seq<Event<Result<T, E>, Result<Option<U>, E>>>,
) -> bool {
    trace.len() > 0 && match trace.last() {
        Event::Source(polled) => try_filter_map_on_source::<T, E, U>(polled) is Continue,
        Event::Step(polled) => polled is Pending,
    }
}

/// Whether `trace` is a run that a driver can produce: every event answers
/// the action that the combinator asked for at that point.
pub open spec fn try_filter_map_valid<T, E, U>(
    trace: Seq<Event<Result<T, E>, Result<Option<U>, E>>>,
) -> bool
    decreases trace.len(),
{
    trace.len() == 0 || (try_filter_map_valid(trace.drop_last()) && (try_filter_map_busy(
        trace.drop_last(),
    ) <==> trace.last() is Step))
}

/// The outcomes of the poll calls that returned in the course of `trace`.
pub open spec fn try_filter_map_outcomes<T, E, U>(
    trace: Seq<Event<Result<T, E>, Result<Option<U>, E>>>,
) -> Seq<Poll<Option<Result<U, E>>>>
    decreases trace.len(),
{
    if trace.len() == 0 {
        Seq::empty()
    } else {
        let before = try_filter_map_outcomes(trace.drop_last());
        match try_filter_map_progress(trace.last()) {
            Progress::Return(outcome) => before.push(outcome),
            Progress::Continue => before,
        }
    }
}

/// The success whose step is in flight after `trace`.
pub open spec fn try_filter_map_stepping<T, E, U>(
    trace: Seq<Event<Result<T, E>, Result<Option<U>, E>>>,
) -> Option<T>
    decreases trace.len(),
{
    if trace.len() == 0 {
        None
    } else {
        match trace.last() {
            Event::Source(Poll::Ready(Some(Ok(value)))) => Some(value),
            Event::Source(_) => None,
            Event::Step(Poll::Pending) => try_filter_map_stepping(trace.drop_last()),
            Event::Step(Poll::Ready(_)) => None,
        }
    }
}

/// Whether every step that resolves in `trace` resolves to `g` of the
/// success it was started for.
pub open spec fn try_filter_map_resolves_by<T, E, U>(
    trace: Seq<Event<Result<T, E>, Result<Option<U>, E>>>,
    g: spec_fn(T) -> Result<Option<U>, E>,
) -> bool
    decreases trace.len(),
{
    trace.len() == 0 || (try_filter_map_resolves_by(trace.drop_last(), g) && (
    trace.last() matches Event::Step(Poll::Ready(result)) ==> try_filter_map_stepping(
        trace.drop_last(),
    ) matches Some(value) && result == g(value)))
}

/// What one item of the source comes to: an error as it is, a success as
/// the step `g` answers it.
pub open spec fn settled<T, E, U>(
    item: Result<T, E>,
    g: spec_fn(T) -> Result<Option<U>, E>,
) -> Result<Option<U>, E> {
    match item {
        Ok(value) => g(value),
        Err(e) => Err(e),
    }
}

/// The errors and the present values in `results`, in order.
pub open spec fn present_results<U, E>(results: Seq<Result<Option<U>, E>>) -> Seq<Result<U, E>>
    decreases results.len(),
{
    if results.len() == 0 {
        Seq::empty()
    } else {
        let before = present_results(results.drop_last());
        match results.last() {
            Ok(Some(value)) => before.push(Ok(value)),
            Err(e) => before.push(Err(e)),
            Ok(None) => before,
        }
    }
}

/// The number of source items that `trace` has dealt with: all but the one
/// whose step is in flight.
pub open spec fn try_filter_map_settled<T, E, U>(
    trace: Seq<Event<Result<T, E>, Result<Option<U>, E>>>,
) -> int {
    source_items(trace).len() - (if try_filter_map_busy(trace) {
        1int
    } else {
        0int
    })
}

/// Filtering correctness. In every run, the items yielded downstream are
/// exactly what the source's items come to, errors and present values, in
/// the source's order, with the absent values left out. Every success has
/// had its step started, absent result or not.
pub proof fn try_filter_map_keeps_present<T, E, U>(
    trace: Seq<Event<Result<T, E>, Result<Option<U>, E>>>,
    g: spec_fn(T) -> Result<Option<U>, E>,
)
    requires
        try_filter_map_valid(trace),
        try_filter_map_resolves_by(trace, g),
    ensures
        0 <= try_filter_map_settled(trace),
        yielded(try_filter_map_outcomes(trace)) == present_results(
            source_items(trace).take(try_filter_map_settled(trace)).map_values(
                |item: Result<T, E>| settled(item, g),
            ),
        ),
        try_filter_map_busy(trace) ==> source_items(trace).last() is Ok && try_filter_map_stepping(
            trace,
        ) == Some(source_items(trace).last()->Ok_0),
    decreases trace.len(),
{
    let h = |item: Result<T, E>| settled(item, g);
    if trace.len() > 0 {
        let before = trace.drop_last();
        try_filter_map_keeps_present(before, g);
        let xs0 = source_items(before);
        let n0 = try_filter_map_settled(before);
        let xs = source_items(trace);
        let n = try_filter_map_settled(trace);
        let out0 = try_filter_map_outcomes(before);
        let out = try_filter_map_outcomes(trace);
        let results0 = xs0.take(n0).map_values(h);
        let results = xs.take(n).map_values(h);
        match trace.last() {
            Event::Source(polled) => {
                match polled {
                    Poll::Ready(Some(Err(e))) => {
                        assert(out.drop_last() == out0);
                        assert(xs.take(n) == xs0.take(n0).push(Err(e)));
                        assert(results =~= results0.push(Err(e)));
                        assert(results.drop_last() == results0);
                    },
                    Poll::Ready(Some(Ok(_))) => {
                        assert(xs.take(n) == xs0.take(n0));
                    },
                    _ => {
                        assert(out.drop_last() == out0);
                    },
                }
            },
            Event::Step(Poll::Pending) => {
                assert(out.drop_last() == out0);
            },
            Event::Step(Poll::Ready(result)) => {
                assert(xs.take(n) == xs0.take(n0).push(xs0.last()));
                assert(results =~= results0.push(result));
                assert(results.drop_last() == results0);
                if !(result matches Ok(None)) {
                    assert(out.drop_last() == out0);
                }
            },
        }
    } else {
        assert(source_items(trace).take(0).map_values(h) =~= Seq::empty());
    }
}

/// Fused idempotence. Once no step is in flight and the source has
/// terminated, so that polling it brings no further item, the combinator
/// stays terminated through any number of further events and yields nothing
/// more.
pub proof fn try_filter_map_stays_terminated<T, E, U>(
    trace: Seq<Event<Result<T, E>, Result<Option<U>, E>>>,
    more: Seq<Event<Result<T, E>, Result<Option<U>, E>>>,
)
    requires
        try_filter_map_valid(trace + more),
        !try_filter_map_busy(trace),
        forall|i: int|
            0 <= i < more.len() ==> !(#[trigger] more[i] matches Event::Source(Poll::Ready(Some(_)))),
    ensures
        !try_filter_map_busy(trace + more),
        yielded(try_filter_map_outcomes(trace + more)) == yielded(try_filter_map_outcomes(trace)),
        source_items(trace + more) == source_items(trace),
    decreases more.len(),
{
    if more.len() == 0 {
        assert(trace + more == trace);
    } else {
        let all = trace + more;
        assert(all.drop_last() == trace + more.drop_last());
        assert(all.last() == more[more.len() - 1]);
        try_filter_map_stays_terminated(trace, more.drop_last());
        match try_filter_map_progress(all.last()) {
            Progress::Return(outcome) => {
                assert(try_filter_map_outcomes(all).drop_last() == try_filter_map_outcomes(
                    all.drop_last(),
                ));
            },
            Progress::Continue => {},
        }
    }
}

} // verus!
