//! `filter_map`: run an asynchronous step on every item of a stream and keep
//! the results that are present.

use vstd::prelude::*;
use core::future::Future;
use core::task::Context;
use crate::poll::{source_items, yielded, Action, Event, Poll, Progress};
use crate::sink::Sink;

verus! {

/// Stream combinator that hands every item of its source to a step function
/// and yields the values that the steps resolve to, leaving out the absent
/// ones.
#[must_use]
pub struct FilterMap<St, Fut, F> {
    stream: St,
    f: F,
    pending: Option<Fut>,
}

impl<St, Fut, F> FilterMap<St, Fut, F> {
    /// The wrapped source.
    pub closed spec fn source(&self) -> St {
        self.stream
    }

    /// The suspended step, if there is one.
    pub closed spec fn in_flight(&self) -> Option<Fut> {
        self.pending
    }

    /// The step function.
    pub closed spec fn step_fn(&self) -> F {
        self.f
    }

    /// Wraps `stream`; no step is in flight.
    pub fn new<Item>(stream: St, f: F) -> (r: Self)
        where F: FnMut(Item) -> Fut
        ensures
            r.source() == stream,
            r.in_flight() is None,
            r.step_fn() == f,
    {
        FilterMap { stream, f, pending: None }
    }

    /// The source this combinator pulls from.
    pub fn get_ref(&self) -> (r: &St)
        ensures
            *r == self.source(),
    {
        &self.stream
    }

    /// The source this combinator pulls from, for mutation. Whatever the
    /// caller leaves there is the source from then on; the step slot and the
    /// step function are untouched.
    pub fn get_mut(&mut self) -> (r: &mut St)
        ensures
            *r == old(self).source(),
            final(self).source() == *final(r),
            final(self).in_flight() == old(self).in_flight(),
            final(self).step_fn() == old(self).step_fn(),
    {
        &mut self.stream
    }

    /// The suspended step, if there is one.
    pub fn step_ref(&self) -> (r: Option<&Fut>)
        ensures
            r is Some <==> self.in_flight() is Some,
            r matches Some(fut) ==> *fut == self.in_flight().unwrap(),
    {
        match &self.pending {
            Some(fut) => Some(fut),
            None => None,
        }
    }

    /// Gives the source back and drops a step that may be in flight.
    pub fn into_inner(self) -> (r: St)
        ensures
            r == self.source(),
    {
        self.stream
    }

    /// Whether the stream has ended for good: no step is in flight and the
    /// source reports that it has terminated.
    pub fn is_terminated(&self, source_terminated: bool) -> (r: bool)
        ensures
            r == (self.in_flight() is None && source_terminated),
    {
        self.pending.is_none() && source_terminated
    }

    /// What the driver must poll next: the source while the slot is empty,
    /// the step while it is full.
    pub fn next_action(&self) -> (r: Action)
        ensures
            r == (if self.in_flight() is Some { Action::PollStep } else { Action::PollSource }),
    {
        if self.pending.is_none() {
            Action::PollSource
        } else {
            Action::PollStep
        }
    }

    /// Takes the outcome of polling the source while no step is in flight.
    ///
    /// A suspended or exhausted source ends the poll call with that outcome.
    /// An item is handed to the step function, and the step it returns is
    /// stored; the poll call goes on with polling that step.
    pub fn source_polled<Item, T>(&mut self, polled: Poll<Option<Item>>) -> (r: Progress<T>)
        where F: FnMut(Item) -> Fut, Fut: Future<Output = Option<T>>
        requires
            old(self).in_flight() is None,
            polled matches Poll::Ready(Some(item)) ==> old(self).step_fn().requires((item,)),
        ensures
            final(self).source() == old(self).source(),
            r == filter_map_on_source::<Item, T>(polled),
            final(self).in_flight() is Some <==> r is Continue,
            final(self).step_fn() == old(self).step_fn(),
            polled matches Poll::Ready(Some(item)) ==> old(self).step_fn().ensures(
                (item,),
                final(self).in_flight().unwrap(),
            ),
    {
        match polled {
            Poll::Pending => Progress::Return(Poll::Pending),
            Poll::Ready(None) => Progress::Return(Poll::Ready(None)),
            Poll::Ready(Some(item)) => {
                let fut = (self.f)(item);
                self.pending = Some(fut);
                Progress::Continue
            },
        }
    }

    /// The suspended step, for the driver to poll.
    pub fn step_mut(&mut self) -> (r: &mut Fut)
        requires
            old(self).in_flight() is Some,
        ensures
            *r == old(self).in_flight().unwrap(),
            final(self).in_flight() == Some(*final(r)),
            final(self).source() == old(self).source(),
            final(self).step_fn() == old(self).step_fn(),
    {
        match &mut self.pending {
            Some(fut) => fut,
            None => unreached(),
        }
    }

    /// Takes the outcome of polling the suspended step.
    ///
    /// A suspended step stays in its slot and the poll call returns. A
    /// resolved one is dropped: a value that is present is the stream's next
    /// item, an absent one yields nothing and the poll call goes on with the
    /// source.
    pub fn step_polled<T>(&mut self, polled: Poll<Option<T>>) -> (r: Progress<T>)
        where Fut: Future<Output = Option<T>>
        requires
            old(self).in_flight() is Some,
        ensures
            final(self).source() == old(self).source(),
            final(self).step_fn() == old(self).step_fn(),
            r == filter_map_on_step(polled),
            final(self).in_flight() is Some <==> polled is Pending,
            polled is Pending ==> final(self).in_flight() == old(self).in_flight(),
    {
        match polled {
            Poll::Pending => Progress::Return(Poll::Pending),
            Poll::Ready(item) => {
                self.pending = None;
                if item.is_some() {
                    Progress::Return(Poll::Ready(item))
                } else {
                    Progress::Continue
                }
            },
        }
    }
}

/// The sink half of a wrapped source passes through unchanged: every
/// operation is the source's own, with the source's error, and touches
/// nothing else in the combinator.
impl<S, Fut, F, Item> Sink<Item> for FilterMap<S, Fut, F> where S: Sink<Item> {
    type SinkError = S::SinkError;

    open spec fn ready_step(before: Self, after: Self, r: Poll<Result<(), S::SinkError>>) -> bool {
        S::ready_step(before.source(), after.source(), r) && after.in_flight() == before.in_flight() && after.step_fn() == before.step_fn()
    }

    open spec fn send_step(before: Self, item: Item, after: Self, r: Result<(), S::SinkError>) -> bool {
        S::send_step(before.source(), item, after.source(), r) && after.in_flight() == before.in_flight() && after.step_fn() == before.step_fn()
    }

    open spec fn flush_step(before: Self, after: Self, r: Poll<Result<(), S::SinkError>>) -> bool {
        S::flush_step(before.source(), after.source(), r) && after.in_flight() == before.in_flight() && after.step_fn() == before.step_fn()
    }

    open spec fn close_step(before: Self, after: Self, r: Poll<Result<(), S::SinkError>>) -> bool {
        S::close_step(before.source(), after.source(), r) && after.in_flight() == before.in_flight() && after.step_fn() == before.step_fn()
    }

    fn poll_ready(&mut self, cx: &mut Context<'_>) -> (r: Poll<Result<(), S::SinkError>>) {
        self.stream.poll_ready(cx)
    }

    fn start_send(&mut self, item: Item) -> (r: Result<(), S::SinkError>) {
        self.stream.start_send(item)
    }

    fn poll_flush(&mut self, cx: &mut Context<'_>) -> (r: Poll<Result<(), S::SinkError>>) {
        self.stream.poll_flush(cx)
    }

    fn poll_close(&mut self, cx: &mut Context<'_>) -> (r: Poll<Result<(), S::SinkError>>) {
        self.stream.poll_close(cx)
    }
}

/// What the outcome of polling the source means for the poll call: an item
/// starts a step and the call goes on, anything else is returned as it is.
pub open spec fn filter_map_on_source<Item, T>(polled: Poll<Option<Item>>) -> Progress<T> {
    match polled {
        Poll::Pending => Progress::Return(Poll::Pending),
        Poll::Ready(None) => Progress::Return(Poll::Ready(None)),
        Poll::Ready(Some(_)) => Progress::Continue,
    }
}

/// What the outcome of polling the step means for the poll call: a present
/// value is yielded, an absent one sends the call back to the source.
pub open spec fn filter_map_on_step<T>(polled: Poll<Option<T>>) -> Progress<T> {
    match polled {
        Poll::Pending => Progress::Return(Poll::Pending),
        Poll::Ready(Some(value)) => Progress::Return(Poll::Ready(Some(value))),
        Poll::Ready(None) => Progress::Continue,
    }
}

/// What `event` means for the poll call in which it arrives.
pub open spec fn filter_map_progress<Item, T>(event: Event<Item, Option<T>>) -> Progress<T> {
    match event {
        Event::Source(polled) => filter_map_on_source(polled),
        Event::Step(polled) => filter_map_on_step(polled),
    }
}

/// Whether a step is in flight once the events of `trace` have been taken,
/// starting with an empty slot.
pub open spec fn filter_map_busy<Item, T>(trace: Seq<Event<Item, Option<T>>>) -> bool {
    trace.len() > 0 && match trace.last() {
        Event::Source(polled) => filter_map_on_source::<Item, T>(polled) is Continue,
        Event::Step(polled) => polled is Pending,
    }
}

/// Whether `trace` is a run that a driver can produce: every event answers
/// the action that the combinator asked for at that point.
pub open spec fn filter_map_valid<Item, T>(trace: Seq<Event<Item, Option<T>>>) -> bool
    decreases trace.len(),
{
    trace.len() == 0 || (filter_map_valid(trace.drop_last()) && (filter_map_busy(
        trace.drop_last(),
    ) <==> trace.last() is Step))
}

/// The outcomes of the poll calls that returned in the course of `trace`.
pub open spec fn filter_map_outcomes<Item, T>(trace: Seq<Event<Item, Option<T>>>) -> Seq<
    Poll<Option<T>>,
>
    decreases trace.len(),
{
    if trace.len() == 0 {
        Seq::empty()
    } else {
        let before = filter_map_outcomes(trace.drop_last());
        match filter_map_progress(trace.last()) {
            Progress::Return(outcome) => before.push(outcome),
            Progress::Continue => before,
        }
    }
}

/// The source item whose step is in flight after `trace`.
pub open spec fn filter_map_stepping<Item, T>(trace: Seq<Event<Item, Option<T>>>) -> Option<Item>
    decreases trace.len(),
{
    if trace.len() == 0 {
        None
    } else {
        match trace.last() {
            Event::Source(Poll::Ready(Some(item))) => Some(item),
            Event::Source(_) => None,
            Event::Step(Poll::Pending) => filter_map_stepping(trace.drop_last()),
            Event::Step(Poll::Ready(_)) => None,
        }
    }
}

/// Whether every step that resolves in `trace` resolves to `g` of the item
/// it was started for.
pub open spec fn filter_map_resolves_by<Item, T>(
    trace: Seq<Event<Item, Option<T>>>,
    g: spec_fn(Item) -> Option<T>,
) -> bool
    decreases trace.len(),
{
    trace.len() == 0 || (filter_map_resolves_by(trace.drop_last(), g) && (
    trace.last() matches Event::Step(Poll::Ready(value)) ==> filter_map_stepping(
        trace.drop_last(),
    ) matches Some(item) && value == g(item)))
}

/// The number of steps that resolved in the course of `trace`.
pub open spec fn steps_resolved<Item, Out>(trace: Seq<Event<Item, Out>>) -> nat
    decreases trace.len(),
{
    if trace.len() == 0 {
        0
    } else {
        steps_resolved(trace.drop_last()) + (if trace.last() matches Event::Step(Poll::Ready(_)) {
            1nat
        } else {
            0nat
        })
    }
}

/// The values that are present in `results`, in order.
pub open spec fn present<T>(results: Seq<Option<T>>) -> Seq<T>
    decreases results.len(),
{
    if results.len() == 0 {
        Seq::empty()
    } else {
        let before = present(results.drop_last());
        match results.last() {
            Some(value) => before.push(value),
            None => before,
        }
    }
}

/// Filtering correctness. In every run, the items yielded downstream are
/// exactly the present step results of the source's items, in the source's
/// order. Every source item has had its step started, absent result or not:
/// the steps that resolved and the one in flight account for all of them.
pub proof fn filter_map_keeps_present<Item, T>(
    trace: Seq<Event<Item, Option<T>>>,
    g: spec_fn(Item) -> Option<T>,
)
    requires
        filter_map_valid(trace),
        filter_map_resolves_by(trace, g),
    ensures
        source_items(trace).len() == steps_resolved(trace) + (if filter_map_busy(trace) {
            1nat
        } else {
            0nat
        }),
        yielded(filter_map_outcomes(trace)) == present(
            source_items(trace).take(steps_resolved(trace) as int).map_values(g),
        ),
        filter_map_busy(trace) ==> filter_map_stepping(trace) == Some(source_items(trace).last()),
    decreases trace.len(),
{
    if trace.len() > 0 {
        let before = trace.drop_last();
        filter_map_keeps_present(before, g);
        let xs0 = source_items(before);
        let n0 = steps_resolved(before) as int;
        let xs = source_items(trace);
        let n = steps_resolved(trace) as int;
        let out0 = filter_map_outcomes(before);
        let out = filter_map_outcomes(trace);
        match trace.last() {
            Event::Source(polled) => {
                match filter_map_on_source::<Item, T>(polled) {
                    Progress::Return(outcome) => {
                        assert(out.drop_last() == out0);
                    },
                    Progress::Continue => {
                        assert(xs.take(n) == xs0.take(n0));
                    },
                }
            },
            Event::Step(Poll::Pending) => {
                assert(out.drop_last() == out0);
            },
            Event::Step(Poll::Ready(result)) => {
                let results0 = xs0.take(n0).map_values(g);
                let results = xs.take(n).map_values(g);
                assert(xs.take(n) == xs0.take(n0).push(xs0.last()));
                assert(results =~= results0.push(result));
                assert(results.drop_last() == results0);
                if result is Some {
                    assert(out.drop_last() == out0);
                }
            },
        }
    } else {
        assert(source_items(trace).take(0).map_values(g) =~= Seq::empty());
    }
}

/// In a run that ends with no step in flight, the yielded items are exactly
/// the present step results of all the source's items, in order.
pub proof fn filter_map_yields_all_present<Item, T>(
    trace: Seq<Event<Item, Option<T>>>,
    g: spec_fn(Item) -> Option<T>,
)
    requires
        filter_map_valid(trace),
        filter_map_resolves_by(trace, g),
        !filter_map_busy(trace),
    ensures
        yielded(filter_map_outcomes(trace)) == present(source_items(trace).map_values(g)),
{
    filter_map_keeps_present(trace, g);
    let xs = source_items(trace);
    assert(xs.take(xs.len() as int) == xs);
}

/// Fused idempotence. Once no step is in flight and the source has
/// terminated, so that polling it brings no further item, the combinator
/// stays terminated through any number of further events and yields nothing
/// more.
pub proof fn filter_map_stays_terminated<Item, T>(
    trace: Seq<Event<Item, Option<T>>>,
    more: Seq<Event<Item, Option<T>>>,
)
    requires
        filter_map_valid(trace + more),
        !filter_map_busy(trace),
        forall|i: int|
            0 <= i < more.len() ==> !(#[trigger] more[i] matches Event::Source(Poll::Ready(Some(_)))),
    ensures
        !filter_map_busy(trace + more),
        yielded(filter_map_outcomes(trace + more)) == yielded(filter_map_outcomes(trace)),
        source_items(trace + more) == source_items(trace),
    decreases more.len(),
{
    if more.len() == 0 {
        assert(trace + more == trace);
    } else {
        let all = trace + more;
        assert(all.drop_last() == trace + more.drop_last());
        assert(all.last() == more[more.len() - 1]);
        filter_map_stays_terminated(trace, more.drop_last());
        match filter_map_progress(all.last()) {
            Progress::Return(outcome) => {
                assert(filter_map_outcomes(all).drop_last() == filter_map_outcomes(all.drop_last()));
            },
            Progress::Continue => {},
        }
    }
}

} // verus!
