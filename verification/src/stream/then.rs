//! `then`: run an asynchronous step on every item of a stream.

use vstd::prelude::*;
use core::future::Future;
use core::task::Context;
use crate::poll::{source_items, yielded, Action, Event, Poll, Progress};
use crate::sink::Sink;

verus! {

/// Stream combinator that hands every item of its source to a step function
/// and yields what the resulting step resolves to.
#[must_use]
pub struct Then<St, Fut, F> {
    stream: St,
    future: Option<Fut>,
    f: F,
}

impl<St, Fut, F> Then<St, Fut, F> {
    /// The wrapped source.
    pub closed spec fn source(&self) -> St {
        self.stream
    }

    /// The suspended step, if there is one.
    pub closed spec fn in_flight(&self) -> Option<Fut> {
        self.future
    }

    /// The step function.
    pub closed spec fn step_fn(&self) -> F {
        self.f
    }

    /// Wraps `stream`; no step is in flight.
    pub fn new<Item>(stream: St, f: F) -> (r: Self)
        where F: FnMut(Item) -> Fut
        ensures
            r.source() == stream,
            r.in_flight() is None,
            r.step_fn() == f,
    {
        Then { stream, future: None, f }
    }

    /// The source this combinator pulls from.
    pub fn get_ref(&self) -> (r: &St)
        ensures
            *r == self.source(),
    {
        &self.stream
    }

    /// The source this combinator pulls from, for mutation. Whatever the
    /// caller leaves there is the source from then on; the step slot and the
    /// step function are untouched.
    pub fn get_mut(&mut self) -> (r: &mut St)
        ensures
            *r == old(self).source(),
            final(self).source() == *final(r),
            final(self).in_flight() == old(self).in_flight(),
            final(self).step_fn() == old(self).step_fn(),
    {
        &mut self.stream
    }

    /// The suspended step, if there is one.
    pub fn step_ref(&self) -> (r: Option<&Fut>)
        ensures
            r is Some <==> self.in_flight() is Some,
            r matches Some(fut) ==> *fut == self.in_flight().unwrap(),
    {
        match &self.future {
            Some(fut) => Some(fut),
            None => None,
        }
    }

    /// Gives the source back and drops a step that may be in flight.
    pub fn into_inner(self) -> (r: St)
        ensures
            r == self.source(),
    {
        self.stream
    }

    /// Whether the stream has ended for good: no step is in flight and the
    /// source reports that it has terminated.
    pub fn is_terminated(&self, source_terminated: bool) -> (r: bool)
        ensures
            r == (self.in_flight() is None && source_terminated),
    {
        self.future.is_none() && source_terminated
    }

    /// What the driver must poll next: the source while the slot is empty,
    /// the step while it is full.
    pub fn next_action(&self) -> (r: Action)
        ensures
            r == (if self.in_flight() is Some { Action::PollStep } else { Action::PollSource }),
    {
        if self.future.is_none() {
            Action::PollSource
        } else {
            Action::PollStep
        }
    }

    /// Takes the outcome of polling the source while no step is in flight.
    ///
    /// A suspended or exhausted source ends the poll call with that outcome.
    /// An item is handed to the step function, and the step it returns is
    /// stored; the poll call goes on with polling that step.
    pub fn source_polled<Item>(&mut self, polled: Poll<Option<Item>>) -> (r: Progress<Fut::Output>)
        where F: FnMut(Item) -> Fut, Fut: Future
        requires
            old(self).in_flight() is None,
            polled matches Poll::Ready(Some(item)) ==> old(self).step_fn().requires((item,)),
        ensures
            final(self).source() == old(self).source(),
            r == then_on_source::<Item, Fut::Output>(polled),
            final(self).in_flight() is Some <==> r is Continue,
            final(self).step_fn() == old(self).step_fn(),
            polled matches Poll::Ready(Some(item)) ==> old(self).step_fn().ensures(
                (item,),
                final(self).in_flight().unwrap(),
            ),
    {
        match polled {
            Poll::Pending => Progress::Return(Poll::Pending),
            Poll::Ready(None) => Progress::Return(Poll::Ready(None)),
            Poll::Ready(Some(item)) => {
                let fut = (self.f)(item);
                self.future = Some(fut);
                Progress::Continue
            },
        }
    }

    /// The suspended step, for the driver to poll.
    pub fn step_mut(&mut self) -> (r: &mut Fut)
        requires
            old(self).in_flight() is Some,
        ensures
            *r == old(self).in_flight().unwrap(),
            final(self).in_flight() == Some(*final(r)),
            final(self).source() == old(self).source(),
            final(self).step_fn() == old(self).step_fn(),
    {
        match &mut self.future {
            Some(fut) => fut,
            None => unreached(),
        }
    }

    /// Takes the outcome of polling the suspended step.
    ///
    /// A suspended step stays in its slot. A resolved one is dropped and its
    /// value is the stream's next item. Either way the poll call returns.
    pub fn step_polled(&mut self, polled: Poll<Fut::Output>) -> (r: Poll<Option<Fut::Output>>)
        where Fut: Future
        requires
            old(self).in_flight() is Some,
        ensures
            final(self).source() == old(self).source(),
            final(self).step_fn() == old(self).step_fn(),
            r == then_on_step(polled),
            final(self).in_flight() is Some <==> polled is Pending,
            polled is Pending ==> final(self).in_flight() == old(self).in_flight(),
    {
        match polled {
            Poll::Pending => Poll::Pending,
            Poll::Ready(value) => {
                self.future = None;
                Poll::Ready(Some(value))
            },
        }
    }
}

/// The sink half of a wrapped source passes through unchanged: every
/// operation is the source's own, with the source's error, and touches
/// nothing else in the combinator.
impl<S, Fut, F, Item> Sink<Item> for Then<S, Fut, F> where S: Sink<Item> {
    type SinkError = S::SinkError;

    open spec fn ready_step(before: Self, after: Self, r: Poll<Result<(), S::SinkError>>) -> bool {
        S::ready_step(before.source(), after.source(), r) && after.in_flight() == before.in_flight() && after.step_fn() == before.step_fn()
    }

    open spec fn send_step(before: Self, item: Item, after: Self, r: Result<(), S::SinkError>) -> bool {
        S::send_step(before.source(), item, after.source(), r) && after.in_flight() == before.in_flight() && after.step_fn() == before.step_fn()
    }

    open spec fn flush_step(before: Self, after: Self, r: Poll<Result<(), S::SinkError>>) -> bool {
        S::flush_step(before.source(), after.source(), r) && after.in_flight() == before.in_flight() && after.step_fn() == before.step_fn()
    }

    open spec fn close_step(before: Self, after: Self, r: Poll<Result<(), S::SinkError>>) -> bool {
        S::close_step(before.source(), after.source(), r) && after.in_flight() == before.in_flight() && after.step_fn() == before.step_fn()
    }

    fn poll_ready(&mut self, cx: &mut Context<'_>) -> (r: Poll<Result<(), S::SinkError>>) {
        self.stream.poll_ready(cx)
    }

    fn start_send(&mut self, item: Item) -> (r: Result<(), S::SinkError>) {
        self.stream.start_send(item)
    }

    fn poll_flush(&mut self, cx: &mut Context<'_>) -> (r: Poll<Result<(), S::SinkError>>) {
        self.stream.poll_flush(cx)
    }

    fn poll_close(&mut self, cx: &mut Context<'_>) -> (r: Poll<Result<(), S::SinkError>>) {
        self.stream.poll_close(cx)
    }
}

/// What the outcome of polling the source means for the poll call: an item
/// starts a step and the call goes on, anything else is returned as it is.
pub open spec fn then_on_source<Item, Out>(polled: Poll<Option<Item>>) -> Progress<Out> {
    match polled {
        Poll::Pending => Progress::Return(Poll::Pending),
        Poll::Ready(None) => Progress::Return(Poll::Ready(None)),
        Poll::Ready(Some(_)) => Progress::Continue,
    }
}

/// What the poll call returns once the step has been polled.
pub open spec fn then_on_step<Out>(polled: Poll<Out>) -> Poll<Option<Out>> {
    match polled {
        Poll::Pending => Poll::Pending,
        Poll::Ready(value) => Poll::Ready(Some(value)),
    }
}

/// What `event` means for the poll call in which it arrives.
pub open spec fn then_progress<Item, Out>(event: Event<Item, Out>) -> Progress<Out> {
    match event {
        Event::Source(polled) => then_on_source(polled),
        Event::Step(polled) => Progress::Return(then_on_step(polled)),
    }
}

/// Whether a step is in flight once the events of `trace` have been taken,
/// starting with an empty slot.
pub open spec fn then_busy<Item, Out>(trace: Seq<Event<Item, Out>>) -> bool {
    trace.len() > 0 && match trace.last() {
        Event::Source(polled) => then_on_source::<Item, Out>(polled) is Continue,
        Event::Step(polled) => polled is Pending,
    }
}

/// Whether `trace` is a run that a driver can produce: every event answers
/// the action that the combinator asked for at that point.
pub open spec fn then_valid<Item, Out>(trace: Seq<Event<Item, Out>>) -> bool
    decreases trace.len(),
{
    trace.len() == 0 || (then_valid(trace.drop_last()) && (then_busy(trace.drop_last())
        <==> trace.last() is Step))
}

/// The outcomes of the poll calls that returned in the course of `trace`.
pub open spec fn then_outcomes<Item, Out>(trace: Seq<Event<Item, Out>>) -> Seq<Poll<Option<Out>>>
    decreases trace.len(),
{
    if trace.len() == 0 {
        Seq::empty()
    } else {
        let before = then_outcomes(trace.drop_last());
        match then_progress(trace.last()) {
            Progress::Return(outcome) => before.push(outcome),
            Progress::Continue => before,
        }
    }
}

/// The source item whose step is in flight after `trace`.
pub open spec fn then_stepping<Item, Out>(trace: Seq<Event<Item, Out>>) -> Option<Item>
    decreases trace.len(),
{
    if trace.len() == 0 {
        None
    } else {
        match trace.last() {
            Event::Source(Poll::Ready(Some(item))) => Some(item),
            Event::Source(_) => None,
            Event::Step(Poll::Pending) => then_stepping(trace.drop_last()),
            Event::Step(Poll::Ready(_)) => None,
        }
    }
}

/// Whether every step that resolves in `trace` resolves to `g` of the item
/// it was started for.
pub open spec fn then_resolves_by<Item, Out>(
    trace: Seq<Event<Item, Out>>,
    g: spec_fn(Item) -> Out,
) -> bool
    decreases trace.len(),
{
    trace.len() == 0 || (then_resolves_by(trace.drop_last(), g) && (trace.last() matches Event::Step(
        Poll::Ready(value),
    ) ==> then_stepping(trace.drop_last()) matches Some(item) && value == g(item)))
}

/// Order preservation. In every run, the items yielded downstream are the
/// step results of the source's items, one for one and in the source's
/// order; the only source item not yet answered is the one whose step is
/// still in flight.
pub proof fn then_preserves_order<Item, Out>(trace: Seq<Event<Item, Out>>, g: spec_fn(Item) -> Out)
    requires
        then_valid(trace),
        then_resolves_by(trace, g),
    ensures
        source_items(trace).len() == yielded(then_outcomes(trace)).len() + (if then_busy(trace) {
            1nat
        } else {
            0nat
        }),
        yielded(then_outcomes(trace)) == source_items(trace).take(
            yielded(then_outcomes(trace)).len() as int,
        ).map_values(g),
        then_busy(trace) ==> then_stepping(trace) == Some(source_items(trace).last()),
    decreases trace.len(),
{
    if trace.len() > 0 {
        let before = trace.drop_last();
        then_preserves_order(before, g);
        let xs0 = source_items(before);
        let ys0 = yielded(then_outcomes(before));
        let xs = source_items(trace);
        let ys = yielded(then_outcomes(trace));
        match trace.last() {
            Event::Source(polled) => {
                match then_on_source::<Item, Out>(polled) {
                    Progress::Return(outcome) => {
                        assert(then_outcomes(trace) == then_outcomes(before).push(outcome));
                        assert(then_outcomes(trace).drop_last() == then_outcomes(before));
                        assert(ys == ys0);
                    },
                    Progress::Continue => {
                        assert(xs.take(ys.len() as int) == xs0.take(ys0.len() as int));
                    },
                }
            },
            Event::Step(Poll::Pending) => {
                assert(then_outcomes(trace) == then_outcomes(before).push(Poll::Pending));
                assert(then_outcomes(trace).drop_last() == then_outcomes(before));
            },
            Event::Step(Poll::Ready(value)) => {
                assert(then_outcomes(trace) == then_outcomes(before).push(Poll::Ready(Some(value))));
                assert(then_outcomes(trace).drop_last() == then_outcomes(before));
                assert(ys == ys0.push(value));
                assert(xs == xs0);
                assert(xs.take(ys.len() as int) == xs0.take(ys0.len() as int).push(xs0.last()));
                assert(ys =~= xs.take(ys.len() as int).map_values(g));
            },
        }
    } else {
        assert(then_outcomes(trace) =~= Seq::empty());
        assert(yielded(then_outcomes(trace)) =~= source_items(trace).take(0).map_values(g));
    }
}

/// In a run that ends with no step in flight, the yielded items are exactly
/// the step results of all the source's items, in order.
pub proof fn then_yields_every_item<Item, Out>(trace: Seq<Event<Item, Out>>, g: spec_fn(Item) -> Out)
    requires
        then_valid(trace),
        then_resolves_by(trace, g),
        !then_busy(trace),
    ensures
        yielded(then_outcomes(trace)) == source_items(trace).map_values(g),
{
    then_preserves_order(trace, g);
    let xs = source_items(trace);
    assert(xs.take(xs.len() as int) == xs);
}

/// Fused idempotence. Once no step is in flight and the source has
/// terminated, so that polling it brings no further item, the combinator
/// stays terminated through any number of further events and yields nothing
/// more.
pub proof fn then_stays_terminated<Item, Out>(
    trace: Seq<Event<Item, Out>>,
    more: Seq<Event<Item, Out>>,
)
    requires
        then_valid(trace + more),
        !then_busy(trace),
        forall|i: int| 0 <= i < more.len() ==> !(#[trigger] more[i] matches Event::Source(Poll::Ready(Some(_)))),
    ensures
        !then_busy(trace + more),
        yielded(then_outcomes(trace + more)) == yielded(then_outcomes(trace)),
        source_items(trace + more) == source_items(trace),
    decreases more.len(),
{
    if more.len() == 0 {
        assert(trace + more == trace);
    } else {
        let all = trace + more;
        assert(all.drop_last() == trace + more.drop_last());
        assert(all.last() == more[more.len() - 1]);
        then_stays_terminated(trace, more.drop_last());
        match then_progress(all.last()) {
            Progress::Return(outcome) => {
                assert(then_outcomes(all).drop_last() == then_outcomes(all.drop_last()));
            },
            Progress::Continue => {},
        }
    }
}

} // verus!
