//! `or_else`: recover from the errors of a stream by an asynchronous step.

use vstd::prelude::*;
use core::future::Future;
use core::task::Context;
use crate::poll::{source_items, yielded, Action, Event, Poll, Progress};
use crate::sink::Sink;

verus! {

/// Stream combinator that lets the successes of its source pass and hands
/// every error to a recovery function, yielding what the resulting step
/// resolves to in the error's place.
#[must_use]
pub struct OrElse<St, Fut, F> {
    stream: St,
    future: Option<Fut>,
    f: F,
}

impl<St, Fut, F> OrElse<St, Fut, F> {
    /// The wrapped source.
    pub closed spec fn source(&self) -> St {
        self.stream
    }

    /// The suspended recovery, if there is one.
    pub closed spec fn in_flight(&self) -> Option<Fut> {
        self.future
    }

    /// The recovery function.
    pub closed spec fn step_fn(&self) -> F {
        self.f
    }

    /// Wraps `stream`; no recovery is in flight.
    pub fn new<E>(stream: St, f: F) -> (r: Self)
        where F: FnMut(E) -> Fut
        ensures
            r.source() == stream,
            r.in_flight() is None,
            r.step_fn() == f,
    {
        OrElse { stream, future: None, f }
    }

    /// The source this combinator pulls from.
    pub fn get_ref(&self) -> (r: &St)
        ensures
            *r == self.source(),
    {
        &self.stream
    }

    /// The source this combinator pulls from, for mutation. Whatever the
    /// caller leaves there is the source from then on; the step slot and the
    /// recovery function are untouched.
    pub fn get_mut(&mut self) -> (r: &mut St)
        ensures
            *r == old(self).source(),
            final(self).source() == *final(r),
            final(self).in_flight() == old(self).in_flight(),
            final(self).step_fn() == old(self).step_fn(),
    {
        &mut self.stream
    }

    /// The suspended step, if there is one.
    pub fn step_ref(&self) -> (r: Option<&Fut>)
        ensures
            r is Some <==> self.in_flight() is Some,
            r matches Some(fut) ==> *fut == self.in_flight().unwrap(),
    {
        match &self.future {
            Some(fut) => Some(fut),
            None => None,
        }
    }

    /// Gives the source back and drops a recovery that may be in flight.
    pub fn into_inner(self) -> (r: St)
        ensures
            r == self.source(),
    {
        self.stream
    }

    /// Whether the stream has ended for good: no recovery is in flight and
    /// the source reports that it has terminated.
    pub fn is_terminated(&self, source_terminated: bool) -> (r: bool)
        ensures
            r == (self.in_flight() is None && source_terminated),
    {
        self.future.is_none() && source_terminated
    }

    /// What the driver must poll next: the source while the slot is empty,
    /// the recovery while it is full.
    pub fn next_action(&self) -> (r: Action)
        ensures
            r == (if self.in_flight() is Some { Action::PollStep } else { Action::PollSource }),
    {
        if self.future.is_none() {
            Action::PollSource
        } else {
            Action::PollStep
        }
    }

    /// Takes the outcome of polling the source while no recovery is in
    /// flight.
    ///
    /// A suspended or exhausted source, and a success, end the poll call with
    /// that outcome: a success never reaches the recovery function. An error
    /// is handed to it, and the step it returns is stored; the poll call goes
    /// on with polling that step.
    pub fn source_polled<T, E, E2>(&mut self, polled: Poll<Option<Result<T, E>>>) -> (r: Progress<
        Result<T, E2>,
    >)
        where F: FnMut(E) -> Fut, Fut: Future<Output = Result<T, E2>>
        requires
            old(self).in_flight() is None,
            polled matches Poll::Ready(Some(Err(e))) ==> old(self).step_fn().requires((e,)),
        ensures
            final(self).source() == old(self).source(),
            r == or_else_on_source::<T, E, E2>(polled),
            final(self).in_flight() is Some <==> r is Continue,
            final(self).step_fn() == old(self).step_fn(),
            polled matches Poll::Ready(Some(Err(e))) ==> old(self).step_fn().ensures(
                (e,),
                final(self).in_flight().unwrap(),
            ),
    {
        match polled {
            Poll::Pending => Progress::Return(Poll::Pending),
            Poll::Ready(None) => Progress::Return(Poll::Ready(None)),
            Poll::Ready(Some(Ok(value))) => Progress::Return(Poll::Ready(Some(Ok(value)))),
            Poll::Ready(Some(Err(e))) => {
                let fut = (self.f)(e);
                self.future = Some(fut);
                Progress::Continue
            },
        }
    }

    /// The suspended recovery, for the driver to poll.
    pub fn step_mut(&mut self) -> (r: &mut Fut)
        requires
            old(self).in_flight() is Some,
        ensures
            *r == old(self).in_flight().unwrap(),
            final(self).in_flight() == Some(*final(r)),
            final(self).source() == old(self).source(),
            final(self).step_fn() == old(self).step_fn(),
    {
        match &mut self.future {
            Some(fut) => fut,
            None => unreached(),
        }
    }

    /// Takes the outcome of polling the suspended recovery.
    ///
    /// A suspended recovery stays in its slot. A resolved one is dropped and
    /// its result, success or error, is the stream's next item. Either way
    /// the poll call returns.
    pub fn step_polled(&mut self, polled: Poll<Fut::Output>) -> (r: Poll<Option<Fut::Output>>)
        where Fut: Future
        requires
            old(self).in_flight() is Some,
        ensures
            final(self).source() == old(self).source(),
            final(self).step_fn() == old(self).step_fn(),
            r == or_else_on_step(polled),
            final(self).in_flight() is Some <==> polled is Pending,
            polled is Pending ==> final(self).in_flight() == old(self).in_flight(),
    {
        match polled {
            Poll::Pending => Poll::Pending,
            Poll::Ready(result) => {
                self.future = None;
                Poll::Ready(Some(result))
            },
        }
    }
}

/// The sink half of a wrapped source passes through unchanged: every
/// operation is the source's own, with the source's error, and touches
/// nothing else in the combinator.
impl<S, Fut, F, Item> Sink<Item> for OrElse<S, Fut, F> where S: Sink<Item> {
    type SinkError = S::SinkError;

    open spec fn ready_step(before: Self, after: Self, r: Poll<Result<(), S::SinkError>>) -> bool {
        S::ready_step(before.source(), after.source(), r) && after.in_flight() == before.in_flight() && after.step_fn() == before.step_fn()
    }

    open spec fn send_step(before: Self, item: Item, after: Self, r: Result<(), S::SinkError>) -> bool {
        S::send_step(before.source(), item, after.source(), r) && after.in_flight() == before.in_flight() && after.step_fn() == before.step_fn()
    }

    open spec fn flush_step(before: Self, after: Self, r: Poll<Result<(), S::SinkError>>) -> bool {
        S::flush_step(before.source(), after.source(), r) && after.in_flight() == before.in_flight() && after.step_fn() == before.step_fn()
    }

    open spec fn close_step(before: Self, after: Self, r: Poll<Result<(), S::SinkError>>) -> bool {
        S::close_step(before.source(), after.source(), r) && after.in_flight() == before.in_flight() && after.step_fn() == before.step_fn()
    }

    fn poll_ready(&mut self, cx: &mut Context<'_>) -> (r: Poll<Result<(), S::SinkError>>) {
        self.stream.poll_ready(cx)
    }

    fn start_send(&mut self, item: Item) -> (r: Result<(), S::SinkError>) {
        self.stream.start_send(item)
    }

    fn poll_flush(&mut self, cx: &mut Context<'_>) -> (r: Poll<Result<(), S::SinkError>>) {
        self.stream.poll_flush(cx)
    }

    fn poll_close(&mut self, cx: &mut Context<'_>) -> (r: Poll<Result<(), S::SinkError>>) {
        self.stream.poll_close(cx)
    }
}

/// What the outcome of polling the source means for the poll call: an error
/// starts a recovery and the call goes on, anything else is returned as it
/// is.
pub open spec fn or_else_on_source<T, E, E2>(polled: Poll<Option<Result<T, E>>>) -> Progress<
    Result<T, E2>,
> {
    match polled {
        Poll::Pending => Progress::Return(Poll::Pending),
        Poll::Ready(None) => Progress::Return(Poll::Ready(None)),
        Poll::Ready(Some(Ok(value))) => Progress::Return(Poll::Ready(Some(Ok(value)))),
        Poll::Ready(Some(Err(_))) => Progress::Continue,
    }
}

/// What the poll call returns once the recovery has been polled.
pub open spec fn or_else_on_step<Out>(polled: Poll<Out>) -> Poll<Option<Out>> {
    match polled {
        Poll::Pending => Poll::Pending,
        Poll::Ready(result) => Poll::Ready(Some(result)),
    }
}

/// What `event` means for the poll call in which it arrives.
pub open spec fn or_else_progress<T, E, E2>(
    event: Event<Result<T, E>, Result<T, E2>>,
) -> Progress<Result<T, E2>> {
    match event {
        Event::Source(polled) => or_else_on_source(polled),
        Event::Step(polled) => Progress::Return(or_else_on_step(polled)),
    }
}

/// Whether a recovery is in flight once the events of `trace` have been
/// taken, starting with an empty slot.
pub open spec fn or_else_busy<T, E, E2>(trace: Seq<Event<Result<T, E>, Result<T, E2>>>) -> bool {
    trace.len() > 0 && match trace.last() {
        Event::Source(polled) => or_else_on_source::<T, E, E2>(polled) is Continue,
        Event::Step(polled) => polled is Pending,
    }
}

/// Whether `trace` is a run that a driver can produce: every event answers
/// the action that the combinator asked for at that point.
pub open spec fn or_else_valid<T, E, E2>(trace: Seq<Event<Result<T, E>, Result<T, E2>>>) -> bool
    decreases trace.len(),
{
    trace.len() == 0 || (or_else_valid(trace.drop_last()) && (or_else_busy(trace.drop_last())
        <==> trace.last() is Step))
}

/// The outcomes of the poll calls that returned in the course of `trace`.
pub open spec fn or_else_outcomes<T, E, E2>(
    trace: Seq<Event<Result<T, E>, Result<T, E2>>>,
) -> Seq<Poll<Option<Result<T, E2>>>>
    decreases trace.len(),
{
    if trace.len() == 0 {
        Seq::empty()
    } else {
        let before = or_else_outcomes(trace.drop_last());
        match or_else_progress(trace.last()) {
            Progress::Return(outcome) => before.push(outcome),
            Progress::Continue => before,
        }
    }
}

/// The error whose recovery is in flight after `trace`.
pub open spec fn or_else_stepping<T, E, E2>(
    trace: Seq<Event<Result<T, E>, Result<T, E2>>>,
) -> Option<E>
    decreases trace.len(),
{
    if trace.len() == 0 {
        None
    } else {
        match trace.last() {
            Event::Source(Poll::Ready(Some(Err(e)))) => Some(e),
            Event::Source(_) => None,
            Event::Step(Poll::Pending) => or_else_stepping(trace.drop_last()),
            Event::Step(Poll::Ready(_)) => None,
        }
    }
}

/// Whether every recovery that resolves in `trace` resolves to `g` of the
/// error it was started for.
pub open spec fn or_else_resolves_by<T, E, E2>(
    trace: Seq<Event<Result<T, E>, Result<T, E2>>>,
    g: spec_fn(E) -> Result<T, E2>,
) -> bool
    decreases trace.len(),
{
    trace.len() == 0 || (or_else_resolves_by(trace.drop_last(), g) && (
    trace.last() matches Event::Step(Poll::Ready(result)) ==> or_else_stepping(
        trace.drop_last(),
    ) matches Some(e) && result == g(e)))
}

/// What stands downstream for one item of the source: a success as it is,
/// an error as the recovery `g` answers it.
pub open spec fn recovered<T, E, E2>(item: Result<T, E>, g: spec_fn(E) -> Result<T, E2>) -> Result<
    T,
    E2,
> {
    match item {
        Ok(value) => Ok(value),
        Err(e) => g(e),
    }
}

/// Error recovery keeps count and order. In every run, the items yielded
/// downstream are the source's items, one for one and in the source's order,
/// with every success untouched and every error replaced by what its
/// recovery resolved to; the only source item not yet answered is an error
/// whose recovery is still in flight.
pub proof fn or_else_recovers_in_order<T, E, E2>(
    trace: Seq<Event<Result<T, E>, Result<T, E2>>>,
    g: spec_fn(E) -> Result<T, E2>,
)
    requires
        or_else_valid(trace),
        or_else_resolves_by(trace, g),
    ensures
        source_items(trace).len() == yielded(or_else_outcomes(trace)).len() + (if or_else_busy(
            trace,
        ) {
            1nat
        } else {
            0nat
        }),
        yielded(or_else_outcomes(trace)) == source_items(trace).take(
            yielded(or_else_outcomes(trace)).len() as int,
        ).map_values(|item: Result<T, E>| recovered(item, g)),
        or_else_busy(trace) ==> source_items(trace).last() is Err && or_else_stepping(trace)
            == Some(source_items(trace).last()->Err_0),
    decreases trace.len(),
{
    let h = |item: Result<T, E>| recovered(item, g);
    if trace.len() > 0 {
        let before = trace.drop_last();
        or_else_recovers_in_order(before, g);
        let xs0 = source_items(before);
        let xs = source_items(trace);
        let out0 = or_else_outcomes(before);
        let out = or_else_outcomes(trace);
        let ys0 = yielded(out0);
        let ys = yielded(out);
        match trace.last() {
            Event::Source(polled) => {
                match or_else_on_source::<T, E, E2>(polled) {
                    Progress::Return(outcome) => {
                        assert(out.drop_last() == out0);
                        match polled {
                            Poll::Ready(Some(item)) => {
                                assert(xs.take(ys.len() as int) == xs0.take(
                                    ys0.len() as int,
                                ).push(item));
                                assert(ys =~= xs.take(ys.len() as int).map_values(h));
                            },
                            _ => {},
                        }
                    },
                    Progress::Continue => {
                        assert(xs.take(ys.len() as int) == xs0.take(ys0.len() as int));
                    },
                }
            },
            Event::Step(Poll::Pending) => {
                assert(out.drop_last() == out0);
            },
            Event::Step(Poll::Ready(result)) => {
                assert(out.drop_last() == out0);
                assert(ys == ys0.push(result));
                assert(xs.take(ys.len() as int) == xs0.take(ys0.len() as int).push(xs0.last()));
                assert(ys =~= xs.take(ys.len() as int).map_values(h));
            },
        }
    } else {
        assert(yielded(or_else_outcomes(trace)) =~= source_items(trace).take(0).map_values(h));
    }
}

/// Fused idempotence. Once no recovery is in flight and the source has
/// terminated, so that polling it brings no further item, the combinator
/// stays terminated through any number of further events and yields nothing
/// more.
pub proof fn or_else_stays_terminated<T, E, E2>(
    trace: Seq<Event<Result<T, E>, Result<T, E2>>>,
    more: Seq<Event<Result<T, E>, Result<T, E2>>>,
)
    requires
        or_else_valid(trace + more),
        !or_else_busy(trace),
        forall|i: int|
            0 <= i < more.len() ==> !(#[trigger] more[i] matches Event::Source(Poll::Ready(Some(_)))),
    ensures
        !or_else_busy(trace + more),
        yielded(or_else_outcomes(trace + more)) == yielded(or_else_outcomes(trace)),
        source_items(trace + more) == source_items(trace),
    decreases more.len(),
{
    if more.len() == 0 {
        assert(trace + more == trace);
    } else {
        let all = trace + more;
        assert(all.drop_last() == trace + more.drop_last());
        assert(all.last() == more[more.len() - 1]);
        or_else_stays_terminated(trace, more.drop_last());
        match or_else_progress(all.last()) {
            Progress::Return(outcome) => {
                assert(or_else_outcomes(all).drop_last() == or_else_outcomes(all.drop_last()));
            },
            Progress::Continue => {},
        }
    }
}

} // verus!
