//! `try_for_each`: run an asynchronous, fallible step on every success of a
//! stream, one at a time, and stop at the first error.

use vstd::prelude::*;
use core::future::Future;
use crate::poll::{source_items, Action, Event, Poll};

verus! {

/// Future that pulls the successes of a stream and runs a step on each, one
/// after the other. It resolves to the first error, of the source or of a
/// step, and to success once the source is exhausted.
#[must_use]
pub struct TryForEach<St, Fut, F> {
    stream: St,
    f: F,
    future: Option<Fut>,
}

impl<St, Fut, F> TryForEach<St, Fut, F> {
    /// The wrapped source.
    pub closed spec fn source(&self) -> St {
        self.stream
    }

    /// The suspended step, if there is one.
    pub closed spec fn in_flight(&self) -> Option<Fut> {
        self.future
    }

    /// The step function.
    pub closed spec fn step_fn(&self) -> F {
        self.f
    }

    /// Wraps `stream`; no step is in flight.
    pub fn new<T>(stream: St, f: F) -> (r: Self)
        where F: FnMut(T) -> Fut
        ensures
            r.source() == stream,
            r.in_flight() is None,
            r.step_fn() == f,
    {
        TryForEach { stream, f, future: None }
    }

    /// The source, for the driver to poll.
    pub fn get_mut(&mut self) -> (r: &mut St)
        ensures
            *r == old(self).source(),
            final(self).source() == *final(r),
            final(self).in_flight() == old(self).in_flight(),
            final(self).step_fn() == old(self).step_fn(),
    {
        &mut self.stream
    }

    /// What the driver must poll next: the step while one is in flight, the
    /// source else.
    pub fn next_action(&self) -> (r: Action)
        ensures
            r == (if self.in_flight() is Some { Action::PollStep } else { Action::PollSource }),
    {
        if self.future.is_none() {
            Action::PollSource
        } else {
            Action::PollStep
        }
    }

    /// Takes the outcome of polling the source while no step is in flight,
    /// and says what the future resolves to, if the poll call returns now.
    ///
    /// A suspended source suspends the future. An exhausted source resolves
    /// it to success, an error of the source to that error. A success is
    /// handed to the step function, and the step it returns is stored; the
    /// poll call goes on with polling that step.
    pub fn source_polled<T, E>(&mut self, polled: Poll<Option<Result<T, E>>>) -> (r: Option<
        Poll<Result<(), E>>,
    >)
        where F: FnMut(T) -> Fut, Fut: Future<Output = Result<(), E>>
        requires
            old(self).in_flight() is None,
            polled matches Poll::Ready(Some(Ok(value))) ==> old(self).step_fn().requires((value,)),
        ensures
            final(self).source() == old(self).source(),
            final(self).step_fn() == old(self).step_fn(),
            r == for_each_on_source(polled),
            final(self).in_flight() is Some <==> r is None,
            polled matches Poll::Ready(Some(Ok(value))) ==> old(self).step_fn().ensures(
                (value,),
                final(self).in_flight().unwrap(),
            ),
    {
        match polled {
            Poll::Pending => Some(Poll::Pending),
            Poll::Ready(None) => Some(Poll::Ready(Ok(()))),
            Poll::Ready(Some(Err(e))) => Some(Poll::Ready(Err(e))),
            Poll::Ready(Some(Ok(value))) => {
                let fut = (self.f)(value);
                self.future = Some(fut);
                None
            },
        }
    }

    /// The suspended step, for the driver to poll.
    pub fn step_mut(&mut self) -> (r: &mut Fut)
        requires
            old(self).in_flight() is Some,
        ensures
            *r == old(self).in_flight().unwrap(),
            final(self).in_flight() == Some(*final(r)),
            final(self).source() == old(self).source(),
            final(self).step_fn() == old(self).step_fn(),
    {
        match &mut self.future {
            Some(fut) => fut,
            None => unreached(),
        }
    }

    /// Takes the outcome of polling the suspended step, and says what the
    /// future resolves to, if the poll call returns now.
    ///
    /// A suspended step stays in its slot and suspends the future. A step
    /// that finished is dropped: if it failed, the future resolves to its
    /// error; if not, the poll call goes on with the source.
    pub fn step_polled<E>(&mut self, polled: Poll<Result<(), E>>) -> (r: Option<
        Poll<Result<(), E>>,
    >)
        where Fut: Future<Output = Result<(), E>>
        requires
            old(self).in_flight() is Some,
        ensures
            final(self).source() == old(self).source(),
            final(self).step_fn() == old(self).step_fn(),
            r == for_each_on_step(polled),
            final(self).in_flight() is Some <==> polled is Pending,
            polled is Pending ==> final(self).in_flight() == old(self).in_flight(),
    {
        match polled {
            Poll::Pending => Some(Poll::Pending),
            Poll::Ready(Ok(())) => {
                self.future = None;
                None
            },
            Poll::Ready(Err(e)) => {
                self.future = None;
                Some(Poll::Ready(Err(e)))
            },
        }
    }
}

/// What the outcome of polling the source means for the poll call: what it
/// returns, or nothing if a step was started and the call goes on.
pub open spec fn for_each_on_source<T, E>(polled: Poll<Option<Result<T, E>>>) -> Option<
    Poll<Result<(), E>>,
> {
    match polled {
        Poll::Pending => Some(Poll::Pending),
        Poll::Ready(None) => Some(Poll::Ready(Ok(()))),
        Poll::Ready(Some(Err(e))) => Some(Poll::Ready(Err(e))),
        Poll::Ready(Some(Ok(_))) => None,
    }
}

/// What the outcome of polling the step means for the poll call: what it
/// returns, or nothing if the step finished well and the call goes on.
pub open spec fn for_each_on_step<E>(polled: Poll<Result<(), E>>) -> Option<Poll<Result<(), E>>> {
    match polled {
        Poll::Pending => Some(Poll::Pending),
        Poll::Ready(Ok(_)) => None,
        Poll::Ready(Err(e)) => Some(Poll::Ready(Err(e))),
    }
}

/// What `event` means for the poll call in which it arrives.
pub open spec fn for_each_returns<T, E>(event: Event<Result<T, E>, Result<(), E>>) -> Option<
    Poll<Result<(), E>>,
> {
    match event {
        Event::Source(polled) => for_each_on_source(polled),
        Event::Step(polled) => for_each_on_step(polled),
    }
}

/// Whether a step is in flight once the events of `trace` have been taken,
/// starting with an empty slot.
pub open spec fn for_each_busy<T, E>(trace: Seq<Event<Result<T, E>, Result<(), E>>>) -> bool {
    trace.len() > 0 && match trace.last() {
        Event::Source(polled) => for_each_on_source(polled) is None,
        Event::Step(polled) => polled is Pending,
    }
}

/// Whether the future has resolved in the course of `trace`.
pub open spec fn for_each_resolved<T, E>(trace: Seq<Event<Result<T, E>, Result<(), E>>>) -> bool
    decreases trace.len(),
{
    trace.len() > 0 && (for_each_resolved(trace.drop_last()) || for_each_returns(
        trace.last(),
    ) matches Some(Poll::Ready(_)))
}

/// Whether `trace` is a run that a driver can produce: every event answers
/// the action that the future asked for at that point, and none follows
/// once the future has resolved.
pub open spec fn for_each_valid<T, E>(trace: Seq<Event<Result<T, E>, Result<(), E>>>) -> bool
    decreases trace.len(),
{
    trace.len() == 0 || (for_each_valid(trace.drop_last()) && !for_each_resolved(
        trace.drop_last(),
    ) && (for_each_busy(trace.drop_last()) <==> trace.last() is Step))
}

/// The success whose step is in flight after `trace`.
pub open spec fn for_each_stepping<T, E>(
    trace: Seq<Event<Result<T, E>, Result<(), E>>>,
) -> Option<T>
    decreases trace.len(),
{
    if trace.len() == 0 {
        None
    } else {
        match trace.last() {
            Event::Source(Poll::Ready(Some(Ok(value)))) => Some(value),
            Event::Source(_) => None,
            Event::Step(Poll::Pending) => for_each_stepping(trace.drop_last()),
            Event::Step(Poll::Ready(_)) => None,
        }
    }
}

/// The error in the result of a step, if it failed.
pub open spec fn failure<E>(result: Result<(), E>) -> Option<E> {
    match result {
        Ok(_) => None,
        Err(e) => Some(e),
    }
}

/// Whether every step that finishes in `trace` fails or not as `g` says of
/// the success it was started for.
pub open spec fn for_each_resolves_by<T, E>(
    trace: Seq<Event<Result<T, E>, Result<(), E>>>,
    g: spec_fn(T) -> Option<E>,
) -> bool
    decreases trace.len(),
{
    trace.len() == 0 || (for_each_resolves_by(trace.drop_last(), g) && (
    trace.last() matches Event::Step(Poll::Ready(result)) ==> for_each_stepping(
        trace.drop_last(),
    ) matches Some(value) && failure(result) == g(value)))
}

/// What running a step on `items` one after the other comes to, where `g`
/// gives the error of the step on a success, if it fails: the first error
/// among the items and their steps, if there is one.
pub open spec fn first_error<T, E>(items: Seq<Result<T, E>>, g: spec_fn(T) -> Option<E>) -> Option<
    E,
>
    decreases items.len(),
{
    if items.len() == 0 {
        None
    } else {
        match first_error(items.drop_last(), g) {
            Some(e) => Some(e),
            None => match items.last() {
                Err(e) => Some(e),
                Ok(value) => g(value),
            },
        }
    }
}

/// Short circuit. In every run, nothing has failed for as long as the
/// future has not resolved: every item that was pulled and dealt with is a
/// success whose step finished well. When the future resolves, it resolves
/// at the first error to that error, with no further item pulled, and else
/// to success at the end of the source.
pub proof fn try_for_each_resolves_to_first_error<T, E>(
    trace: Seq<Event<Result<T, E>, Result<(), E>>>,
    g: spec_fn(T) -> Option<E>,
)
    requires
        for_each_valid(trace),
        for_each_resolves_by(trace, g),
    ensures
        !for_each_resolved(trace) ==> first_error(
            source_items(trace).take(
                source_items(trace).len() - (if for_each_busy(trace) {
                    1int
                } else {
                    0int
                }),
            ),
            g,
        ) is None,
        for_each_busy(trace) ==> source_items(trace).len() > 0 && source_items(trace).last() is Ok
            && for_each_stepping(trace) == Some(source_items(trace).last()->Ok_0),
        trace.len() > 0 ==> (for_each_returns(trace.last()) matches Some(Poll::Ready(result))
            ==> failure(result) == first_error(source_items(trace), g)),
    decreases trace.len(),
{
    if trace.len() > 0 {
        let before = trace.drop_last();
        try_for_each_resolves_to_first_error(before, g);
        let xs0 = source_items(before);
        let xs = source_items(trace);
        let n0 = xs0.len() - (if for_each_busy(before) {
            1int
        } else {
            0int
        });
        let n = xs.len() - (if for_each_busy(trace) {
            1int
        } else {
            0int
        });
        match trace.last() {
            Event::Source(polled) => {
                assert(xs0.take(n0) == xs0);
                match polled {
                    Poll::Ready(Some(item)) => {
                        assert(xs.drop_last() == xs0);
                        if item is Ok {
                            assert(xs.take(n) == xs0);
                        }
                    },
                    _ => {
                        assert(xs.take(n) == xs0);
                    },
                }
            },
            Event::Step(Poll::Pending) => {
                assert(xs.take(n) == xs0.take(n0));
            },
            Event::Step(Poll::Ready(result)) => {
                assert(xs.len() > 0);
                assert(xs.take(n) == xs);
                assert(xs.drop_last() == xs0.take(n0));
            },
        }
    } else {
        assert(source_items(trace).take(0) =~= Seq::empty());
    }
}

} // verus!
