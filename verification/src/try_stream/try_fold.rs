//! `try_fold`: fold the successes of a stream into one value by an
//! asynchronous, fallible step, and stop at the first error.

use vstd::prelude::*;
use core::future::Future;
use crate::poll::{source_items, Action, Event, Poll};

verus! {

/// Future that starts from a given value and, for every success of a stream
/// in turn, replaces the value by what a step makes of the value and the
/// success. It resolves to the first error, of the source or of a step, and
/// to the value once the source is exhausted.
#[must_use]
pub struct TryFold<St, Fut, T, F> {
    stream: St,
    f: F,
    accum: Option<T>,
    future: Option<Fut>,
}

impl<St, Fut, T, F> TryFold<St, Fut, T, F> {
    /// The wrapped source.
    pub closed spec fn source(&self) -> St {
        self.stream
    }

    /// The step function.
    pub closed spec fn step_fn(&self) -> F {
        self.f
    }

    /// The value so far, while no step is in flight and the future has not
    /// resolved.
    pub closed spec fn accum(&self) -> Option<T> {
        self.accum
    }

    /// The suspended step, if there is one.
    pub closed spec fn in_flight(&self) -> Option<Fut> {
        self.future
    }

    /// Wraps `stream`; the value is `init` and no step is in flight.
    pub fn new<Item>(stream: St, f: F, init: T) -> (r: Self)
        where F: FnMut(T, Item) -> Fut
        ensures
            r.source() == stream,
            r.step_fn() == f,
            r.accum() == Some(init),
            r.in_flight() is None,
    {
        TryFold { stream, f, accum: Some(init), future: None }
    }

    /// The source, for the driver to poll.
    pub fn get_mut(&mut self) -> (r: &mut St)
        ensures
            *r == old(self).source(),
            final(self).source() == *final(r),
            final(self).accum() == old(self).accum(),
            final(self).in_flight() == old(self).in_flight(),
            final(self).step_fn() == old(self).step_fn(),
    {
        &mut self.stream
    }

    /// What the driver must do next: poll the step while one is in flight,
    /// else poll the source while there is a value to go on from, and
    /// nothing once the future has resolved.
    pub fn next_action(&self) -> (r: Action)
        ensures
            r == (if self.in_flight() is Some {
                Action::PollStep
            } else if self.accum() is Some {
                Action::PollSource
            } else {
                Action::Exhausted
            }),
    {
        if self.future.is_some() {
            Action::PollStep
        } else if self.accum.is_some() {
            Action::PollSource
        } else {
            Action::Exhausted
        }
    }

    /// Takes the outcome of polling the source while no step is in flight,
    /// and says what the future resolves to, if the poll call returns now.
    ///
    /// A suspended source suspends the future. An exhausted source resolves
    /// it to the value so far, an error of the source to that error. A
    /// success is handed to the step function together with the value so
    /// far, and the step it returns is stored; the poll call goes on with
    /// polling that step.
    pub fn source_polled<Item, E>(&mut self, polled: Poll<Option<Result<Item, E>>>) -> (r: Option<
        Poll<Result<T, E>>,
    >)
        where F: FnMut(T, Item) -> Fut, Fut: Future<Output = Result<T, E>>
        requires
            old(self).in_flight() is None,
            old(self).accum() is Some,
            polled matches Poll::Ready(Some(Ok(item))) ==> old(self).step_fn().requires(
                (old(self).accum().unwrap(), item),
            ),
        ensures
            final(self).source() == old(self).source(),
            final(self).step_fn() == old(self).step_fn(),
            r == fold_on_source(polled, old(self).accum().unwrap()),
            final(self).in_flight() is Some <==> r is None,
            final(self).accum() == (if polled is Pending {
                old(self).accum()
            } else {
                None
            }),
            polled matches Poll::Ready(Some(Ok(item))) ==> old(self).step_fn().ensures(
                (old(self).accum().unwrap(), item),
                final(self).in_flight().unwrap(),
            ),
    {
        match polled {
            Poll::Pending => Some(Poll::Pending),
            Poll::Ready(found) => {
                let taken = self.accum.take();
                match taken {
                    Some(accum) => match found {
                        None => Some(Poll::Ready(Ok(accum))),
                        Some(Err(e)) => Some(Poll::Ready(Err(e))),
                        Some(Ok(item)) => {
                            let fut = (self.f)(accum, item);
                            self.future = Some(fut);
                            None
                        },
                    },
                    None => unreached(),
                }
            },
        }
    }

    /// The suspended step, for the driver to poll.
    pub fn step_mut(&mut self) -> (r: &mut Fut)
        requires
            old(self).in_flight() is Some,
        ensures
            *r == old(self).in_flight().unwrap(),
            final(self).in_flight() == Some(*final(r)),
            final(self).source() == old(self).source(),
            final(self).accum() == old(self).accum(),
            final(self).step_fn() == old(self).step_fn(),
    {
        match &mut self.future {
            Some(fut) => fut,
            None => unreached(),
        }
    }

    /// Takes the outcome of polling the suspended step, and says what the
    /// future resolves to, if the poll call returns now.
    ///
    /// A suspended step stays in its slot and suspends the future. A step
    /// that finished is dropped: if it failed, the future resolves to its
    /// error; if not, its result is the value from now on and the poll call
    /// goes on with the source.
    pub fn step_polled<E>(&mut self, polled: Poll<Result<T, E>>) -> (r: Option<Poll<Result<T, E>>>)
        where Fut: Future<Output = Result<T, E>>
        requires
            old(self).in_flight() is Some,
            old(self).accum() is None,
        ensures
            final(self).source() == old(self).source(),
            final(self).step_fn() == old(self).step_fn(),
            r == fold_on_step(polled),
            final(self).in_flight() is Some <==> polled is Pending,
            polled is Pending ==> final(self).in_flight() == old(self).in_flight(),
            final(self).accum() == (match polled {
                Poll::Ready(Ok(value)) => Some(value),
                _ => None,
            }),
    {
        match polled {
            Poll::Pending => Some(Poll::Pending),
            Poll::Ready(Ok(value)) => {
                self.future = None;
                self.accum = Some(value);
                None
            },
            Poll::Ready(Err(e)) => {
                self.future = None;
                Some(Poll::Ready(Err(e)))
            },
        }
    }
}

/// What the outcome of polling the source means for the poll call, with
/// `accum` the value so far: what the call returns, or nothing if a step was
/// started and the call goes on.
pub open spec fn fold_on_source<T, Item, E>(polled: Poll<Option<Result<Item, E>>>, accum: T) -> Option<
    Poll<Result<T, E>>,
> {
    match polled {
        Poll::Pending => Some(Poll::Pending),
        Poll::Ready(None) => Some(Poll::Ready(Ok(accum))),
        Poll::Ready(Some(Err(e))) => Some(Poll::Ready(Err(e))),
        Poll::Ready(Some(Ok(_))) => None,
    }
}

/// What the outcome of polling the step means for the poll call: what it
/// returns, or nothing if the step finished well and the call goes on.
pub open spec fn fold_on_step<T, E>(polled: Poll<Result<T, E>>) -> Option<Poll<Result<T, E>>> {
    match polled {
        Poll::Pending => Some(Poll::Pending),
        Poll::Ready(Ok(_)) => None,
        Poll::Ready(Err(e)) => Some(Poll::Ready(Err(e))),
    }
}

/// The value so far once the events of `trace` have been taken, starting
/// from `init`: none while a step is in flight and once the future has
/// resolved.
pub open spec fn fold_accum<T, Item, E>(
    init: T,
    trace: Seq<Event<Result<Item, E>, Result<T, E>>>,
) -> Option<T>
    decreases trace.len(),
{
    if trace.len() == 0 {
        Some(init)
    } else {
        match trace.last() {
            Event::Source(Poll::Pending) => fold_accum(init, trace.drop_last()),
            Event::Source(_) => None,
            Event::Step(Poll::Ready(Ok(value))) => Some(value),
            Event::Step(_) => None,
        }
    }
}

/// The value and the success that the step in flight after `trace` was
/// started with.
pub open spec fn fold_stepping<T, Item, E>(
    init: T,
    trace: Seq<Event<Result<Item, E>, Result<T, E>>>,
) -> Option<(T, Item)>
    decreases trace.len(),
{
    if trace.len() == 0 {
        None
    } else {
        match trace.last() {
            Event::Source(Poll::Ready(Some(Ok(item)))) => match fold_accum(
                init,
                trace.drop_last(),
            ) {
                Some(accum) => Some((accum, item)),
                None => None,
            },
            Event::Source(_) => None,
            Event::Step(Poll::Pending) => fold_stepping(init, trace.drop_last()),
            Event::Step(Poll::Ready(_)) => None,
        }
    }
}

/// What the poll call returns at the last event of `trace`, if it returns
/// there.
pub open spec fn fold_returns<T, Item, E>(
    init: T,
    trace: Seq<Event<Result<Item, E>, Result<T, E>>>,
) -> Option<Poll<Result<T, E>>>
    recommends
        trace.len() > 0,
{
    match trace.last() {
        Event::Source(polled) => match fold_accum(init, trace.drop_last()) {
            Some(accum) => fold_on_source(polled, accum),
            None => None,
        },
        Event::Step(polled) => fold_on_step(polled),
    }
}

/// Whether `trace` is a run that a driver can produce: the source is polled
/// only while there is a value to go on from, and the step only while one
/// is in flight.
pub open spec fn fold_valid<T, Item, E>(
    init: T,
    trace: Seq<Event<Result<Item, E>, Result<T, E>>>,
) -> bool
    decreases trace.len(),
{
    trace.len() == 0 || (fold_valid(init, trace.drop_last()) && match trace.last() {
        Event::Source(_) => fold_accum(init, trace.drop_last()) is Some,
        Event::Step(_) => fold_stepping(init, trace.drop_last()) is Some,
    })
}

/// Whether every step that finishes in `trace` finishes with `g` of the
/// value and the success it was started with.
pub open spec fn fold_resolves_by<T, Item, E>(
    init: T,
    trace: Seq<Event<Result<Item, E>, Result<T, E>>>,
    g: spec_fn(T, Item) -> Result<T, E>,
) -> bool
    decreases trace.len(),
{
    trace.len() == 0 || (fold_resolves_by(init, trace.drop_last(), g) && (
    trace.last() matches Event::Step(Poll::Ready(result)) ==> fold_stepping(
        init,
        trace.drop_last(),
    ) matches Some((accum, item)) && result == g(accum, item)))
}

/// What folding `items` from `init` by `g` comes to: the first error among
/// the items and their steps, or the last value if there is none.
pub open spec fn folded<T, Item, E>(
    init: T,
    items: Seq<Result<Item, E>>,
    g: spec_fn(T, Item) -> Result<T, E>,
) -> Result<T, E>
    decreases items.len(),
{
    if items.len() == 0 {
        Ok(init)
    } else {
        match folded(init, items.drop_last(), g) {
            Err(e) => Err(e),
            Ok(accum) => match items.last() {
                Err(e) => Err(e),
                Ok(item) => g(accum, item),
            },
        }
    }
}

/// Folding in order, with short circuit. In every run, the value so far is
/// the fold of the items pulled so far; a step in flight was started with
/// the fold of the items before the last and with the last; and when the
/// future resolves, it resolves to the fold of all the items pulled, which
/// is the first error if there is one.
pub proof fn try_fold_resolves_to_the_fold<T, Item, E>(
    init: T,
    trace: Seq<Event<Result<Item, E>, Result<T, E>>>,
    g: spec_fn(T, Item) -> Result<T, E>,
)
    requires
        fold_valid(init, trace),
        fold_resolves_by(init, trace, g),
    ensures
        fold_accum(init, trace) matches Some(accum) ==> folded(init, source_items(trace), g) == Ok::<
            T,
            E,
        >(accum) && fold_stepping(init, trace) is None,
        fold_stepping(init, trace) matches Some((accum, item)) ==> source_items(trace).len() > 0
            && source_items(trace).last() == Ok::<Item, E>(item) && folded(
            init,
            source_items(trace).drop_last(),
            g,
        ) == Ok::<T, E>(accum),
        trace.len() > 0 ==> (fold_returns(init, trace) matches Some(Poll::Ready(result))
            ==> result == folded(init, source_items(trace), g)),
    decreases trace.len(),
{
    if trace.len() > 0 {
        let before = trace.drop_last();
        try_fold_resolves_to_the_fold(init, before, g);
        let xs0 = source_items(before);
        let xs = source_items(trace);
        match trace.last() {
            Event::Source(polled) => {
                match polled {
                    Poll::Ready(Some(item)) => {
                        assert(xs.drop_last() == xs0);
                    },
                    _ => {},
                }
            },
            Event::Step(polled) => {},
        }
    }
}

} // verus!
