//! `try_for_each_concurrent`: run an asynchronous, fallible step on every
//! success of a stream, several at a time, and stop at the first error.

use vstd::prelude::*;
use core::future::Future;
use crate::poll::{Event, Flow, Poll};

verus! {

/// Future that pulls the successes of a stream, starts a step for each, and
/// keeps no more than a given number of steps in flight. It resolves to the
/// first error of the source or of a step, else to success once the source
/// is exhausted and every step has finished.
///
/// A poll call works in rounds. In each round the driver polls the source if
/// `wants_source` says so and reports by `source_polled`, then polls the
/// steps in flight one after the other and reports each by `step_polled`
/// until one has finished or all are suspended. `round_outcome` then says
/// whether the poll call returns or another round follows.
#[must_use]
pub struct TryForEachConcurrent<St, Fut, F> {
    stream: Option<St>,
    f: F,
    futures: Vec<Fut>,
    limit: Option<usize>,
}

impl<St, Fut, F> TryForEachConcurrent<St, Fut, F> {
    /// The source, until it is exhausted or an error has been met.
    pub closed spec fn source(&self) -> Option<St> {
        self.stream
    }

    /// The step function.
    pub closed spec fn step_fn(&self) -> F {
        self.f
    }

    /// The steps in flight, in the order in which they were started.
    pub closed spec fn in_flight(&self) -> Seq<Fut> {
        self.futures@
    }

    /// The greatest number of steps that may be in flight at once, if there
    /// is one.
    pub closed spec fn limit(&self) -> Option<usize> {
        self.limit
    }

    /// The concurrency bound: with a limit, which is never zero, no more
    /// steps than the limit are in flight.
    pub open spec fn wf(&self) -> bool {
        self.limit() matches Some(n) ==> 0 < n && self.in_flight().len() <= n
    }

    /// Whether there is room for one more step.
    pub open spec fn has_room(&self) -> bool {
        self.limit() matches Some(n) ==> self.in_flight().len() < n
    }

    /// Whether all work is over: the source is gone and no step is in
    /// flight.
    pub open spec fn finished(&self) -> bool {
        self.source() is None && self.in_flight().len() == 0
    }

    /// Wraps `stream` with nothing in flight. A limit of zero, like none,
    /// means that any number of steps may be in flight.
    pub fn new<T>(stream: St, limit: Option<usize>, f: F) -> (r: Self)
        where F: FnMut(T) -> Fut
        ensures
            r.wf(),
            r.source() == Some(stream),
            r.step_fn() == f,
            r.in_flight().len() == 0,
            r.limit() == effective_limit(limit),
    {
        let limit = match limit {
            Some(n) => if n == 0 {
                None
            } else {
                Some(n)
            },
            None => None,
        };
        TryForEachConcurrent { stream: Some(stream), f, futures: Vec::new(), limit }
    }

    /// The number of steps in flight.
    pub fn in_flight_len(&self) -> (r: usize)
        ensures
            r == self.in_flight().len(),
    {
        self.futures.len()
    }

    /// Whether the future has resolved: all work is over.
    pub fn is_terminated(&self) -> (r: bool)
        ensures
            r == self.finished(),
    {
        self.stream.is_none() && self.futures.len() == 0
    }

    /// Whether the driver must poll the source in this round: the source is
    /// still there and there is room for one more step.
    pub fn wants_source(&self) -> (r: bool)
        ensures
            r == (self.source() is Some && self.has_room()),
    {
        let room = match self.limit {
            Some(n) => n > self.futures.len(),
            None => true,
        };
        self.stream.is_some() && room
    }

    /// The source, for the driver to poll.
    pub fn source_mut(&mut self) -> (r: &mut St)
        requires
            old(self).source() is Some,
        ensures
            *r == old(self).source().unwrap(),
            final(self).source() == Some(*final(r)),
            final(self).in_flight() == old(self).in_flight(),
            final(self).step_fn() == old(self).step_fn(),
            final(self).limit() == old(self).limit(),
    {
        match &mut self.stream {
            Some(stream) => stream,
            None => unreached(),
        }
    }

    /// Takes the outcome of polling the source.
    ///
    /// A success starts a step, which joins the steps in flight behind the
    /// others. A suspended source changes nothing. An exhausted source is
    /// dropped. An error drops the source and every step in flight.
    pub fn source_polled<T, E>(&mut self, polled: Poll<Option<Result<T, E>>>) -> (r: Flow<E>)
        where F: FnMut(T) -> Fut, Fut: Future<Output = Result<(), E>>
        requires
            old(self).wf(),
            old(self).source() is Some,
            old(self).has_room(),
            polled matches Poll::Ready(Some(Ok(value))) ==> old(self).step_fn().requires((value,)),
        ensures
            final(self).wf(),
            final(self).limit() == old(self).limit(),
            final(self).step_fn() == old(self).step_fn(),
            final(self).in_flight().len() == count_after(
                old(self).in_flight().len(),
                Event::<Result<T, E>, Result<(), E>>::Source(polled),
            ),
            final(self).source() is Some <==> live_after(
                true,
                Event::<Result<T, E>, Result<(), E>>::Source(polled),
            ),
            match polled {
                Poll::Ready(Some(Ok(value))) => {
                    &&& r == Flow::<E>::Progress
                    &&& final(self).source() == old(self).source()
                    &&& final(self).in_flight().len() == old(self).in_flight().len() + 1
                    &&& final(self).in_flight().drop_last() == old(self).in_flight()
                    &&& old(self).step_fn().ensures((value,), final(self).in_flight().last())
                },
                Poll::Ready(Some(Err(e))) => {
                    &&& r == Flow::Failed(e)
                    &&& final(self).finished()
                },
                Poll::Ready(None) => {
                    &&& r == Flow::<E>::Idle
                    &&& final(self).source() is None
                    &&& final(self).in_flight() == old(self).in_flight()
                },
                Poll::Pending => {
                    &&& r == Flow::<E>::Idle
                    &&& final(self).source() == old(self).source()
                    &&& final(self).in_flight() == old(self).in_flight()
                },
            },
    {
        match polled {
            Poll::Ready(Some(Ok(value))) => {
                let fut = (self.f)(value);
                self.futures.push(fut);
                proof {
                    assert(self.futures@.drop_last() == old(self).futures@);
                }
                Flow::Progress
            },
            Poll::Ready(Some(Err(e))) => {
                self.stream = None;
                self.futures = Vec::new();
                Flow::Failed(e)
            },
            Poll::Ready(None) => {
                self.stream = None;
                Flow::Idle
            },
            Poll::Pending => Flow::Idle,
        }
    }

    /// The step at `index` among those in flight, for the driver to poll.
    pub fn step_mut(&mut self, index: usize) -> (r: &mut Fut)
        requires
            index < old(self).in_flight().len(),
        ensures
            *r == old(self).in_flight()[index as int],
            final(self).in_flight() == old(self).in_flight().update(index as int, *final(r)),
            final(self).source() == old(self).source(),
            final(self).step_fn() == old(self).step_fn(),
            final(self).limit() == old(self).limit(),
    {
        &mut self.futures[index]
    }

    /// Takes the outcome of polling the step at `index`.
    ///
    /// A suspended step stays where it is. A step that finished well leaves
    /// the steps in flight, the others keeping their order. A step that
    /// failed drops the source and every step in flight.
    pub fn step_polled<E>(&mut self, index: usize, polled: Poll<Result<(), E>>) -> (r: Flow<E>)
        where Fut: Future<Output = Result<(), E>>
        requires
            old(self).wf(),
            index < old(self).in_flight().len(),
        ensures
            final(self).wf(),
            final(self).limit() == old(self).limit(),
            final(self).step_fn() == old(self).step_fn(),
            final(self).in_flight().len() == count_after(
                old(self).in_flight().len(),
                Event::<Result<(), E>, Result<(), E>>::Step(polled),
            ),
            final(self).source() is Some <==> live_after(
                old(self).source() is Some,
                Event::<Result<(), E>, Result<(), E>>::Step(polled),
            ),
            match polled {
                Poll::Pending => {
                    &&& r == Flow::<E>::Idle
                    &&& final(self).source() == old(self).source()
                    &&& final(self).in_flight() == old(self).in_flight()
                },
                Poll::Ready(Ok(())) => {
                    &&& r == Flow::<E>::Progress
                    &&& final(self).source() == old(self).source()
                    &&& final(self).in_flight() == old(self).in_flight().remove(index as int)
                },
                Poll::Ready(Err(e)) => {
                    &&& r == Flow::Failed(e)
                    &&& final(self).finished()
                },
            },
    {
        match polled {
            Poll::Pending => Flow::Idle,
            Poll::Ready(Ok(())) => {
                let _ = self.futures.remove(index);
                Flow::Progress
            },
            Poll::Ready(Err(e)) => {
                self.stream = None;
                self.futures = Vec::new();
                Flow::Failed(e)
            },
        }
    }

    /// Decides at the end of a round, in which no error was met, what
    /// becomes of the poll call: it returns success once all work is over,
    /// it returns suspended if nothing moved in the round, and else another
    /// round follows.
    pub fn round_outcome<E>(&self, made_progress: bool) -> (r: Option<Poll<Result<(), E>>>)
        ensures
            r == round_end::<E>(self.finished(), made_progress),
    {
        if self.stream.is_none() && self.futures.len() == 0 {
            Some(Poll::Ready(Ok(())))
        } else if !made_progress {
            Some(Poll::Pending)
        } else {
            None
        }
    }
}

/// The limit that counts: a limit of zero is no limit.
pub open spec fn effective_limit(limit: Option<usize>) -> Option<usize> {
    match limit {
        Some(n) => if n == 0 {
            None
        } else {
            Some(n)
        },
        None => None,
    }
}

/// What the poll call returns at the end of a round, if it returns.
pub open spec fn round_end<E>(finished: bool, made_progress: bool) -> Option<Poll<Result<(), E>>> {
    if finished {
        Some(Poll::Ready(Ok(())))
    } else if !made_progress {
        Some(Poll::Pending)
    } else {
        None
    }
}

/// The number of steps in flight after `event`, given the number before
/// it: a success of the source adds one, a step that finished well takes one
/// away, an error leaves none.
pub open spec fn count_after<T, E>(count: nat, event: Event<Result<T, E>, Result<(), E>>) -> nat {
    match event {
        Event::Source(Poll::Ready(Some(Ok(_)))) => count + 1,
        Event::Source(Poll::Ready(Some(Err(_)))) => 0,
        Event::Source(_) => count,
        Event::Step(Poll::Ready(Ok(_))) => (count - 1) as nat,
        Event::Step(Poll::Ready(Err(_))) => 0,
        Event::Step(Poll::Pending) => count,
    }
}

/// Whether the source is still there after `event`, given whether it was
/// before: it goes when it is exhausted and at any error.
pub open spec fn live_after<T, E>(live: bool, event: Event<Result<T, E>, Result<(), E>>) -> bool {
    match event {
        Event::Source(Poll::Ready(Some(Ok(_)))) => live,
        Event::Source(Poll::Pending) => live,
        Event::Source(_) => false,
        Event::Step(Poll::Ready(Err(_))) => false,
        Event::Step(_) => live,
    }
}

/// The number of steps in flight once the events of `trace` have been
/// taken, starting with none.
pub open spec fn in_flight_after<T, E>(trace: Seq<Event<Result<T, E>, Result<(), E>>>) -> nat
    decreases trace.len(),
{
    if trace.len() == 0 {
        0
    } else {
        count_after(in_flight_after(trace.drop_last()), trace.last())
    }
}

/// Whether the source is still there once the events of `trace` have been
/// taken.
pub open spec fn source_live_after<T, E>(trace: Seq<Event<Result<T, E>, Result<(), E>>>) -> bool
    decreases trace.len(),
{
    if trace.len() == 0 {
        true
    } else {
        live_after(source_live_after(trace.drop_last()), trace.last())
    }
}

/// Whether `trace` is a run that a driver can produce under `limit`: the
/// source is polled only while it is there and there is room for one more
/// step, and a step is polled only while one is in flight.
pub open spec fn concurrent_valid<T, E>(
    limit: Option<usize>,
    trace: Seq<Event<Result<T, E>, Result<(), E>>>,
) -> bool
    decreases trace.len(),
{
    trace.len() == 0 || (concurrent_valid(limit, trace.drop_last()) && match trace.last() {
        Event::Source(_) => source_live_after(trace.drop_last()) && (limit matches Some(n)
            ==> in_flight_after(trace.drop_last()) < n),
        Event::Step(_) => in_flight_after(trace.drop_last()) > 0,
    })
}

/// Concurrency bound. In every run under a limit of `n`, however many items
/// the source holds and however the steps resolve, no more than `n` steps
/// are in flight at any point of the run.
pub proof fn concurrency_never_exceeds_limit<T, E>(
    n: usize,
    trace: Seq<Event<Result<T, E>, Result<(), E>>>,
    upto: int,
)
    requires
        concurrent_valid(Some(n), trace),
        0 <= upto <= trace.len(),
    ensures
        in_flight_after(trace.take(upto)) <= n,
    decreases trace.len(),
{
    if upto == trace.len() {
        assert(trace.take(upto) == trace);
        if trace.len() > 0 {
            concurrency_never_exceeds_limit(n, trace.drop_last(), trace.len() - 1);
            assert(trace.drop_last().take(trace.len() - 1) == trace.drop_last());
        }
    } else {
        concurrency_never_exceeds_limit(n, trace.drop_last(), upto);
        assert(trace.drop_last().take(upto) == trace.take(upto));
    }
}

/// Fused idempotence. Once the source is gone and nothing is in flight, no
/// run goes on: the combinator asks its driver for nothing any more, and it
/// stays finished.
pub proof fn finished_run_ends<T, E>(
    limit: Option<usize>,
    trace: Seq<Event<Result<T, E>, Result<(), E>>>,
    more: Seq<Event<Result<T, E>, Result<(), E>>>,
)
    requires
        concurrent_valid(limit, trace + more),
        in_flight_after(trace) == 0,
        !source_live_after(trace),
    ensures
        more.len() == 0,
    decreases more.len(),
{
    if more.len() > 0 {
        let all = trace + more;
        assert(all.drop_last() == trace + more.drop_last());
        if more.len() > 1 {
            finished_run_ends(limit, trace, more.drop_last());
        } else {
            assert(all.drop_last() == trace);
        }
    }
}

/// Short circuit. An error, of the source or of a step, ends every run at
/// once: the source is gone and nothing is in flight, whatever was before,
/// and no further event can follow.
pub proof fn error_ends_the_run<T, E>(
    limit: Option<usize>,
    trace: Seq<Event<Result<T, E>, Result<(), E>>>,
    more: Seq<Event<Result<T, E>, Result<(), E>>>,
)
    requires
        concurrent_valid(limit, trace + more),
        trace.len() > 0,
        trace.last() matches Event::Source(Poll::Ready(Some(Err(_)))) || trace.last() matches Event::Step(
            Poll::Ready(Err(_)),
        ),
    ensures
        in_flight_after(trace) == 0,
        !source_live_after(trace),
        more.len() == 0,
{
    finished_run_ends(limit, trace, more);
}

/// A combinator in a state that `new` and the events lead to, made with a
/// limit of `n`, has no more than `n` steps in flight, and has room for one
/// more exactly while it has fewer.
pub proof fn concurrency_is_bounded<St, Fut, F>(this: TryForEachConcurrent<St, Fut, F>, n: usize)
    requires
        this.wf(),
        this.limit() == Some(n),
    ensures
        this.in_flight().len() <= n,
        !this.has_room() <==> this.in_flight().len() == n,
{
}

} // verus!
