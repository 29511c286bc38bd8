//! `try_filter`: keep the successes of a stream that an asynchronous
//! predicate accepts.

use vstd::prelude::*;
use core::future::Future;
use core::task::Context;
use crate::poll::{source_items, yielded, Action, Event, Poll, Progress};
use crate::sink::Sink;

verus! {

/// Stream combinator that lets the errors of its source pass, asks a
/// predicate about every success, and yields the success if the answer is
/// yes.
#[must_use]
pub struct TryFilter<St, Fut, F, T> {
    stream: St,
    f: F,
    pending: Option<(T, Fut)>,
}

impl<St, Fut, F, T> TryFilter<St, Fut, F, T> {
    /// The wrapped source.
    pub closed spec fn source(&self) -> St {
        self.stream
    }

    /// The predicate.
    pub closed spec fn step_fn(&self) -> F {
        self.f
    }

    /// The success that is being asked about and the suspended answer, if
    /// any.
    pub closed spec fn in_flight(&self) -> Option<(T, Fut)> {
        self.pending
    }

    /// Wraps `stream`; nothing is in flight.
    pub fn new(stream: St, f: F) -> (r: Self)
        where F: FnMut(&T) -> Fut
        ensures
            r.source() == stream,
            r.step_fn() == f,
            r.in_flight() is None,
    {
        TryFilter { stream, f, pending: None }
    }

    /// The source this combinator pulls from.
    pub fn get_ref(&self) -> (r: &St)
        ensures
            *r == self.source(),
    {
        &self.stream
    }

    /// The source this combinator pulls from, for mutation. Whatever the
    /// caller leaves there is the source from then on; the rest of the
    /// combinator is untouched.
    pub fn get_mut(&mut self) -> (r: &mut St)
        ensures
            *r == old(self).source(),
            final(self).source() == *final(r),
            final(self).in_flight() == old(self).in_flight(),
            final(self).step_fn() == old(self).step_fn(),
    {
        &mut self.stream
    }

    /// Gives the source back and drops what may be in flight.
    pub fn into_inner(self) -> (r: St)
        ensures
            r == self.source(),
    {
        self.stream
    }

    /// Whether the stream has ended for good: nothing is in flight and the
    /// source reports that it has terminated.
    pub fn is_terminated(&self, source_terminated: bool) -> (r: bool)
        ensures
            r == (self.in_flight() is None && source_terminated),
    {
        self.pending.is_none() && source_terminated
    }

    /// What the driver must poll next: the source while nothing is in
    /// flight, the answer while one is awaited.
    pub fn next_action(&self) -> (r: Action)
        ensures
            r == (if self.in_flight() is Some { Action::PollStep } else { Action::PollSource }),
    {
        if self.pending.is_none() {
            Action::PollSource
        } else {
            Action::PollStep
        }
    }

    /// Takes the outcome of polling the source while nothing is in flight.
    ///
    /// A suspended or exhausted source, and an error, end the poll call with
    /// that outcome. A success is shown to the predicate and kept beside the
    /// answer that is awaited; the poll call goes on with polling that
    /// answer.
    pub fn source_polled<E>(&mut self, polled: Poll<Option<Result<T, E>>>) -> (r: Progress<
        Result<T, E>,
    >)
        where F: FnMut(&T) -> Fut, Fut: Future<Output = bool>
        requires
            old(self).in_flight() is None,
            polled matches Poll::Ready(Some(Ok(value))) ==> old(self).step_fn().requires((&value,)),
        ensures
            final(self).source() == old(self).source(),
            r == try_filter_on_source(polled),
            match polled {
                Poll::Ready(Some(Ok(value))) => final(self).in_flight() matches Some((kept, fut))
                    && kept == value && old(self).step_fn().ensures((&value,), fut),
                _ => final(self).in_flight() is None,
            },
            final(self).step_fn() == old(self).step_fn(),
    {
        match polled {
            Poll::Pending => Progress::Return(Poll::Pending),
            Poll::Ready(None) => Progress::Return(Poll::Ready(None)),
            Poll::Ready(Some(Err(e))) => Progress::Return(Poll::Ready(Some(Err(e)))),
            Poll::Ready(Some(Ok(value))) => {
                let fut = (self.f)(&value);
                self.pending = Some((value, fut));
                Progress::Continue
            },
        }
    }

    /// The suspended answer, for the driver to poll.
    pub fn step_mut(&mut self) -> (r: &mut Fut)
        requires
            old(self).in_flight() is Some,
        ensures
            *r == old(self).in_flight().unwrap().1,
            final(self).in_flight() == Some((old(self).in_flight().unwrap().0, *final(r))),
            final(self).source() == old(self).source(),
            final(self).step_fn() == old(self).step_fn(),
    {
        match &mut self.pending {
            Some(pair) => &mut pair.1,
            None => unreached(),
        }
    }

    /// Takes the outcome of polling the suspended answer.
    ///
    /// While the answer is suspended, success and answer stay where they are
    /// and the poll call returns. On yes the success is the stream's next
    /// item. On no it is dropped and the poll call goes on with the source.
    pub fn step_polled<E>(&mut self, polled: Poll<bool>) -> (r: Progress<Result<T, E>>)
        where Fut: Future<Output = bool>
        requires
            old(self).in_flight() is Some,
        ensures
            final(self).source() == old(self).source(),
            final(self).step_fn() == old(self).step_fn(),
            r == try_filter_on_step::<T, E>(polled, old(self).in_flight().unwrap().0),
            final(self).in_flight() == (if polled is Pending {
                old(self).in_flight()
            } else {
                None
            }),
    {
        match polled {
            Poll::Pending => Progress::Return(Poll::Pending),
            Poll::Ready(keep) => {
                let taken = self.pending.take();
                match taken {
                    Some((value, _)) => {
                        if keep {
                            Progress::Return(Poll::Ready(Some(Ok(value))))
                        } else {
                            Progress::Continue
                        }
                    },
                    None => unreached(),
                }
            },
        }
    }
}

/// The sink half of a wrapped source passes through unchanged: every
/// operation is the source's own, with the source's error, and touches
/// nothing else in the combinator.
impl<S, Fut, F, Item, Taken> Sink<Item> for TryFilter<S, Fut, F, Taken> where S: Sink<Item> {
    type SinkError = S::SinkError;

    open spec fn ready_step(before: Self, after: Self, r: Poll<Result<(), S::SinkError>>) -> bool {
        S::ready_step(before.source(), after.source(), r) && after.in_flight() == before.in_flight() && after.step_fn() == before.step_fn()
    }

    open spec fn send_step(before: Self, item: Item, after: Self, r: Result<(), S::SinkError>) -> bool {
        S::send_step(before.source(), item, after.source(), r) && after.in_flight() == before.in_flight() && after.step_fn() == before.step_fn()
    }

    open spec fn flush_step(before: Self, after: Self, r: Poll<Result<(), S::SinkError>>) -> bool {
        S::flush_step(before.source(), after.source(), r) && after.in_flight() == before.in_flight() && after.step_fn() == before.step_fn()
    }

    open spec fn close_step(before: Self, after: Self, r: Poll<Result<(), S::SinkError>>) -> bool {
        S::close_step(before.source(), after.source(), r) && after.in_flight() == before.in_flight() && after.step_fn() == before.step_fn()
    }

    fn poll_ready(&mut self, cx: &mut Context<'_>) -> (r: Poll<Result<(), S::SinkError>>) {
        self.stream.poll_ready(cx)
    }

    fn start_send(&mut self, item: Item) -> (r: Result<(), S::SinkError>) {
        self.stream.start_send(item)
    }

    fn poll_flush(&mut self, cx: &mut Context<'_>) -> (r: Poll<Result<(), S::SinkError>>) {
        self.stream.poll_flush(cx)
    }

    fn poll_close(&mut self, cx: &mut Context<'_>) -> (r: Poll<Result<(), S::SinkError>>) {
        self.stream.poll_close(cx)
    }
}

/// What the outcome of polling the source means for the poll call: a
/// success is put before the predicate and the call goes on, anything else
/// is returned as it is.
pub open spec fn try_filter_on_source<T, E>(polled: Poll<Option<Result<T, E>>>) -> Progress<
    Result<T, E>,
> {
    match polled {
        Poll::Pending => Progress::Return(Poll::Pending),
        Poll::Ready(None) => Progress::Return(Poll::Ready(None)),
        Poll::Ready(Some(Err(e))) => Progress::Return(Poll::Ready(Some(Err(e)))),
        Poll::Ready(Some(Ok(_))) => Progress::Continue,
    }
}

/// What the answer about `value` means for the poll call: on yes the value
/// is yielded, on no the call goes back to the source.
pub open spec fn try_filter_on_step<T, E>(polled: Poll<bool>, value: T) -> Progress<Result<T, E>> {
    match polled {
        Poll::Pending => Progress::Return(Poll::Pending),
        Poll::Ready(true) => Progress::Return(Poll::Ready(Some(Ok(value)))),
        Poll::Ready(false) => Progress::Continue,
    }
}

/// Whether an answer is awaited once the events of `trace` have been taken,
/// starting with nothing in flight.
pub open spec fn try_filter_busy<T, E>(trace: Seq<Event<Result<T, E>, bool>>) -> bool {
    trace.len() > 0 && match trace.last() {
        Event::Source(polled) => try_filter_on_source(polled) is Continue,
        Event::Step(polled) => polled is Pending,
    }
}

/// Whether `trace` is a run that a driver can produce: every event answers
/// the action that the combinator asked for at that point.
pub open spec fn try_filter_valid<T, E>(trace: Seq<Event<Result<T, E>, bool>>) -> bool
    decreases trace.len(),
{
    trace.len() == 0 || (try_filter_valid(trace.drop_last()) && (try_filter_busy(
        trace.drop_last(),
    ) <==> trace.last() is Step))
}

/// The success that the predicate is being asked about after `trace`.
pub open spec fn try_filter_stepping<T, E>(trace: Seq<Event<Result<T, E>, bool>>) -> Option<T>
    decreases trace.len(),
{
    if trace.len() == 0 {
        None
    } else {
        match trace.last() {
            Event::Source(Poll::Ready(Some(Ok(value)))) => Some(value),
            Event::Source(_) => None,
            Event::Step(Poll::Pending) => try_filter_stepping(trace.drop_last()),
            Event::Step(Poll::Ready(_)) => None,
        }
    }
}

/// The outcomes of the poll calls that returned in the course of `trace`.
pub open spec fn try_filter_outcomes<T, E>(trace: Seq<Event<Result<T, E>, bool>>) -> Seq<
    Poll<Option<Result<T, E>>>,
>
    decreases trace.len(),
{
    if trace.len() == 0 {
        Seq::empty()
    } else {
        let before = try_filter_outcomes(trace.drop_last());
        let progress = match trace.last() {
            Event::Source(polled) => try_filter_on_source(polled),
            Event::Step(polled) => match try_filter_stepping(trace.drop_last()) {
                Some(value) => try_filter_on_step(polled, value),
                None => Progress::Continue,
            },
        };
        match progress {
            Progress::Return(outcome) => before.push(outcome),
            Progress::Continue => before,
        }
    }
}

/// Whether every answer that arrives in `trace` is `p` of the success that
/// was asked about.
pub open spec fn try_filter_resolves_by<T, E>(
    trace: Seq<Event<Result<T, E>, bool>>,
    p: spec_fn(T) -> bool,
) -> bool
    decreases trace.len(),
{
    trace.len() == 0 || (try_filter_resolves_by(trace.drop_last(), p) && (
    trace.last() matches Event::Step(Poll::Ready(answer)) ==> try_filter_stepping(
        trace.drop_last(),
    ) matches Some(value) && answer == p(value)))
}

/// The items of `items` that pass: every error, and every success that `p`
/// accepts, in order.
pub open spec fn passing<T, E>(items: Seq<Result<T, E>>, p: spec_fn(T) -> bool) -> Seq<
    Result<T, E>,
>
    decreases items.len(),
{
    if items.len() == 0 {
        Seq::empty()
    } else {
        let before = passing(items.drop_last(), p);
        match items.last() {
            Ok(value) => if p(value) {
                before.push(Ok(value))
            } else {
                before
            },
            Err(e) => before.push(Err(e)),
        }
    }
}

/// The number of source items that `trace` has dealt with: all but the one
/// that is being asked about.
pub open spec fn try_filter_settled<T, E>(trace: Seq<Event<Result<T, E>, bool>>) -> int {
    source_items(trace).len() - (if try_filter_busy(trace) {
        1int
    } else {
        0int
    })
}

/// In every run, the items yielded downstream are exactly the source's
/// errors and the successes that the predicate accepts, in the source's
/// order.
pub proof fn try_filter_keeps_accepted<T, E>(
    trace: Seq<Event<Result<T, E>, bool>>,
    p: spec_fn(T) -> bool,
)
    requires
        try_filter_valid(trace),
        try_filter_resolves_by(trace, p),
    ensures
        0 <= try_filter_settled(trace),
        yielded(try_filter_outcomes(trace)) == passing(
            source_items(trace).take(try_filter_settled(trace)),
            p,
        ),
        try_filter_busy(trace) ==> source_items(trace).last() is Ok && try_filter_stepping(trace)
            == Some(source_items(trace).last()->Ok_0),
        !try_filter_busy(trace) ==> try_filter_stepping(trace) is None,
    decreases trace.len(),
{
    if trace.len() > 0 {
        let before = trace.drop_last();
        try_filter_keeps_accepted(before, p);
        let xs0 = source_items(before);
        let n0 = try_filter_settled(before);
        let xs = source_items(trace);
        let n = try_filter_settled(trace);
        let out0 = try_filter_outcomes(before);
        let out = try_filter_outcomes(trace);
        match trace.last() {
            Event::Source(polled) => {
                match polled {
                    Poll::Ready(Some(Err(e))) => {
                        assert(out.drop_last() == out0);
                        assert(xs.take(n) == xs0.take(n0).push(Err(e)));
                        assert(xs.take(n).drop_last() == xs0.take(n0));
                    },
                    Poll::Ready(Some(Ok(_))) => {
                        assert(xs.take(n) == xs0.take(n0));
                    },
                    _ => {
                        assert(out.drop_last() == out0);
                    },
                }
            },
            Event::Step(Poll::Pending) => {
                assert(out.drop_last() == out0);
            },
            Event::Step(Poll::Ready(answer)) => {
                assert(xs.take(n) == xs0.take(n0).push(xs0.last()));
                assert(xs.take(n).drop_last() == xs0.take(n0));
                if answer {
                    assert(out.drop_last() == out0);
                }
            },
        }
    } else {
        assert(source_items(trace).take(0) =~= Seq::empty());
    }
}

/// Fused idempotence. Once nothing is in flight and the source has
/// terminated, so that polling it brings no further item, the combinator
/// stays terminated through any number of further events and yields nothing
/// more.
pub proof fn try_filter_stays_terminated<T, E>(
    trace: Seq<Event<Result<T, E>, bool>>,
    more: Seq<Event<Result<T, E>, bool>>,
)
    requires
        try_filter_valid(trace + more),
        !try_filter_busy(trace),
        forall|i: int|
            0 <= i < more.len() ==> !(#[trigger] more[i] matches Event::Source(Poll::Ready(Some(_)))),
    ensures
        !try_filter_busy(trace + more),
        yielded(try_filter_outcomes(trace + more)) == yielded(try_filter_outcomes(trace)),
        source_items(trace + more) == source_items(trace),
    decreases more.len(),
{
    if more.len() == 0 {
        assert(trace + more == trace);
    } else {
        let all = trace + more;
        assert(all.drop_last() == trace + more.drop_last());
        assert(all.last() == more[more.len() - 1]);
        try_filter_stays_terminated(trace, more.drop_last());
        match all.last() {
            Event::Source(polled) => {
                assert(try_filter_outcomes(all).drop_last() == try_filter_outcomes(
                    all.drop_last(),
                ));
            },
            Event::Step(polled) => {},
        }
    }
}

} // verus!
