//! `take_while`: yield the items of a stream for as long as an asynchronous
//! predicate holds, and nothing after it has failed once.

use vstd::prelude::*;
use core::future::Future;
use core::task::Context;
use crate::poll::{source_items, yielded, Action, Event, Poll, Progress};
use crate::sink::Sink;

verus! {

/// Stream combinator that asks a predicate about every item of its source,
/// yields the item if the answer is yes, and ends for good at the first no.
#[must_use]
pub struct TakeWhile<St, Fut, F, Item> {
    stream: St,
    f: F,
    pending: Option<(Item, Fut)>,
    done_taking: bool,
}

impl<St, Fut, F, Item> TakeWhile<St, Fut, F, Item> {
    /// The wrapped source.
    pub closed spec fn source(&self) -> St {
        self.stream
    }

    /// The predicate.
    pub closed spec fn step_fn(&self) -> F {
        self.f
    }

    /// The item that is being asked about and the suspended answer, if any.
    pub closed spec fn in_flight(&self) -> Option<(Item, Fut)> {
        self.pending
    }

    /// Whether the predicate has failed once.
    pub closed spec fn done_taking(&self) -> bool {
        self.done_taking
    }

    /// Wraps `stream`; nothing is in flight and the predicate has not failed.
    pub fn new(stream: St, f: F) -> (r: Self)
        where F: FnMut(&Item) -> Fut
        ensures
            r.source() == stream,
            r.step_fn() == f,
            r.in_flight() is None,
            !r.done_taking(),
    {
        TakeWhile { stream, f, pending: None, done_taking: false }
    }

    /// The source this combinator pulls from.
    pub fn get_ref(&self) -> (r: &St)
        ensures
            *r == self.source(),
    {
        &self.stream
    }

    /// The source this combinator pulls from, for mutation. Whatever the
    /// caller leaves there is the source from then on; the rest of the
    /// combinator is untouched, its final state included.
    pub fn get_mut(&mut self) -> (r: &mut St)
        ensures
            *r == old(self).source(),
            final(self).source() == *final(r),
            final(self).in_flight() == old(self).in_flight(),
            final(self).step_fn() == old(self).step_fn(),
            final(self).done_taking() == old(self).done_taking(),
    {
        &mut self.stream
    }

    /// The suspended answer, if one is awaited.
    pub fn step_ref(&self) -> (r: Option<&Fut>)
        ensures
            r is Some <==> self.in_flight() is Some,
            r matches Some(fut) ==> *fut == self.in_flight().unwrap().1,
    {
        match &self.pending {
            Some(pair) => Some(&pair.1),
            None => None,
        }
    }

    /// The item that is being asked about, if there is one.
    pub fn pending_item(&self) -> (r: Option<&Item>)
        ensures
            r is Some <==> self.in_flight() is Some,
            r matches Some(item) ==> *item == self.in_flight().unwrap().0,
    {
        match &self.pending {
            Some(pair) => Some(&pair.0),
            None => None,
        }
    }

    /// Whether the predicate has failed once.
    pub fn is_done_taking(&self) -> (r: bool)
        ensures
            r == self.done_taking(),
    {
        self.done_taking
    }

    /// Gives the source back and drops what may be in flight.
    pub fn into_inner(self) -> (r: St)
        ensures
            r == self.source(),
    {
        self.stream
    }

    /// Whether the stream has ended for good: the predicate has failed, or
    /// nothing is in flight and the source reports that it has terminated.
    pub fn is_terminated(&self, source_terminated: bool) -> (r: bool)
        ensures
            r == (self.done_taking() || (self.in_flight() is None && source_terminated)),
    {
        self.done_taking || (self.pending.is_none() && source_terminated)
    }

    /// What the driver must do next: nothing once the predicate has failed,
    /// else poll the source while nothing is in flight and the answer while
    /// one is awaited.
    pub fn next_action(&self) -> (r: Action)
        ensures
            r == (if self.done_taking() {
                Action::Exhausted
            } else if self.in_flight() is Some {
                Action::PollStep
            } else {
                Action::PollSource
            }),
    {
        if self.done_taking {
            Action::Exhausted
        } else if self.pending.is_none() {
            Action::PollSource
        } else {
            Action::PollStep
        }
    }

    /// Takes the outcome of polling the source while nothing is in flight.
    ///
    /// A suspended or exhausted source ends the poll call with that outcome.
    /// An item is shown to the predicate and kept beside the answer that is
    /// awaited; the poll call goes on with polling that answer.
    pub fn source_polled(&mut self, polled: Poll<Option<Item>>) -> (r: Progress<Item>)
        where F: FnMut(&Item) -> Fut, Fut: Future<Output = bool>
        requires
            !old(self).done_taking(),
            old(self).in_flight() is None,
            polled matches Poll::Ready(Some(item)) ==> old(self).step_fn().requires((&item,)),
        ensures
            final(self).source() == old(self).source(),
            !final(self).done_taking(),
            r == take_while_on_source(polled),
            match polled {
                Poll::Ready(Some(item)) => final(self).in_flight() matches Some((kept, fut))
                    && kept == item && old(self).step_fn().ensures((&item,), fut),
                _ => final(self).in_flight() is None,
            },
            final(self).step_fn() == old(self).step_fn(),
    {
        match polled {
            Poll::Pending => Progress::Return(Poll::Pending),
            Poll::Ready(None) => Progress::Return(Poll::Ready(None)),
            Poll::Ready(Some(item)) => {
                let fut = (self.f)(&item);
                self.pending = Some((item, fut));
                Progress::Continue
            },
        }
    }

    /// The suspended answer, for the driver to poll.
    pub fn step_mut(&mut self) -> (r: &mut Fut)
        requires
            old(self).in_flight() is Some,
        ensures
            *r == old(self).in_flight().unwrap().1,
            final(self).in_flight() == Some((old(self).in_flight().unwrap().0, *final(r))),
            final(self).source() == old(self).source(),
            final(self).step_fn() == old(self).step_fn(),
            final(self).done_taking() == old(self).done_taking(),
    {
        match &mut self.pending {
            Some(pair) => &mut pair.1,
            None => unreached(),
        }
    }

    /// Takes the outcome of polling the suspended answer.
    ///
    /// While the answer is suspended, item and answer stay where they are.
    /// On yes the item is the stream's next item. On no the item is dropped
    /// and the stream has ended for good. Either way the poll call returns.
    pub fn step_polled(&mut self, polled: Poll<bool>) -> (r: Poll<Option<Item>>)
        where Fut: Future<Output = bool>
        requires
            !old(self).done_taking(),
            old(self).in_flight() is Some,
        ensures
            final(self).source() == old(self).source(),
            final(self).step_fn() == old(self).step_fn(),
            r == take_while_on_step(polled, old(self).in_flight().unwrap().0),
            final(self).done_taking() <==> polled == Poll::Ready(false),
            final(self).in_flight() == (if polled is Pending {
                old(self).in_flight()
            } else {
                None
            }),
    {
        match polled {
            Poll::Pending => Poll::Pending,
            Poll::Ready(take) => {
                let taken = self.pending.take();
                match taken {
                    Some((item, _)) => {
                        if take {
                            Poll::Ready(Some(item))
                        } else {
                            self.done_taking = true;
                            Poll::Ready(None)
                        }
                    },
                    None => unreached(),
                }
            },
        }
    }
}

/// The sink half of a wrapped source passes through unchanged: every
/// operation is the source's own, with the source's error, and touches
/// nothing else in the combinator.
impl<S, Fut, F, Item, Taken> Sink<Item> for TakeWhile<S, Fut, F, Taken> where S: Sink<Item> {
    type SinkError = S::SinkError;

    open spec fn ready_step(before: Self, after: Self, r: Poll<Result<(), S::SinkError>>) -> bool {
        S::ready_step(before.source(), after.source(), r) && after.in_flight() == before.in_flight() && after.step_fn() == before.step_fn() && after.done_taking() == before.done_taking()
    }

    open spec fn send_step(before: Self, item: Item, after: Self, r: Result<(), S::SinkError>) -> bool {
        S::send_step(before.source(), item, after.source(), r) && after.in_flight() == before.in_flight() && after.step_fn() == before.step_fn() && after.done_taking() == before.done_taking()
    }

    open spec fn flush_step(before: Self, after: Self, r: Poll<Result<(), S::SinkError>>) -> bool {
        S::flush_step(before.source(), after.source(), r) && after.in_flight() == before.in_flight() && after.step_fn() == before.step_fn() && after.done_taking() == before.done_taking()
    }

    open spec fn close_step(before: Self, after: Self, r: Poll<Result<(), S::SinkError>>) -> bool {
        S::close_step(before.source(), after.source(), r) && after.in_flight() == before.in_flight() && after.step_fn() == before.step_fn() && after.done_taking() == before.done_taking()
    }

    fn poll_ready(&mut self, cx: &mut Context<'_>) -> (r: Poll<Result<(), S::SinkError>>) {
        self.stream.poll_ready(cx)
    }

    fn start_send(&mut self, item: Item) -> (r: Result<(), S::SinkError>) {
        self.stream.start_send(item)
    }

    fn poll_flush(&mut self, cx: &mut Context<'_>) -> (r: Poll<Result<(), S::SinkError>>) {
        self.stream.poll_flush(cx)
    }

    fn poll_close(&mut self, cx: &mut Context<'_>) -> (r: Poll<Result<(), S::SinkError>>) {
        self.stream.poll_close(cx)
    }
}

/// What the outcome of polling the source means for the poll call: an item
/// is put before the predicate and the call goes on, anything else is
/// returned as it is.
pub open spec fn take_while_on_source<Item>(polled: Poll<Option<Item>>) -> Progress<Item> {
    match polled {
        Poll::Pending => Progress::Return(Poll::Pending),
        Poll::Ready(None) => Progress::Return(Poll::Ready(None)),
        Poll::Ready(Some(_)) => Progress::Continue,
    }
}

/// What the poll call returns once the answer about `item` has been polled.
pub open spec fn take_while_on_step<Item>(polled: Poll<bool>, item: Item) -> Poll<Option<Item>> {
    match polled {
        Poll::Pending => Poll::Pending,
        Poll::Ready(true) => Poll::Ready(Some(item)),
        Poll::Ready(false) => Poll::Ready(None),
    }
}

/// Whether an answer is awaited once the events of `trace` have been taken,
/// starting with nothing in flight.
pub open spec fn take_while_busy<Item>(trace: Seq<Event<Item, bool>>) -> bool {
    trace.len() > 0 && match trace.last() {
        Event::Source(polled) => take_while_on_source(polled) is Continue,
        Event::Step(polled) => polled is Pending,
    }
}

/// Whether the predicate has failed in the course of `trace`.
pub open spec fn take_while_done<Item>(trace: Seq<Event<Item, bool>>) -> bool
    decreases trace.len(),
{
    trace.len() > 0 && (take_while_done(trace.drop_last()) || trace.last() == Event::<
        Item,
        bool,
    >::Step(Poll::Ready(false)))
}

/// The item that the predicate is being asked about after `trace`.
pub open spec fn take_while_stepping<Item>(trace: Seq<Event<Item, bool>>) -> Option<Item>
    decreases trace.len(),
{
    if trace.len() == 0 {
        None
    } else {
        match trace.last() {
            Event::Source(Poll::Ready(Some(item))) => Some(item),
            Event::Source(_) => None,
            Event::Step(Poll::Pending) => take_while_stepping(trace.drop_last()),
            Event::Step(Poll::Ready(_)) => None,
        }
    }
}

/// Whether `trace` is a run that a driver can produce: every event answers
/// the action that the combinator asked for at that point, and it asks for
/// none once the predicate has failed.
pub open spec fn take_while_valid<Item>(trace: Seq<Event<Item, bool>>) -> bool
    decreases trace.len(),
{
    trace.len() == 0 || (take_while_valid(trace.drop_last()) && !take_while_done(
        trace.drop_last(),
    ) && (take_while_busy(trace.drop_last()) <==> trace.last() is Step))
}

/// The outcomes of the poll calls that returned in the course of `trace`.
pub open spec fn take_while_outcomes<Item>(trace: Seq<Event<Item, bool>>) -> Seq<
    Poll<Option<Item>>,
>
    decreases trace.len(),
{
    if trace.len() == 0 {
        Seq::empty()
    } else {
        let before = take_while_outcomes(trace.drop_last());
        match trace.last() {
            Event::Source(polled) => match take_while_on_source(polled) {
                Progress::Return(outcome) => before.push(outcome),
                Progress::Continue => before,
            },
            Event::Step(polled) => match take_while_stepping(trace.drop_last()) {
                Some(item) => before.push(take_while_on_step(polled, item)),
                None => before,
            },
        }
    }
}

/// Whether every answer that arrives in `trace` is `p` of the item that was
/// asked about.
pub open spec fn take_while_resolves_by<Item>(
    trace: Seq<Event<Item, bool>>,
    p: spec_fn(Item) -> bool,
) -> bool
    decreases trace.len(),
{
    trace.len() == 0 || (take_while_resolves_by(trace.drop_last(), p) && (
    trace.last() matches Event::Step(Poll::Ready(answer)) ==> take_while_stepping(
        trace.drop_last(),
    ) matches Some(item) && answer == p(item)))
}

/// Sticky termination. Once the predicate has failed, no run goes on: the
/// combinator asks its driver for nothing any more, so neither the source
/// nor the predicate is consulted again, whatever the source still holds.
pub proof fn take_while_is_sticky<Item>(
    trace: Seq<Event<Item, bool>>,
    more: Seq<Event<Item, bool>>,
)
    requires
        take_while_valid(trace + more),
        take_while_done(trace),
    ensures
        more.len() == 0,
    decreases more.len(),
{
    if more.len() > 0 {
        let all = trace + more;
        assert(all.drop_last() == trace + more.drop_last());
        if more.len() > 1 {
            take_while_is_sticky(trace, more.drop_last());
        } else {
            assert(all.drop_last() == trace);
        }
    }
}

/// In every run, the items yielded downstream are a prefix of the source's
/// items, each of which satisfies the predicate. Once the predicate has
/// failed, the item it failed on is the last that was pulled from the
/// source and follows that prefix directly. Before that, the only item not
/// yet yielded is the one that is being asked about.
pub proof fn take_while_yields_prefix<Item>(trace: Seq<Event<Item, bool>>, p: spec_fn(Item) -> bool)
    requires
        take_while_valid(trace),
        take_while_resolves_by(trace, p),
    ensures
        yielded(take_while_outcomes(trace)) == source_items(trace).take(
            yielded(take_while_outcomes(trace)).len() as int,
        ),
        forall|i: int|
            0 <= i < yielded(take_while_outcomes(trace)).len() ==> p(
                #[trigger] source_items(trace)[i],
            ),
        take_while_done(trace) ==> !take_while_busy(trace) && source_items(trace).len() == yielded(
            take_while_outcomes(trace),
        ).len() + 1 && !p(source_items(trace).last()),
        !take_while_done(trace) ==> source_items(trace).len() == yielded(
            take_while_outcomes(trace),
        ).len() + (if take_while_busy(trace) {
            1nat
        } else {
            0nat
        }),
        take_while_busy(trace) ==> take_while_stepping(trace) == Some(source_items(trace).last()),
        !take_while_busy(trace) ==> take_while_stepping(trace) is None,
    decreases trace.len(),
{
    if trace.len() > 0 {
        let before = trace.drop_last();
        take_while_yields_prefix(before, p);
        let xs0 = source_items(before);
        let xs = source_items(trace);
        let out0 = take_while_outcomes(before);
        let out = take_while_outcomes(trace);
        let ys0 = yielded(out0);
        let ys = yielded(out);
        match trace.last() {
            Event::Source(polled) => {
                match take_while_on_source(polled) {
                    Progress::Return(outcome) => {
                        assert(out.drop_last() == out0);
                    },
                    Progress::Continue => {
                        assert(xs.take(ys.len() as int) == xs0.take(ys0.len() as int));
                    },
                }
            },
            Event::Step(polled) => {
                let item = take_while_stepping(before).unwrap();
                assert(out == out0.push(take_while_on_step(polled, item)));
                assert(out.drop_last() == out0);
                if polled == Poll::Ready(true) {
                    assert(ys == ys0.push(item));
                    assert(xs.take(ys.len() as int) == xs0.take(ys0.len() as int).push(item));
                }
            },
        }
    } else {
        assert(yielded(take_while_outcomes(trace)) =~= source_items(trace).take(0));
    }
}

/// Fused idempotence. Once nothing is in flight and the source has
/// terminated, so that polling it brings no further item, the combinator
/// stays terminated through any number of further events and yields nothing
/// more.
pub proof fn take_while_stays_terminated<Item>(
    trace: Seq<Event<Item, bool>>,
    more: Seq<Event<Item, bool>>,
)
    requires
        take_while_valid(trace + more),
        !take_while_busy(trace),
        forall|i: int|
            0 <= i < more.len() ==> !(#[trigger] more[i] matches Event::Source(Poll::Ready(Some(_)))),
    ensures
        !take_while_busy(trace + more),
        yielded(take_while_outcomes(trace + more)) == yielded(take_while_outcomes(trace)),
        source_items(trace + more) == source_items(trace),
    decreases more.len(),
{
    if more.len() == 0 {
        assert(trace + more == trace);
    } else {
        let all = trace + more;
        assert(all.drop_last() == trace + more.drop_last());
        assert(all.last() == more[more.len() - 1]);
        take_while_stays_terminated(trace, more.drop_last());
        match all.last() {
            Event::Source(polled) => {
                assert(take_while_outcomes(all).drop_last() == take_while_outcomes(
                    all.drop_last(),
                ));
            },
            Event::Step(polled) => {},
        }
    }
}

} // verus!
