//! The polling protocol: outcomes, requests to the driver, and the events a
//! driver reports back.

use vstd::prelude::*;

verus! {

/// The outcome of one non-blocking attempt to advance a computation.
#[derive(Debug, Clone, Copy, PartialEq, Eq)]
pub enum Poll<T> {
    /// The computation produced a value.
    Ready(T),
    /// The computation is suspended; it has arranged to be polled again.
    Pending,
}

/// What a stream combinator needs from its driver before the current poll
/// call can return.
#[derive(Debug, Clone, Copy, PartialEq, Eq)]
pub enum Action {
    /// Poll the wrapped source for its next item.
    PollSource,
    /// Poll the suspended step.
    PollStep,
    /// Nothing: the combinator is exhausted for good.
    Exhausted,
}

/// What becomes of the current poll call once the combinator has seen an
/// event.
#[derive(Debug, Clone, Copy, PartialEq, Eq)]
pub enum Progress<T> {
    /// The poll call returns this outcome.
    Return(Poll<Option<T>>),
    /// The poll call goes on: ask the combinator for its next action.
    Continue,
}

/// What one event means for a combinator that keeps several steps in flight.
#[derive(Debug, Clone, Copy, PartialEq, Eq)]
pub enum Flow<E> {
    /// Something moved: a step was started or a step finished.
    Progress,
    /// Nothing moved.
    Idle,
    /// An error was met and all work in flight has been abandoned.
    Failed(E),
}

/// One report of a driver to a combinator with a step slot.
pub enum Event<Item, Out> {
    /// The outcome of polling the source.
    Source(Poll<Option<Item>>),
    /// The outcome of polling the suspended step.
    Step(Poll<Out>),
}

impl<T> Poll<T> {
    /// Whether a value was produced.
    pub fn is_ready(&self) -> (r: bool)
        ensures
            r == (*self is Ready),
    {
        match self {
            Poll::Ready(_) => true,
            Poll::Pending => false,
        }
    }

    /// Whether the computation is suspended.
    pub fn is_pending(&self) -> (r: bool)
        ensures
            r == (*self is Pending),
    {
        match self {
            Poll::Ready(_) => false,
            Poll::Pending => true,
        }
    }
}

/// The items that a source handed over in the course of `trace`, in order.
pub open spec fn source_items<Item, Out>(trace: Seq<Event<Item, Out>>) -> Seq<Item>
    decreases trace.len(),
{
    if trace.len() == 0 {
        Seq::empty()
    } else {
        let before = source_items(trace.drop_last());
        match trace.last() {
            Event::Source(Poll::Ready(Some(item))) => before.push(item),
            _ => before,
        }
    }
}

/// The items among `outcomes` that were handed downstream, in order.
pub open spec fn yielded<T>(outcomes: Seq<Poll<Option<T>>>) -> Seq<T>
    decreases outcomes.len(),
{
    if outcomes.len() == 0 {
        Seq::empty()
    } else {
        let before = yielded(outcomes.drop_last());
        match outcomes.last() {
            Poll::Ready(Some(item)) => before.push(item),
            _ => before,
        }
    }
}

/// Whether `answer` passes `polled` on one for one: suspended for suspended,
/// exhausted for exhausted, and for an item an item that `rel` allows in its
/// place.
pub open spec fn relays<A, B>(
    polled: Poll<Option<A>>,
    answer: Poll<Option<B>>,
    rel: spec_fn(A, B) -> bool,
) -> bool {
    match polled {
        Poll::Pending => answer is Pending,
        Poll::Ready(None) => answer == Poll::<Option<B>>::Ready(None),
        Poll::Ready(Some(item)) => answer matches Poll::Ready(Some(out)) && rel(item, out),
    }
}

/// A combinator that answers every outcome of its source one for one keeps
/// count and order: it yields as many items as the source, and the item in
/// each place stands for the source's item in that place.
pub proof fn relay_preserves_order<A, B>(
    polled: Seq<Poll<Option<A>>>,
    answers: Seq<Poll<Option<B>>>,
    rel: spec_fn(A, B) -> bool,
)
    requires
        polled.len() == answers.len(),
        forall|i: int| 0 <= i < polled.len() ==> relays(#[trigger] polled[i], answers[i], rel),
    ensures
        yielded(answers).len() == yielded(polled).len(),
        forall|k: int|
            0 <= k < yielded(polled).len() ==> rel(
                #[trigger] yielded(polled)[k],
                yielded(answers)[k],
            ),
    decreases polled.len(),
{
    if polled.len() > 0 {
        let last = polled.len() - 1;
        assert(relays(polled[last], answers[last], rel));
        relay_preserves_order(polled.drop_last(), answers.drop_last(), rel);
    }
}

} // verus!
