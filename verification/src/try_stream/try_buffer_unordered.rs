//! `try_buffer_unordered`: run the futures that a stream hands out, several
//! at a time, and yield their results as they finish.

use vstd::prelude::*;
use core::future::Future;
use core::task::Context;
use crate::poll::{Flow, Poll, Progress};
use crate::sink::Sink;

verus! {

/// Stream combinator over a source of futures. It keeps up to a given number
/// of them in flight and yields each result when its future finishes,
/// whichever was started first. The first error, of the source or of a
/// future, is yielded at once and ends the stream; what is still in flight
/// then is dropped.
///
/// A poll call has two parts. The driver first polls the source for as long
/// as `wants_source` says so, reporting by `source_polled`. It then polls
/// the futures in flight one after the other, reporting each by
/// `step_polled`, until one has finished. If none has, `idle_outcome` is
/// what the poll call returns.
#[must_use]
pub struct TryBufferUnordered<St, Fut> {
    stream: St,
    source_done: bool,
    in_progress_queue: Vec<Fut>,
    max: usize,
    ended: bool,
}

impl<St, Fut> TryBufferUnordered<St, Fut> {
    /// The wrapped source.
    pub closed spec fn source(&self) -> St {
        self.stream
    }

    /// Whether the source has been seen exhausted.
    pub closed spec fn source_done(&self) -> bool {
        self.source_done
    }

    /// The futures in flight, in the order in which the source handed them
    /// out.
    pub closed spec fn in_flight(&self) -> Seq<Fut> {
        self.in_progress_queue@
    }

    /// The greatest number of futures that may be in flight at once.
    pub closed spec fn max(&self) -> usize {
        self.max
    }

    /// Whether an error has ended the stream.
    pub closed spec fn ended(&self) -> bool {
        self.ended
    }

    /// The concurrency bound: no more futures than `max` are in flight, and
    /// none once an error has ended the stream.
    pub open spec fn wf(&self) -> bool {
        &&& self.in_flight().len() <= self.max()
        &&& self.ended() ==> self.in_flight().len() == 0
    }

    /// Whether the source is to be polled: no error has ended the stream,
    /// the source is not exhausted, and there is room for one more future.
    pub open spec fn filling(&self) -> bool {
        !self.ended() && !self.source_done() && self.in_flight().len() < self.max()
    }

    /// Whether the stream has ended for good: by an error, or because the
    /// source is exhausted and nothing is in flight.
    pub open spec fn finished(&self) -> bool {
        self.ended() || (self.source_done() && self.in_flight().len() == 0)
    }

    /// Wraps `stream` with nothing in flight and room for `n` futures.
    pub fn new(stream: St, n: usize) -> (r: Self)
        ensures
            r.wf(),
            r.source() == stream,
            !r.source_done(),
            !r.ended(),
            r.in_flight().len() == 0,
            r.max() == n,
    {
        TryBufferUnordered {
            stream,
            source_done: false,
            in_progress_queue: Vec::new(),
            max: n,
            ended: false,
        }
    }

    /// The source this combinator pulls from.
    pub fn get_ref(&self) -> (r: &St)
        ensures
            *r == self.source(),
    {
        &self.stream
    }

    /// The source this combinator pulls from, for mutation. Whatever the
    /// caller leaves there is the source from then on; the rest of the
    /// combinator is untouched.
    pub fn get_mut(&mut self) -> (r: &mut St)
        ensures
            *r == old(self).source(),
            final(self).source() == *final(r),
            final(self).source_done() == old(self).source_done(),
            final(self).in_flight() == old(self).in_flight(),
            final(self).max() == old(self).max(),
            final(self).ended() == old(self).ended(),
    {
        &mut self.stream
    }

    /// Gives the source back and drops what is in flight.
    pub fn into_inner(self) -> (r: St)
        ensures
            r == self.source(),
    {
        self.stream
    }

    /// The number of futures in flight.
    pub fn in_flight_len(&self) -> (r: usize)
        ensures
            r == self.in_flight().len(),
    {
        self.in_progress_queue.len()
    }

    /// Whether the stream has ended for good.
    pub fn is_terminated(&self) -> (r: bool)
        ensures
            r == self.finished(),
    {
        self.ended || (self.source_done && self.in_progress_queue.len() == 0)
    }

    /// Whether the driver must poll the source next.
    pub fn wants_source(&self) -> (r: bool)
        ensures
            r == self.filling(),
    {
        !self.ended && !self.source_done && self.in_progress_queue.len() < self.max
    }

    /// Takes the outcome of polling the source.
    ///
    /// A future joins those in flight behind the others, and the source may
    /// be asked again. A suspended source changes nothing, an exhausted one
    /// is remembered as such; either way the source is done with for this
    /// poll call. An error drops everything in flight and ends the stream:
    /// the poll call yields the error.
    pub fn source_polled<E>(&mut self, polled: Poll<Option<Result<Fut, E>>>) -> (r: Flow<E>)
        requires
            old(self).wf(),
            old(self).filling(),
        ensures
            final(self).wf(),
            final(self).source() == old(self).source(),
            final(self).max() == old(self).max(),
            match polled {
                Poll::Ready(Some(Ok(fut))) => {
                    &&& r == Flow::<E>::Progress
                    &&& final(self).in_flight() == old(self).in_flight().push(fut)
                    &&& !final(self).source_done()
                    &&& !final(self).ended()
                },
                Poll::Ready(Some(Err(e))) => {
                    &&& r == Flow::Failed(e)
                    &&& final(self).ended()
                },
                Poll::Ready(None) => {
                    &&& r == Flow::<E>::Idle
                    &&& final(self).in_flight() == old(self).in_flight()
                    &&& final(self).source_done()
                    &&& !final(self).ended()
                },
                Poll::Pending => {
                    &&& r == Flow::<E>::Idle
                    &&& final(self).in_flight() == old(self).in_flight()
                    &&& !final(self).source_done()
                    &&& !final(self).ended()
                },
            },
    {
        match polled {
            Poll::Ready(Some(Ok(fut))) => {
                self.in_progress_queue.push(fut);
                Flow::Progress
            },
            Poll::Ready(Some(Err(e))) => {
                self.in_progress_queue = Vec::new();
                self.ended = true;
                Flow::Failed(e)
            },
            Poll::Ready(None) => {
                self.source_done = true;
                Flow::Idle
            },
            Poll::Pending => Flow::Idle,
        }
    }

    /// The future at `index` among those in flight, for the driver to poll.
    pub fn step_mut(&mut self, index: usize) -> (r: &mut Fut)
        requires
            index < old(self).in_flight().len(),
        ensures
            *r == old(self).in_flight()[index as int],
            final(self).in_flight() == old(self).in_flight().update(index as int, *final(r)),
            final(self).source() == old(self).source(),
            final(self).source_done() == old(self).source_done(),
            final(self).max() == old(self).max(),
            final(self).ended() == old(self).ended(),
    {
        &mut self.in_progress_queue[index]
    }

    /// Takes the outcome of polling the future at `index`.
    ///
    /// A suspended future stays where it is and the driver goes on to the
    /// next. A future that finished leaves those in flight, the others
    /// keeping their order, and its result is the stream's next item,
    /// wherever the future stood. If the result is an error, everything
    /// else in flight is dropped too and the stream has ended.
    pub fn step_polled<T, E>(&mut self, index: usize, polled: Poll<Result<T, E>>) -> (r: Progress<
        Result<T, E>,
    >)
        where Fut: Future<Output = Result<T, E>>
        requires
            old(self).wf(),
            index < old(self).in_flight().len(),
        ensures
            final(self).wf(),
            final(self).source() == old(self).source(),
            final(self).source_done() == old(self).source_done(),
            final(self).max() == old(self).max(),
            r == buffer_on_step(polled),
            match polled {
                Poll::Pending => final(self).in_flight() == old(self).in_flight()
                    && !final(self).ended(),
                Poll::Ready(Ok(_)) => final(self).in_flight() == old(self).in_flight().remove(
                    index as int,
                ) && !final(self).ended(),
                Poll::Ready(Err(_)) => final(self).ended(),
            },
    {
        match polled {
            Poll::Pending => Progress::Continue,
            Poll::Ready(Ok(value)) => {
                let _ = self.in_progress_queue.remove(index);
                Progress::Return(Poll::Ready(Some(Ok(value))))
            },
            Poll::Ready(Err(e)) => {
                self.in_progress_queue = Vec::new();
                self.ended = true;
                Progress::Return(Poll::Ready(Some(Err(e))))
            },
        }
    }

    /// What the poll call returns when no future in flight has finished:
    /// exhausted once the stream has ended for good, suspended before.
    pub fn idle_outcome<T>(&self) -> (r: Poll<Option<T>>)
        ensures
            r == (if self.finished() {
                Poll::<Option<T>>::Ready(None)
            } else {
                Poll::<Option<T>>::Pending
            }),
    {
        if self.ended || (self.source_done && self.in_progress_queue.len() == 0) {
            Poll::Ready(None)
        } else {
            Poll::Pending
        }
    }
}

/// The sink half of a wrapped source passes through unchanged: every
/// operation is the source's own, with the source's error, and touches
/// nothing else in the combinator.
impl<S, Fut, Item> Sink<Item> for TryBufferUnordered<S, Fut> where S: Sink<Item> {
    type SinkError = S::SinkError;

    open spec fn ready_step(before: Self, after: Self, r: Poll<Result<(), S::SinkError>>) -> bool {
        S::ready_step(before.source(), after.source(), r) && same_buffer(before, after)
    }

    open spec fn send_step(
        before: Self,
        item: Item,
        after: Self,
        r: Result<(), S::SinkError>,
    ) -> bool {
        S::send_step(before.source(), item, after.source(), r) && same_buffer(before, after)
    }

    open spec fn flush_step(before: Self, after: Self, r: Poll<Result<(), S::SinkError>>) -> bool {
        S::flush_step(before.source(), after.source(), r) && same_buffer(before, after)
    }

    open spec fn close_step(before: Self, after: Self, r: Poll<Result<(), S::SinkError>>) -> bool {
        S::close_step(before.source(), after.source(), r) && same_buffer(before, after)
    }

    fn poll_ready(&mut self, cx: &mut Context<'_>) -> (r: Poll<Result<(), S::SinkError>>) {
        self.stream.poll_ready(cx)
    }

    fn start_send(&mut self, item: Item) -> (r: Result<(), S::SinkError>) {
        self.stream.start_send(item)
    }

    fn poll_flush(&mut self, cx: &mut Context<'_>) -> (r: Poll<Result<(), S::SinkError>>) {
        self.stream.poll_flush(cx)
    }

    fn poll_close(&mut self, cx: &mut Context<'_>) -> (r: Poll<Result<(), S::SinkError>>) {
        self.stream.poll_close(cx)
    }
}

/// Whether two states of the combinator differ in the source at most.
pub open spec fn same_buffer<St, Fut>(
    before: TryBufferUnordered<St, Fut>,
    after: TryBufferUnordered<St, Fut>,
) -> bool {
    &&& after.source_done() == before.source_done()
    &&& after.in_flight() == before.in_flight()
    &&& after.max() == before.max()
    &&& after.ended() == before.ended()
}

/// What the outcome of polling a future in flight means for the poll call:
/// a result is yielded at once, a suspended future sends the driver on to
/// the next.
pub open spec fn buffer_on_step<T, E>(polled: Poll<Result<T, E>>) -> Progress<Result<T, E>> {
    match polled {
        Poll::Pending => Progress::Continue,
        Poll::Ready(result) => Progress::Return(Poll::Ready(Some(result))),
    }
}

/// Fused idempotence. A stream that has ended for good stays so: it asks
/// for the source no more, and whatever is done to its source through
/// `get_mut`, it is still ended.
pub proof fn buffer_stays_finished<St, Fut>(
    before: TryBufferUnordered<St, Fut>,
    after: TryBufferUnordered<St, Fut>,
)
    requires
        before.wf(),
        before.finished(),
        same_buffer(before, after),
    ensures
        after.finished(),
        !after.filling(),
        after.in_flight().len() == 0,
{
}

} // verus!
