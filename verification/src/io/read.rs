//! A stream of byte chunks read as one sequence of bytes.

use vstd::prelude::*;
use vstd::slice::slice_subrange;
use crate::poll::Poll;

verus! {

/// What the reader holds between two reads.
enum ReadState {
    /// A chunk of which the bytes from `chunk_start` on are still to be
    /// served; there is at least one.
    Ready { chunk: Vec<u8>, chunk_start: usize },
    /// Nothing: the next read pulls a chunk from the stream.
    PendingChunk,
    /// The stream has ended or failed; every read finds the end of input.
    Eof,
}

/// Reader over a stream of byte chunks. A read is served from what is left
/// of the chunk at hand; only when nothing is left is the stream polled for
/// the next chunk. The end of the stream is the end of input, and an error
/// of the stream is the error of the read that met it.
///
/// One read, as the driver makes it: while `wants_source` holds, poll the
/// stream and report by `source_polled`, which may end the read; then copy
/// `remainder(room)` into the caller's buffer, report the number of bytes
/// by `consume`, and return that number.
#[must_use]
pub struct IntoAsyncRead<St> {
    stream: St,
    state: ReadState,
}

impl<St> IntoAsyncRead<St> {
    /// The wrapped stream.
    pub closed spec fn source(&self) -> St {
        self.stream
    }

    /// The bytes of the chunk at hand that are still to be served.
    pub closed spec fn left(&self) -> Seq<u8> {
        match self.state {
            ReadState::Ready { chunk, chunk_start } => chunk@.skip(chunk_start as int),
            _ => Seq::empty(),
        }
    }

    /// Whether the stream has ended or failed.
    pub closed spec fn at_end(&self) -> bool {
        self.state is Eof
    }

    /// A chunk at hand always has bytes left, and none is at hand once the
    /// stream has ended.
    pub closed spec fn wf(&self) -> bool {
        match self.state {
            ReadState::Ready { chunk, chunk_start } => chunk_start < chunk@.len(),
            _ => true,
        }
    }

    /// Wraps `stream`; no chunk is at hand.
    pub fn new(stream: St) -> (r: Self)
        ensures
            r.wf(),
            r.source() == stream,
            r.left().len() == 0,
            !r.at_end(),
    {
        IntoAsyncRead { stream, state: ReadState::PendingChunk }
    }

    /// The stream this reader pulls from, for the driver to poll.
    pub fn get_mut(&mut self) -> (r: &mut St)
        ensures
            *r == old(self).source(),
            final(self).source() == *final(r),
            final(self).left() == old(self).left(),
            final(self).at_end() == old(self).at_end(),
            final(self).wf() == old(self).wf(),
    {
        &mut self.stream
    }

    /// Whether a read must poll the stream before it can be served: nothing
    /// is left of the chunk at hand and the stream has not ended.
    pub fn wants_source(&self) -> (r: bool)
        requires
            self.wf(),
        ensures
            r == (self.left().len() == 0 && !self.at_end()),
    {
        match &self.state {
            ReadState::PendingChunk => true,
            _ => false,
        }
    }

    /// Takes the outcome of polling the stream while no chunk is at hand,
    /// and says what the read returns, if it returns now.
    ///
    /// A suspended stream suspends the read. A chunk with bytes in it is at
    /// hand from now on, an empty chunk is skipped; either way the read goes
    /// on. The end of the stream ends the read with no bytes, an error ends
    /// it with that error, and after either the reader is at the end of
    /// input for good.
    pub fn source_polled<E>(&mut self, polled: Poll<Option<Result<Vec<u8>, E>>>) -> (r: Option<
        Poll<Result<usize, E>>,
    >)
        requires
            old(self).wf(),
            old(self).left().len() == 0,
            !old(self).at_end(),
        ensures
            final(self).wf(),
            final(self).source() == old(self).source(),
            r == read_on_source(polled),
            final(self).left() == (match polled {
                Poll::Ready(Some(Ok(chunk))) => chunk@,
                _ => Seq::empty(),
            }),
            final(self).at_end() == (match polled {
                Poll::Ready(Some(Err(_))) => true,
                Poll::Ready(None) => true,
                _ => false,
            }),
    {
        match polled {
            Poll::Pending => Some(Poll::Pending),
            Poll::Ready(Some(Ok(chunk))) => {
                if chunk.len() > 0 {
                    self.state = ReadState::Ready { chunk, chunk_start: 0 };
                } else {
                    assert(chunk@ =~= Seq::empty());
                }
                None
            },
            Poll::Ready(Some(Err(e))) => {
                self.state = ReadState::Eof;
                Some(Poll::Ready(Err(e)))
            },
            Poll::Ready(None) => {
                self.state = ReadState::Eof;
                Some(Poll::Ready(Ok(0)))
            },
        }
    }

    /// The bytes that a read into a buffer of `room` bytes is served: the
    /// first `room` of those left of the chunk at hand, or all of them if
    /// there are fewer. At the end of input there are none.
    pub fn remainder(&self, room: usize) -> (r: &[u8])
        requires
            self.wf(),
        ensures
            r@ == self.left().take(served_len(self.left().len(), room)),
    {
        match &self.state {
            ReadState::Ready { chunk, chunk_start } => {
                let left = chunk.len() - *chunk_start;
                let len = if room < left {
                    room
                } else {
                    left
                };
                let r = slice_subrange(chunk.as_slice(), *chunk_start, *chunk_start + len);
                assert(r@ =~= self.left().take(served_len(self.left().len(), room)));
                r
            },
            _ => {
                let r = slice_subrange(&[], 0, 0);
                assert(r@ =~= self.left().take(served_len(self.left().len(), room)));
                r
            },
        }
    }

    /// Marks the first `n` of the bytes left as served. What was left is
    /// what was served followed by what is left now; once nothing is left,
    /// the chunk is dropped and the next read pulls another.
    pub fn consume(&mut self, n: usize)
        requires
            old(self).wf(),
            n <= old(self).left().len(),
        ensures
            final(self).wf(),
            final(self).source() == old(self).source(),
            final(self).at_end() == old(self).at_end(),
            final(self).left() == old(self).left().skip(n as int),
            old(self).left() == old(self).left().take(n as int) + final(self).left(),
    {
        let mut state = ReadState::PendingChunk;
        core::mem::swap(&mut self.state, &mut state);
        match state {
            ReadState::Ready { chunk, chunk_start } => {
                assert(chunk_start < chunk@.len());
                assert(old(self).left().len() == chunk@.len() - chunk_start);
                let len = chunk.len();
                let next = chunk_start + n;
                if next < len {
                    self.state = ReadState::Ready { chunk, chunk_start: next };
                }
            },
            other => {
                self.state = other;
            },
        }
        assert(final(self).left() =~= old(self).left().skip(n as int));
        assert(old(self).left() =~= old(self).left().take(n as int) + old(self).left().skip(
            n as int,
        ));
    }

    /// Gives the stream back and drops what is left of the chunk at hand.
    pub fn into_inner(self) -> (r: St)
        ensures
            r == self.source(),
    {
        self.stream
    }
}

/// What the outcome of polling the stream means for the read: suspended,
/// ended with no bytes, failed, or, with a chunk, not decided yet.
pub open spec fn read_on_source<E>(polled: Poll<Option<Result<Vec<u8>, E>>>) -> Option<
    Poll<Result<usize, E>>,
> {
    match polled {
        Poll::Pending => Some(Poll::Pending),
        Poll::Ready(Some(Ok(_))) => None,
        Poll::Ready(Some(Err(e))) => Some(Poll::Ready(Err(e))),
        Poll::Ready(None) => Some(Poll::Ready(Ok(0usize))),
    }
}

/// How many bytes a read with `room` bytes of room is served when `left`
/// bytes are left.
pub open spec fn served_len(left: nat, room: usize) -> int {
    if room < left {
        room as int
    } else {
        left as int
    }
}

} // verus!
