//! Wrappers that make a writer harder to use, for exercising code that
//! writes: one that takes only a few bytes per call, and one that is
//! suspended before every operation.

use vstd::prelude::*;
use vstd::slice::slice_subrange;

verus! {

/// Writer wrapper that offers the wrapped writer no more than `limit` bytes
/// in one write.
#[derive(Debug)]
pub struct Limited<Io> {
    io: Io,
    limit: usize,
}

impl<Io> Limited<Io> {
    /// The wrapped writer.
    pub closed spec fn inner(&self) -> Io {
        self.io
    }

    /// The greatest number of bytes that one write offers.
    pub closed spec fn limit(&self) -> usize {
        self.limit
    }

    /// Wraps `io`.
    pub fn new(io: Io, limit: usize) -> (r: Self)
        ensures
            r.inner() == io,
            r.limit() == limit,
    {
        Limited { io, limit }
    }

    /// The wrapped writer.
    pub fn get_ref(&self) -> (r: &Io)
        ensures
            *r == self.inner(),
    {
        &self.io
    }

    /// The wrapped writer, for mutation; the limit stays.
    pub fn get_mut(&mut self) -> (r: &mut Io)
        ensures
            *r == old(self).inner(),
            final(self).inner() == *final(r),
            final(self).limit() == old(self).limit(),
    {
        &mut self.io
    }

    /// Gives the wrapped writer back.
    pub fn into_inner(self) -> (r: Io)
        ensures
            r == self.inner(),
    {
        self.io
    }

    /// The part of `buf` that one write offers to the wrapped writer: its
    /// first `limit` bytes, or all of it if it has fewer.
    pub fn offered<'a>(&self, buf: &'a [u8]) -> (r: &'a [u8])
        ensures
            r@ == buf@.take(offered_len(self.limit(), buf@.len())),
    {
        let n = if self.limit < buf.len() {
            self.limit
        } else {
            buf.len()
        };
        slice_subrange(buf, 0, n)
    }
}

/// How many of `len` bytes a write with the given limit offers.
pub open spec fn offered_len(limit: usize, len: nat) -> int {
    if limit < len {
        limit as int
    } else {
        len as int
    }
}

/// Wrapper that answers every operation with one extra suspension: the
/// first poll of an operation finds it suspended without touching the
/// wrapped value, the polls after that go through until the wrapped value
/// is ready, and then the next operation starts with a suspension again.
#[derive(Debug)]
pub struct InterleavePending<T> {
    inner: T,
    pended: bool,
}

impl<T> InterleavePending<T> {
    /// The wrapped value.
    pub closed spec fn inner(&self) -> T {
        self.inner
    }

    /// Whether the extra suspension of the current operation has been
    /// given.
    pub closed spec fn pended(&self) -> bool {
        self.pended
    }

    /// Wraps `inner`; the first operation starts with a suspension.
    pub fn new(inner: T) -> (r: Self)
        ensures
            r.inner() == inner,
            !r.pended(),
    {
        InterleavePending { inner, pended: false }
    }

    /// The wrapped value.
    pub fn get_ref(&self) -> (r: &T)
        ensures
            *r == self.inner(),
    {
        &self.inner
    }

    /// The wrapped value, for mutation.
    pub fn get_mut(&mut self) -> (r: &mut T)
        ensures
            *r == old(self).inner(),
            final(self).inner() == *final(r),
            final(self).pended() == old(self).pended(),
    {
        &mut self.inner
    }

    /// Gives the wrapped value back.
    pub fn into_inner(self) -> (r: T)
        ensures
            r == self.inner(),
    {
        self.inner
    }

    /// Begins one poll of an operation and says whether it goes through to
    /// the wrapped value. If the extra suspension has not been given yet,
    /// this poll is it: the answer is no, and the caller wakes its task and
    /// reports that the operation is suspended.
    pub fn begin_poll(&mut self) -> (through: bool)
        ensures
            through == old(self).pended(),
            final(self).pended(),
            final(self).inner() == old(self).inner(),
    {
        if self.pended {
            true
        } else {
            self.pended = true;
            false
        }
    }

    /// Ends a poll that went through to the wrapped value. If the wrapped
    /// value was ready the operation is over, and the next one starts with
    /// a suspension again.
    pub fn end_poll(&mut self, ready: bool)
        requires
            old(self).pended(),
        ensures
            final(self).pended() == !ready,
            final(self).inner() == old(self).inner(),
    {
        if ready {
            self.pended = false;
        }
    }
}

/// Additional combinators for testing writers.
pub trait AsyncWriteTestExt: Sized {
    /// Puts one extra suspension before every operation on the writer.
    fn interleave_pending_write(self) -> (r: InterleavePending<Self>)
        ensures
            r.inner() == self,
            !r.pended(),
    {
        InterleavePending::new(self)
    }

    /// Limits the number of bytes that one write may hand to the writer.
    fn limited_write(self, limit: usize) -> (r: Limited<Self>)
        ensures
            r.inner() == self,
            r.limit() == limit,
    {
        Limited::new(self, limit)
    }
}

impl<W> AsyncWriteTestExt for W {
}

} // verus!
