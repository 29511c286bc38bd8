//! A future that never resolves.

use vstd::prelude::*;
use core::marker::PhantomData;
use core::task::Context;
use crate::poll::Poll;

verus! {

/// Future of a computation that never finishes: every poll finds it
/// suspended.
#[derive(Debug)]
#[must_use]
pub struct Pending<T> {
    _data: PhantomData<T>,
}

/// Creates a future that never resolves, standing for a computation that
/// never finishes.
pub fn pending<T>() -> (r: Pending<T>)
    ensures
        !r.resolved(),
{
    Pending { _data: PhantomData }
}

impl<T> Pending<T> {
    /// Whether the future has handed out its value: it never has.
    pub open spec fn resolved(&self) -> bool {
        false
    }

    /// Whether the future has resolved, so that it must not be polled again:
    /// never.
    pub fn is_terminated(&self) -> (r: bool)
        ensures
            r == self.resolved(),
    {
        false
    }

    /// Polls the future, which is suspended now as ever and stays as it is.
    pub fn poll(&mut self, cx: &mut Context<'_>) -> (r: Poll<T>)
        ensures
            r is Pending,
            *final(self) == *old(self),
    {
        Poll::Pending
    }
}

} // verus!
