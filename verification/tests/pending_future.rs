use futures_combinators::future::pending::{pending, Pending};
use futures_combinators::poll::Poll;
use std::task::{Context, Waker};

#[test]
fn pending_never_resolves() {
    let mut cx = Context::from_waker(Waker::noop());
    let mut future: Pending<u32> = pending();
    let mut polls = 0;
    while polls < 100 {
        assert_eq!(future.poll(&mut cx), Poll::Pending);
        assert!(!future.is_terminated());
        polls += 1;
    }
}

#[test]
fn poll_tells_ready_from_pending() {
    let ready: Poll<u32> = Poll::Ready(1);
    let suspended: Poll<u32> = Poll::Pending;
    assert!(ready.is_ready());
    assert!(!ready.is_pending());
    assert!(suspended.is_pending());
    assert!(!suspended.is_ready());
}
