use futures_channel::mpsc::{channel, unbounded};
use futures_combinators::poll::Poll;
use futures_combinators::sink::channel::{failure_for, flush_outcome, SendFailure};
use futures_combinators::sink::Sink;
use futures_combinators::stream::then::Then;
use std::future::{ready, Ready};
use std::task::{Context, Waker};

#[test]
fn flush_outcome_counts_a_gone_receiver_as_flushed() {
    assert_eq!(flush_outcome(Poll::Ready(Err(SendFailure::Disconnected))), Poll::Ready(Ok(())));
    assert_eq!(flush_outcome(Poll::Ready(Ok(()))), Poll::Ready(Ok(())));
    assert_eq!(flush_outcome(Poll::Pending), Poll::Pending);
    assert_eq!(
        flush_outcome(Poll::Ready(Err(SendFailure::Full))),
        Poll::Ready(Err(SendFailure::Full))
    );
}

#[test]
fn failure_for_knows_two_reasons() {
    assert_eq!(failure_for(true), SendFailure::Disconnected);
    assert_eq!(failure_for(false), SendFailure::Full);
}

#[test]
fn send_failure_tells_its_kind() {
    assert!(SendFailure::Full.is_full());
    assert!(!SendFailure::Full.is_disconnected());
    assert!(SendFailure::Disconnected.is_disconnected());
    assert!(!SendFailure::Disconnected.is_full());
}

#[test]
fn disconnected_sender_flushes_and_closes_with_success() {
    let mut cx = Context::from_waker(Waker::noop());
    let (mut tx, rx) = channel::<u32>(1);
    drop(rx);
    assert_eq!(Sink::poll_ready(&mut tx, &mut cx), Poll::Ready(Err(SendFailure::Disconnected)));
    assert_eq!(tx.poll_flush(&mut cx), Poll::Ready(Ok(())));
    assert_eq!(tx.poll_close(&mut cx), Poll::Ready(Ok(())));
    assert_eq!(tx.poll_flush(&mut cx), Poll::Ready(Ok(())));
    assert_eq!(tx.poll_close(&mut cx), Poll::Ready(Ok(())));
    assert_eq!(Sink::start_send(&mut tx, 1), Err(SendFailure::Disconnected));
}

#[test]
fn sender_hands_items_to_the_receiver() {
    let mut cx = Context::from_waker(Waker::noop());
    let (mut tx, mut rx) = channel::<u32>(1);
    assert_eq!(Sink::poll_ready(&mut tx, &mut cx), Poll::Ready(Ok(())));
    assert_eq!(Sink::start_send(&mut tx, 41), Ok(()));
    assert_eq!(tx.poll_flush(&mut cx), Poll::Ready(Ok(())));
    assert_eq!(rx.try_recv(), Ok(41));
    assert_eq!(tx.poll_close(&mut cx), Poll::Ready(Ok(())));
    assert_eq!(Sink::poll_ready(&mut tx, &mut cx), Poll::Ready(Err(SendFailure::Disconnected)));
    assert!(rx.try_recv().unwrap_err().is_closed());
}

#[test]
fn full_sender_reports_full_on_send_and_suspends_when_asked() {
    let mut cx = Context::from_waker(Waker::noop());
    let (mut tx, _rx) = channel::<u32>(0);
    assert_eq!(Sink::start_send(&mut tx, 1), Ok(()));
    assert_eq!(Sink::start_send(&mut tx, 2), Err(SendFailure::Full));
    assert_eq!(Sink::poll_ready(&mut tx, &mut cx), Poll::Pending);
    assert_eq!(tx.poll_flush(&mut cx), Poll::Pending);
}

#[test]
fn unbounded_sender_is_a_sink() {
    let mut cx = Context::from_waker(Waker::noop());
    let (mut tx, mut rx) = unbounded::<u32>();
    assert_eq!(Sink::poll_ready(&mut tx, &mut cx), Poll::Ready(Ok(())));
    assert_eq!(Sink::start_send(&mut tx, 5), Ok(()));
    assert_eq!(tx.poll_flush(&mut cx), Poll::Ready(Ok(())));
    assert_eq!(rx.try_recv(), Ok(5));
    drop(rx);
    assert_eq!(Sink::poll_ready(&mut tx, &mut cx), Poll::Ready(Err(SendFailure::Disconnected)));
    assert_eq!(Sink::start_send(&mut tx, 6), Err(SendFailure::Disconnected));
    assert_eq!(tx.poll_flush(&mut cx), Poll::Ready(Ok(())));
    assert_eq!(tx.poll_close(&mut cx), Poll::Ready(Ok(())));
    assert_eq!(tx.poll_close(&mut cx), Poll::Ready(Ok(())));
}

#[test]
fn shared_unbounded_sender_is_a_sink() {
    let mut cx = Context::from_waker(Waker::noop());
    let (tx, mut rx) = unbounded::<u32>();
    let mut handle = &tx;
    assert_eq!(Sink::poll_ready(&mut handle, &mut cx), Poll::Ready(Ok(())));
    assert_eq!(Sink::start_send(&mut handle, 8), Ok(()));
    assert_eq!(handle.poll_flush(&mut cx), Poll::Ready(Ok(())));
    assert_eq!(rx.try_recv(), Ok(8));
    assert_eq!(handle.poll_close(&mut cx), Poll::Ready(Ok(())));
    assert!(tx.is_closed());
    assert_eq!(Sink::start_send(&mut handle, 9), Err(SendFailure::Disconnected));
    assert_eq!(handle.poll_flush(&mut cx), Poll::Ready(Ok(())));
    assert!(rx.try_recv().unwrap_err().is_closed());
}

#[test]
fn combinator_passes_the_sink_half_through() {
    let mut cx = Context::from_waker(Waker::noop());
    let (tx, mut rx) = channel::<u32>(1);
    let step: fn(u32) -> Ready<u32> = ready;
    let mut then = Then::new(tx, step);
    assert_eq!(then.poll_ready(&mut cx), Poll::Ready(Ok(())));
    assert_eq!(then.start_send(3), Ok(()));
    assert_eq!(then.poll_flush(&mut cx), Poll::Ready(Ok(())));
    assert_eq!(rx.try_recv(), Ok(3));
    drop(rx);
    assert_eq!(then.poll_ready(&mut cx), Poll::Ready(Err(SendFailure::Disconnected)));
    assert_eq!(then.poll_flush(&mut cx), Poll::Ready(Ok(())));
    assert_eq!(then.poll_close(&mut cx), Poll::Ready(Ok(())));
}
