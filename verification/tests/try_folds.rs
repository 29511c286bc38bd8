use futures_combinators::poll::{Action, Poll};
use futures_combinators::try_stream::try_fold::TryFold;
use futures_combinators::try_stream::try_for_each::TryForEach;
use std::future::{ready, Future};
use std::pin::Pin;
use std::task::{Context, Waker};

struct Later<T> {
    polls_left: u32,
    value: Option<T>,
}

impl<T: Unpin> Future for Later<T> {
    type Output = T;

    fn poll(mut self: Pin<&mut Self>, _cx: &mut Context<'_>) -> std::task::Poll<T> {
        if self.polls_left == 0 {
            std::task::Poll::Ready(self.value.take().unwrap())
        } else {
            self.polls_left -= 1;
            std::task::Poll::Pending
        }
    }
}

fn poll_once<F: Future + Unpin>(fut: &mut F) -> Poll<F::Output> {
    let mut cx = Context::from_waker(Waker::noop());
    match Pin::new(fut).poll(&mut cx) {
        std::task::Poll::Ready(value) => Poll::Ready(value),
        std::task::Poll::Pending => Poll::Pending,
    }
}

type Source = std::vec::IntoIter<Result<u32, u8>>;

fn poll_for_each<Fut, F>(future: &mut TryForEach<Source, Fut, F>) -> Poll<Result<(), u8>>
where
    Fut: Future<Output = Result<(), u8>> + Unpin,
    F: FnMut(u32) -> Fut,
{
    loop {
        let outcome = match future.next_action() {
            Action::PollSource => {
                let polled = Poll::Ready(future.get_mut().next());
                future.source_polled(polled)
            }
            Action::PollStep => {
                let polled = poll_once(future.step_mut());
                future.step_polled(polled)
            }
            Action::Exhausted => unreachable!(),
        };
        if let Some(outcome) = outcome {
            return outcome;
        }
    }
}

fn poll_fold<Fut, F>(future: &mut TryFold<Source, Fut, u32, F>) -> Poll<Result<u32, u8>>
where
    Fut: Future<Output = Result<u32, u8>> + Unpin,
    F: FnMut(u32, u32) -> Fut,
{
    loop {
        let outcome = match future.next_action() {
            Action::PollSource => {
                let polled = Poll::Ready(future.get_mut().next());
                future.source_polled(polled)
            }
            Action::PollStep => {
                let polled = poll_once(future.step_mut());
                future.step_polled(polled)
            }
            Action::Exhausted => panic!("polled after it resolved"),
        };
        if let Some(outcome) = outcome {
            return outcome;
        }
    }
}

#[test]
fn try_for_each_runs_every_step_in_order() {
    let mut seen: Vec<u32> = Vec::new();
    let source: Vec<Result<u32, u8>> = vec![Ok(1), Ok(2), Ok(3)];
    let mut future = TryForEach::new(source.into_iter(), |x: u32| {
        seen.push(x);
        ready(Ok::<(), u8>(()))
    });
    assert_eq!(poll_for_each(&mut future), Poll::Ready(Ok(())));
    drop(future);
    assert_eq!(seen, vec![1, 2, 3]);
}

#[test]
fn try_for_each_stops_at_the_first_source_error() {
    let mut seen: Vec<u32> = Vec::new();
    let source: Vec<Result<u32, u8>> = vec![Ok(1), Err(7), Ok(3)];
    let mut future = TryForEach::new(source.into_iter(), |x: u32| {
        seen.push(x);
        ready(Ok::<(), u8>(()))
    });
    assert_eq!(poll_for_each(&mut future), Poll::Ready(Err(7)));
    assert_eq!(future.get_mut().len(), 1);
    drop(future);
    assert_eq!(seen, vec![1]);
}

#[test]
fn try_for_each_stops_at_the_first_step_error() {
    let source: Vec<Result<u32, u8>> = vec![Ok(1), Ok(2), Ok(3)];
    let mut future = TryForEach::new(source.into_iter(), |x: u32| {
        ready(if x == 2 { Err(22u8) } else { Ok(()) })
    });
    assert_eq!(poll_for_each(&mut future), Poll::Ready(Err(22)));
    assert_eq!(future.get_mut().len(), 1);
}

#[test]
fn try_for_each_waits_for_a_suspended_step() {
    let source: Vec<Result<u32, u8>> = vec![Ok(1), Ok(2)];
    let mut future = TryForEach::new(source.into_iter(), |_x: u32| Later {
        polls_left: 1,
        value: Some(Ok::<(), u8>(())),
    });
    assert_eq!(poll_for_each(&mut future), Poll::Pending);
    assert_eq!(future.next_action(), Action::PollStep);
    assert_eq!(future.get_mut().len(), 1);
    assert_eq!(poll_for_each(&mut future), Poll::Pending);
    assert_eq!(future.get_mut().len(), 0);
    assert_eq!(poll_for_each(&mut future), Poll::Ready(Ok(())));
    let pending: Poll<Option<Result<u32, u8>>> = Poll::Pending;
    assert_eq!(future.source_polled(pending), Some(Poll::Pending));
}

#[test]
fn try_fold_folds_the_successes_in_order() {
    let source: Vec<Result<u32, u8>> = vec![Ok(1), Ok(2), Ok(3)];
    let mut future =
        TryFold::new(source.into_iter(), |acc: u32, x: u32| ready(Ok::<u32, u8>(acc * 10 + x)), 0);
    assert_eq!(poll_fold(&mut future), Poll::Ready(Ok(123)));
    assert_eq!(future.next_action(), Action::Exhausted);
}

#[test]
fn try_fold_of_nothing_is_the_start_value() {
    let source: Vec<Result<u32, u8>> = Vec::new();
    let mut future =
        TryFold::new(source.into_iter(), |acc: u32, x: u32| ready(Ok::<u32, u8>(acc + x)), 42);
    assert_eq!(future.next_action(), Action::PollSource);
    assert_eq!(poll_fold(&mut future), Poll::Ready(Ok(42)));
}

#[test]
fn try_fold_stops_at_the_first_source_error() {
    let source: Vec<Result<u32, u8>> = vec![Ok(1), Err(7), Ok(3)];
    let mut future =
        TryFold::new(source.into_iter(), |acc: u32, x: u32| ready(Ok::<u32, u8>(acc + x)), 0);
    assert_eq!(poll_fold(&mut future), Poll::Ready(Err(7)));
    assert_eq!(future.get_mut().len(), 1);
    assert_eq!(future.next_action(), Action::Exhausted);
}

#[test]
fn try_fold_stops_at_the_first_step_error() {
    let source: Vec<Result<u32, u8>> = vec![Ok(1), Ok(2), Ok(3)];
    let mut future = TryFold::new(
        source.into_iter(),
        |acc: u32, x: u32| ready(if x == 2 { Err(acc as u8) } else { Ok(acc + x) }),
        5,
    );
    assert_eq!(poll_fold(&mut future), Poll::Ready(Err(6)));
    assert_eq!(future.get_mut().len(), 1);
    assert_eq!(future.next_action(), Action::Exhausted);
}

#[test]
fn try_fold_waits_for_a_suspended_step_and_source() {
    let source: Vec<Result<u32, u8>> = vec![Ok(4)];
    let mut future = TryFold::new(
        source.into_iter(),
        |acc: u32, x: u32| Later { polls_left: 2, value: Some(Ok::<u32, u8>(acc + x)) },
        1,
    );
    let pending: Poll<Option<Result<u32, u8>>> = Poll::Pending;
    assert_eq!(future.source_polled(pending), Some(Poll::Pending));
    assert_eq!(future.next_action(), Action::PollSource);
    assert_eq!(poll_fold(&mut future), Poll::Pending);
    assert_eq!(future.next_action(), Action::PollStep);
    assert_eq!(poll_fold(&mut future), Poll::Pending);
    assert_eq!(poll_fold(&mut future), Poll::Ready(Ok(5)));
}
