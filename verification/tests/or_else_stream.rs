use futures_combinators::poll::{Action, Poll, Progress};
use futures_combinators::try_stream::or_else::OrElse;
use std::future::{ready, Future};
use std::pin::Pin;
use std::task::{Context, Waker};

fn poll_once<F: Future + Unpin>(fut: &mut F) -> Poll<F::Output> {
    let mut cx = Context::from_waker(Waker::noop());
    match Pin::new(fut).poll(&mut cx) {
        std::task::Poll::Ready(value) => Poll::Ready(value),
        std::task::Poll::Pending => Poll::Pending,
    }
}

type Script = std::vec::IntoIter<Result<u32, String>>;

fn poll_next<Fut, F>(
    combinator: &mut OrElse<Script, Fut, F>,
    recoveries: &mut u32,
) -> Poll<Option<Result<u32, u8>>>
where
    Fut: Future<Output = Result<u32, u8>> + Unpin,
    F: FnMut(String) -> Fut,
{
    loop {
        match combinator.next_action() {
            Action::PollSource => {
                let polled = Poll::Ready(combinator.get_mut().next());
                match combinator.source_polled(polled) {
                    Progress::Return(outcome) => return outcome,
                    Progress::Continue => *recoveries += 1,
                }
            }
            Action::PollStep => {
                let polled = poll_once(combinator.step_mut());
                return combinator.step_polled(polled);
            }
            Action::Exhausted => return Poll::Ready(None),
        }
    }
}

#[test]
fn or_else_replaces_errors_and_keeps_successes() {
    let source: Vec<Result<u32, String>> = vec![Ok(1), Err("e".to_string()), Ok(2)];
    let mut recoveries = 0;
    let mut combinator = OrElse::new(source.into_iter(), |_e: String| ready(Ok::<u32, u8>(0)));
    assert_eq!(poll_next(&mut combinator, &mut recoveries), Poll::Ready(Some(Ok(1))));
    assert_eq!(recoveries, 0);
    assert_eq!(poll_next(&mut combinator, &mut recoveries), Poll::Ready(Some(Ok(0))));
    assert_eq!(recoveries, 1);
    assert_eq!(poll_next(&mut combinator, &mut recoveries), Poll::Ready(Some(Ok(2))));
    assert_eq!(poll_next(&mut combinator, &mut recoveries), Poll::Ready(None));
    assert_eq!(recoveries, 1);
    assert!(combinator.is_terminated(true));
}

#[test]
fn or_else_yields_the_error_of_a_failed_recovery() {
    let source: Vec<Result<u32, String>> = vec![Err("abc".to_string()), Ok(5)];
    let mut recoveries = 0;
    let mut combinator = OrElse::new(source.into_iter(), |e: String| {
        let len: u8 = e.len().try_into().unwrap();
        ready(Err::<u32, u8>(len))
    });
    assert_eq!(poll_next(&mut combinator, &mut recoveries), Poll::Ready(Some(Err(3))));
    assert_eq!(poll_next(&mut combinator, &mut recoveries), Poll::Ready(Some(Ok(5))));
    assert_eq!(poll_next(&mut combinator, &mut recoveries), Poll::Ready(None));
}

#[test]
fn or_else_source_polled_starts_a_recovery_for_errors_only() {
    let source: Vec<Result<u32, String>> = Vec::new();
    let mut combinator = OrElse::new(source.into_iter(), |_e: String| ready(Ok::<u32, u8>(0)));
    assert_eq!(combinator.source_polled(Poll::Pending), Progress::Return(Poll::Pending));
    assert_eq!(combinator.source_polled(Poll::Ready(None)), Progress::Return(Poll::Ready(None)));
    assert_eq!(
        combinator.source_polled(Poll::Ready(Some(Ok(4)))),
        Progress::Return(Poll::Ready(Some(Ok(4))))
    );
    assert_eq!(combinator.next_action(), Action::PollSource);
    assert_eq!(combinator.source_polled(Poll::Ready(Some(Err("x".to_string())))), Progress::Continue);
    assert_eq!(combinator.next_action(), Action::PollStep);
    assert!(!combinator.is_terminated(true));
    assert_eq!(combinator.step_polled(Poll::Pending), Poll::Pending);
    assert_eq!(combinator.next_action(), Action::PollStep);
    assert_eq!(combinator.step_polled(Poll::Ready(Err(9))), Poll::Ready(Some(Err(9))));
    assert_eq!(combinator.next_action(), Action::PollSource);
}

#[test]
fn or_else_gives_access_to_its_source() {
    let mut combinator =
        OrElse::new(vec![1u32], |_e: String| ready(Ok::<u32, u8>(0)));
    assert_eq!(combinator.get_ref(), &vec![1]);
    combinator.get_mut().push(2);
    assert!(!combinator.is_terminated(false));
    assert_eq!(combinator.into_inner(), vec![1, 2]);
}
