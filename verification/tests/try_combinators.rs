use futures_combinators::poll::{Action, Poll, Progress};
use futures_combinators::try_stream::and_then::AndThen;
use futures_combinators::try_stream::err_into::ErrInto;
use futures_combinators::try_stream::inspect_err::InspectErr;
use futures_combinators::try_stream::inspect_ok::InspectOk;
use futures_combinators::try_stream::map_err::MapErr;
use futures_combinators::try_stream::map_ok::MapOk;
use futures_combinators::try_stream::try_filter::TryFilter;
use futures_combinators::try_stream::try_filter_map::TryFilterMap;
use std::future::{ready, Future};
use std::pin::Pin;
use std::task::{Context, Waker};

fn poll_once<F: Future + Unpin>(fut: &mut F) -> Poll<F::Output> {
    let mut cx = Context::from_waker(Waker::noop());
    match Pin::new(fut).poll(&mut cx) {
        std::task::Poll::Ready(value) => Poll::Ready(value),
        std::task::Poll::Pending => Poll::Pending,
    }
}

type Source = std::vec::IntoIter<Result<u32, u8>>;

fn source(items: Vec<Result<u32, u8>>) -> Source {
    items.into_iter()
}

#[test]
fn map_ok_transforms_successes_one_for_one() {
    let mut combinator = MapOk::new(source(vec![Ok(1), Err(7), Ok(3)]), |x: u32| x * 10);
    let mut seen: Vec<Result<u32, u8>> = Vec::new();
    loop {
        let polled = Poll::Ready(combinator.get_mut().next());
        match combinator.source_polled(polled) {
            Poll::Ready(Some(item)) => seen.push(item),
            Poll::Ready(None) => break,
            Poll::Pending => unreachable!(),
        }
    }
    assert_eq!(seen, vec![Ok(10), Err(7), Ok(30)]);
    let pending: Poll<Option<Result<u32, u8>>> = Poll::Pending;
    assert_eq!(combinator.source_polled(pending), Poll::Pending);
    assert!(combinator.is_terminated(true));
    assert!(!combinator.is_terminated(false));
    assert_eq!(combinator.get_ref().len(), 0);
    assert_eq!(combinator.into_inner().len(), 0);
}

#[test]
fn map_err_transforms_errors_one_for_one() {
    let mut combinator =
        MapErr::new(source(vec![Ok(1), Err(7), Err(8)]), |e: u8| format!("e{}", e));
    let mut seen: Vec<Result<u32, String>> = Vec::new();
    loop {
        let polled = Poll::Ready(combinator.get_mut().next());
        match combinator.source_polled(polled) {
            Poll::Ready(Some(item)) => seen.push(item),
            Poll::Ready(None) => break,
            Poll::Pending => unreachable!(),
        }
    }
    assert_eq!(seen, vec![Ok(1), Err("e7".to_string()), Err("e8".to_string())]);
    let pending: Poll<Option<Result<u32, u8>>> = Poll::Pending;
    assert_eq!(combinator.source_polled(pending), Poll::Pending);
    assert!(combinator.is_terminated(true));
    assert_eq!(combinator.get_ref().len(), 0);
    assert_eq!(combinator.into_inner().len(), 0);
}

#[test]
fn err_into_converts_errors_only() {
    let mut combinator: ErrInto<Source, u64> = ErrInto::new(source(vec![Ok(1), Err(7)]));
    let first = Poll::Ready(combinator.get_mut().next());
    assert_eq!(combinator.source_polled(first), Poll::Ready(Some(Ok(1))));
    let second = Poll::Ready(combinator.get_mut().next());
    assert_eq!(combinator.source_polled(second), Poll::Ready(Some(Err(7u64))));
    let third = Poll::Ready(combinator.get_mut().next());
    assert_eq!(combinator.source_polled(third), Poll::Ready(None));
    let pending: Poll<Option<Result<u32, u8>>> = Poll::Pending;
    assert_eq!(combinator.source_polled(pending), Poll::Pending);
    assert!(combinator.is_terminated(true));
    assert_eq!(combinator.get_ref().len(), 0);
    assert_eq!(combinator.into_inner().len(), 0);
}

#[test]
fn inspect_ok_sees_successes_and_changes_nothing() {
    let mut seen: Vec<u32> = Vec::new();
    {
        let mut combinator =
            InspectOk::new(source(vec![Ok(1), Err(7), Ok(3)]), |x: &u32| seen.push(*x));
        let first = Poll::Ready(combinator.get_mut().next());
        assert_eq!(combinator.source_polled(first), Poll::Ready(Some(Ok(1))));
        let second = Poll::Ready(combinator.get_mut().next());
        assert_eq!(combinator.source_polled(second), Poll::Ready(Some(Err(7))));
        let third = Poll::Ready(combinator.get_mut().next());
        assert_eq!(combinator.source_polled(third), Poll::Ready(Some(Ok(3))));
        let fourth = Poll::Ready(combinator.get_mut().next());
        assert_eq!(combinator.source_polled(fourth), Poll::Ready(None));
        let pending: Poll<Option<Result<u32, u8>>> = Poll::Pending;
        assert_eq!(combinator.source_polled(pending), Poll::Pending);
        assert!(combinator.is_terminated(true));
        assert_eq!(combinator.get_ref().len(), 0);
        assert_eq!(combinator.into_inner().len(), 0);
    }
    assert_eq!(seen, vec![1, 3]);
}

#[test]
fn inspect_err_sees_errors_and_changes_nothing() {
    let mut seen: Vec<u8> = Vec::new();
    {
        let mut combinator =
            InspectErr::new(source(vec![Ok(1), Err(7), Err(9)]), |e: &u8| seen.push(*e));
        let first = Poll::Ready(combinator.get_mut().next());
        assert_eq!(combinator.source_polled(first), Poll::Ready(Some(Ok(1))));
        let second = Poll::Ready(combinator.get_mut().next());
        assert_eq!(combinator.source_polled(second), Poll::Ready(Some(Err(7))));
        let third = Poll::Ready(combinator.get_mut().next());
        assert_eq!(combinator.source_polled(third), Poll::Ready(Some(Err(9))));
        let fourth = Poll::Ready(combinator.get_mut().next());
        assert_eq!(combinator.source_polled(fourth), Poll::Ready(None));
        assert!(combinator.is_terminated(true));
        assert_eq!(combinator.get_ref().len(), 0);
        assert_eq!(combinator.into_inner().len(), 0);
    }
    assert_eq!(seen, vec![7, 9]);
}

#[test]
fn and_then_chains_successes_and_passes_errors() {
    let mut combinator = AndThen::new(source(vec![Ok(1), Err(7), Ok(0), Ok(4)]), |x: u32| {
        ready(if x == 0 { Err(99u8) } else { Ok(x + 100) })
    });
    let mut seen: Vec<Result<u32, u8>> = Vec::new();
    let mut steps = 0;
    loop {
        match combinator.next_action() {
            Action::PollSource => {
                let polled = Poll::Ready(combinator.get_mut().next());
                match combinator.source_polled(polled) {
                    Progress::Return(Poll::Ready(Some(item))) => seen.push(item),
                    Progress::Return(Poll::Ready(None)) => break,
                    Progress::Return(Poll::Pending) => unreachable!(),
                    Progress::Continue => steps += 1,
                }
            }
            Action::PollStep => {
                assert!(!combinator.is_terminated(true));
                let polled = poll_once(combinator.step_mut());
                match combinator.step_polled(polled) {
                    Poll::Ready(Some(item)) => seen.push(item),
                    other => panic!("unexpected outcome {:?}", other),
                }
            }
            Action::Exhausted => unreachable!(),
        }
    }
    assert_eq!(seen, vec![Ok(101), Err(7), Err(99), Ok(104)]);
    assert_eq!(steps, 3);
    assert!(combinator.is_terminated(true));
    assert_eq!(combinator.step_polled(Poll::Pending), Poll::Pending);
    assert_eq!(combinator.get_ref().len(), 0);
    assert_eq!(combinator.into_inner().len(), 0);
}

#[test]
fn try_filter_keeps_accepted_successes_and_all_errors() {
    let mut combinator =
        TryFilter::new(source(vec![Ok(1), Ok(2), Err(7), Ok(3), Ok(4)]), |x: &u32| {
            ready(*x % 2 == 0)
        });
    let mut seen: Vec<Result<u32, u8>> = Vec::new();
    loop {
        match combinator.next_action() {
            Action::PollSource => {
                let polled = Poll::Ready(combinator.get_mut().next());
                match combinator.source_polled(polled) {
                    Progress::Return(Poll::Ready(Some(item))) => seen.push(item),
                    Progress::Return(Poll::Ready(None)) => break,
                    Progress::Return(Poll::Pending) => unreachable!(),
                    Progress::Continue => {}
                }
            }
            Action::PollStep => {
                assert!(!combinator.is_terminated(true));
                let polled = poll_once(combinator.step_mut());
                match combinator.step_polled::<u8>(polled) {
                    Progress::Return(Poll::Ready(Some(item))) => seen.push(item),
                    Progress::Return(other) => panic!("unexpected outcome {:?}", other),
                    Progress::Continue => {}
                }
            }
            Action::Exhausted => unreachable!(),
        }
    }
    assert_eq!(seen, vec![Ok(2), Err(7), Ok(4)]);
    assert!(combinator.is_terminated(true));
    assert_eq!(combinator.source_polled(Poll::Ready(Some(Ok::<u32, u8>(6)))), Progress::Continue);
    assert_eq!(combinator.step_polled::<u8>(Poll::Pending), Progress::Return(Poll::Pending));
    assert_eq!(combinator.next_action(), Action::PollStep);
    assert_eq!(
        combinator.step_polled::<u8>(Poll::Ready(true)),
        Progress::Return(Poll::Ready(Some(Ok(6))))
    );
    assert_eq!(combinator.get_ref().len(), 0);
    assert_eq!(combinator.into_inner().len(), 0);
}

#[test]
fn try_filter_map_keeps_present_values_and_errors() {
    let mut combinator =
        TryFilterMap::new(source(vec![Ok(1), Ok(2), Err(7), Ok(3), Ok(4)]), |x: u32| {
            ready(if x == 3 {
                Err(33u8)
            } else if x % 2 == 0 {
                Ok(Some(x * 2))
            } else {
                Ok(None)
            })
        });
    let mut seen: Vec<Result<u32, u8>> = Vec::new();
    let mut steps = 0;
    loop {
        match combinator.next_action() {
            Action::PollSource => {
                let polled = Poll::Ready(combinator.get_mut().next());
                match combinator.source_polled(polled) {
                    Progress::Return(Poll::Ready(Some(item))) => seen.push(item),
                    Progress::Return(Poll::Ready(None)) => break,
                    Progress::Return(Poll::Pending) => unreachable!(),
                    Progress::Continue => steps += 1,
                }
            }
            Action::PollStep => {
                assert!(!combinator.is_terminated(true));
                let polled = poll_once(combinator.step_mut());
                match combinator.step_polled(polled) {
                    Progress::Return(Poll::Ready(Some(item))) => seen.push(item),
                    Progress::Return(other) => panic!("unexpected outcome {:?}", other),
                    Progress::Continue => {}
                }
            }
            Action::Exhausted => unreachable!(),
        }
    }
    assert_eq!(seen, vec![Ok(4), Err(7), Err(33), Ok(8)]);
    assert_eq!(steps, 4);
    assert!(combinator.is_terminated(true));
    let pending: Poll<Result<Option<u32>, u8>> = Poll::Pending;
    assert_eq!(combinator.source_polled(Poll::Ready(Some(Ok(6)))), Progress::Continue);
    assert_eq!(combinator.step_polled(pending), Progress::Return(Poll::Pending));
    assert_eq!(combinator.next_action(), Action::PollStep);
    assert_eq!(combinator.get_ref().len(), 0);
    assert_eq!(combinator.into_inner().len(), 0);
}
