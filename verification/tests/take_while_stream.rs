use futures_combinators::poll::{Action, Poll, Progress};
use futures_combinators::stream::take_while::TakeWhile;
use std::future::{ready, Future};
use std::pin::Pin;
use std::task::{Context, Waker};

fn poll_once<F: Future + Unpin>(fut: &mut F) -> Poll<F::Output> {
    let mut cx = Context::from_waker(Waker::noop());
    match Pin::new(fut).poll(&mut cx) {
        std::task::Poll::Ready(value) => Poll::Ready(value),
        std::task::Poll::Pending => Poll::Pending,
    }
}

type Script = std::vec::IntoIter<u32>;

fn poll_next<Fut, F>(combinator: &mut TakeWhile<Script, Fut, F, u32>) -> Poll<Option<u32>>
where
    Fut: Future<Output = bool> + Unpin,
    F: FnMut(&u32) -> Fut,
{
    loop {
        match combinator.next_action() {
            Action::PollSource => {
                let polled = Poll::Ready(combinator.get_mut().next());
                match combinator.source_polled(polled) {
                    Progress::Return(outcome) => return outcome,
                    Progress::Continue => {}
                }
            }
            Action::PollStep => {
                let polled = poll_once(combinator.step_mut());
                return combinator.step_polled(polled);
            }
            Action::Exhausted => return Poll::Ready(None),
        }
    }
}

#[test]
fn take_while_ends_for_good_at_the_first_failure() {
    let source: Vec<u32> = vec![1, 2, 3, 0, 4];
    let mut combinator = TakeWhile::new(source.into_iter(), |x: &u32| ready(*x < 3));
    assert_eq!(poll_next(&mut combinator), Poll::Ready(Some(1)));
    assert_eq!(poll_next(&mut combinator), Poll::Ready(Some(2)));
    assert_eq!(poll_next(&mut combinator), Poll::Ready(None));
    assert_eq!(combinator.next_action(), Action::Exhausted);
    assert_eq!(poll_next(&mut combinator), Poll::Ready(None));
    assert_eq!(poll_next(&mut combinator), Poll::Ready(None));
    assert_eq!(combinator.get_ref().as_slice(), &[0, 4]);
    assert!(combinator.is_terminated(false));
    assert!(combinator.is_terminated(true));
}

#[test]
fn take_while_yields_everything_while_the_predicate_holds() {
    let source: Vec<u32> = vec![1, 2];
    let mut combinator = TakeWhile::new(source.into_iter(), |_x: &u32| ready(true));
    assert_eq!(poll_next(&mut combinator), Poll::Ready(Some(1)));
    assert_eq!(poll_next(&mut combinator), Poll::Ready(Some(2)));
    assert!(!combinator.is_terminated(false));
    assert_eq!(poll_next(&mut combinator), Poll::Ready(None));
    assert_eq!(combinator.next_action(), Action::PollSource);
    assert!(combinator.is_terminated(true));
}

#[test]
fn take_while_keeps_the_item_while_the_answer_is_suspended() {
    let source: Vec<u32> = Vec::new();
    let mut combinator = TakeWhile::new(source.into_iter(), |x: &u32| ready(*x > 0));
    assert_eq!(combinator.source_polled(Poll::Pending), Progress::Return(Poll::Pending));
    assert_eq!(combinator.source_polled(Poll::Ready(Some(7))), Progress::Continue);
    assert_eq!(combinator.next_action(), Action::PollStep);
    assert!(!combinator.is_terminated(true));
    assert_eq!(combinator.step_polled(Poll::Pending), Poll::Pending);
    assert_eq!(combinator.next_action(), Action::PollStep);
    assert_eq!(combinator.step_polled(Poll::Ready(true)), Poll::Ready(Some(7)));
    assert_eq!(combinator.next_action(), Action::PollSource);
    assert_eq!(combinator.source_polled(Poll::Ready(Some(8))), Progress::Continue);
    assert_eq!(combinator.step_polled(Poll::Ready(false)), Poll::Ready(None));
    assert_eq!(combinator.next_action(), Action::Exhausted);
}

#[test]
fn take_while_gives_access_to_its_source() {
    let mut combinator = TakeWhile::new(vec![1u32, 2], |x: &u32| ready(*x < 2));
    assert_eq!(combinator.get_ref(), &vec![1, 2]);
    combinator.get_mut().push(3);
    assert_eq!(combinator.source_polled(Poll::Ready(Some(5))), Progress::Continue);
    assert_eq!(combinator.step_polled(Poll::Ready(false)), Poll::Ready(None));
    combinator.get_mut().push(4);
    assert_eq!(combinator.next_action(), Action::Exhausted);
    assert_eq!(combinator.into_inner(), vec![1, 2, 3, 4]);
}

#[test]
fn take_while_shows_what_is_in_flight() {
    let mut combinator = TakeWhile::new(vec![1u32], |x: &u32| ready(*x < 2));
    assert!(combinator.step_ref().is_none());
    assert_eq!(combinator.pending_item(), None);
    assert!(!combinator.is_done_taking());
    assert_eq!(combinator.source_polled(Poll::Ready(Some(5))), Progress::Continue);
    assert!(combinator.step_ref().is_some());
    assert_eq!(combinator.pending_item(), Some(&5));
    assert_eq!(combinator.step_polled(Poll::Ready(false)), Poll::Ready(None));
    assert!(combinator.step_ref().is_none());
    assert_eq!(combinator.pending_item(), None);
    assert!(combinator.is_done_taking());
}
