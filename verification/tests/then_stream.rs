use futures_combinators::poll::{Action, Poll, Progress};
use futures_combinators::stream::then::Then;
use std::future::{ready, Future};
use std::pin::Pin;
use std::task::{Context, Waker};

/// A future that is suspended for a number of polls before it resolves.
struct Later {
    polls_left: u32,
    value: u32,
}

impl Future for Later {
    type Output = u32;

    fn poll(mut self: Pin<&mut Self>, _cx: &mut Context<'_>) -> std::task::Poll<u32> {
        if self.polls_left == 0 {
            std::task::Poll::Ready(self.value)
        } else {
            self.polls_left -= 1;
            std::task::Poll::Pending
        }
    }
}

fn poll_once<F: Future + Unpin>(fut: &mut F) -> Poll<F::Output> {
    let mut cx = Context::from_waker(Waker::noop());
    match Pin::new(fut).poll(&mut cx) {
        std::task::Poll::Ready(value) => Poll::Ready(value),
        std::task::Poll::Pending => Poll::Pending,
    }
}

type Script = std::vec::IntoIter<Poll<Option<u32>>>;

/// One poll call on the combinator, as a driver makes it.
fn poll_next<Fut, F>(then: &mut Then<Script, Fut, F>) -> Poll<Option<u32>>
where
    Fut: Future<Output = u32> + Unpin,
    F: FnMut(u32) -> Fut,
{
    loop {
        match then.next_action() {
            Action::PollSource => {
                let polled = then.get_mut().next().unwrap_or(Poll::Ready(None));
                match then.source_polled(polled) {
                    Progress::Return(outcome) => return outcome,
                    Progress::Continue => {}
                }
            }
            Action::PollStep => {
                let polled = poll_once(then.step_mut());
                return then.step_polled(polled);
            }
            Action::Exhausted => return Poll::Ready(None),
        }
    }
}

#[test]
fn then_maps_every_item_in_order() {
    let script: Vec<Poll<Option<u32>>> =
        vec![Poll::Ready(Some(1)), Poll::Ready(Some(2)), Poll::Ready(Some(3))];
    let mut then = Then::new(script.into_iter(), |x: u32| ready(x + 10));
    assert_eq!(poll_next(&mut then), Poll::Ready(Some(11)));
    assert_eq!(poll_next(&mut then), Poll::Ready(Some(12)));
    assert_eq!(poll_next(&mut then), Poll::Ready(Some(13)));
    assert_eq!(poll_next(&mut then), Poll::Ready(None));
    assert!(then.is_terminated(true));
}

#[test]
fn then_on_an_empty_source_yields_nothing() {
    let script: Vec<Poll<Option<u32>>> = vec![Poll::Ready(None)];
    let mut then = Then::new(script.into_iter(), |x: u32| ready(x));
    assert_eq!(poll_next(&mut then), Poll::Ready(None));
}

#[test]
fn then_passes_a_suspended_source_on() {
    let script: Vec<Poll<Option<u32>>> =
        vec![Poll::Pending, Poll::Ready(Some(4)), Poll::Pending, Poll::Ready(None)];
    let mut then = Then::new(script.into_iter(), |x: u32| ready(x * 2));
    assert_eq!(poll_next(&mut then), Poll::Pending);
    assert_eq!(then.next_action(), Action::PollSource);
    assert_eq!(poll_next(&mut then), Poll::Ready(Some(8)));
    assert_eq!(poll_next(&mut then), Poll::Pending);
    assert_eq!(poll_next(&mut then), Poll::Ready(None));
}

#[test]
fn then_does_not_poll_the_source_while_a_step_is_suspended() {
    let script: Vec<Poll<Option<u32>>> = vec![Poll::Ready(Some(5)), Poll::Ready(Some(6))];
    let mut then = Then::new(script.into_iter(), |x: u32| Later { polls_left: 2, value: x + 1 });
    assert_eq!(poll_next(&mut then), Poll::Pending);
    assert_eq!(then.next_action(), Action::PollStep);
    assert_eq!(then.get_ref().len(), 1);
    assert!(!then.is_terminated(true));
    assert_eq!(poll_next(&mut then), Poll::Pending);
    assert_eq!(then.get_ref().len(), 1);
    assert_eq!(poll_next(&mut then), Poll::Ready(Some(6)));
    assert_eq!(then.next_action(), Action::PollSource);
    assert_eq!(poll_next(&mut then), Poll::Pending);
    assert_eq!(then.get_ref().len(), 0);
}

#[test]
fn then_source_polled_reports_progress() {
    let script: Vec<Poll<Option<u32>>> = Vec::new();
    let mut then = Then::new(script.into_iter(), |x: u32| ready(x));
    assert_eq!(then.source_polled(Poll::Pending), Progress::Return(Poll::Pending));
    assert_eq!(then.source_polled(Poll::Ready(None)), Progress::Return(Poll::Ready(None)));
    assert_eq!(then.source_polled(Poll::Ready(Some(9))), Progress::Continue);
    assert_eq!(then.next_action(), Action::PollStep);
    assert_eq!(then.step_polled(Poll::Pending), Poll::Pending);
    assert_eq!(then.next_action(), Action::PollStep);
    assert_eq!(then.step_polled(Poll::Ready(9)), Poll::Ready(Some(9)));
    assert_eq!(then.next_action(), Action::PollSource);
}

#[test]
fn then_is_terminated_needs_an_empty_slot_and_a_terminated_source() {
    let script: Vec<Poll<Option<u32>>> = Vec::new();
    let mut then = Then::new(script.into_iter(), |x: u32| ready(x));
    assert!(then.is_terminated(true));
    assert!(!then.is_terminated(false));
    assert_eq!(then.source_polled(Poll::Ready(Some(1))), Progress::Continue);
    assert!(!then.is_terminated(true));
    assert_eq!(then.step_polled(Poll::Ready(1)), Poll::Ready(Some(1)));
    assert!(then.is_terminated(true));
    assert_eq!(then.source_polled(Poll::Ready(None)), Progress::Return(Poll::Ready(None)));
    assert!(then.is_terminated(true));
    assert_eq!(then.source_polled(Poll::Pending), Progress::Return(Poll::Pending));
    assert!(then.is_terminated(true));
}

#[test]
fn then_gives_access_to_its_source() {
    let mut then = Then::new(vec![1u32, 2, 3], |x: u32| ready(x));
    assert_eq!(then.get_ref(), &vec![1, 2, 3]);
    then.get_mut().push(4);
    assert_eq!(then.get_ref(), &vec![1, 2, 3, 4]);
    assert_eq!(then.into_inner(), vec![1, 2, 3, 4]);
}

#[test]
fn then_shows_the_step_in_flight() {
    let mut then = Then::new(vec![1u32], |x: u32| Later { polls_left: 3, value: x });
    assert!(then.step_ref().is_none());
    assert_eq!(then.source_polled(Poll::Ready(Some(8))), Progress::Continue);
    assert_eq!(then.step_ref().map(|step| step.value), Some(8));
    assert_eq!(then.step_polled(Poll::Ready(8)), Poll::Ready(Some(8)));
    assert!(then.step_ref().is_none());
}
