use futures_combinators::poll::{Action, Poll, Progress};
use futures_combinators::stream::filter_map::FilterMap;
use std::future::{ready, Future};
use std::pin::Pin;
use std::task::{Context, Waker};

struct Later {
    polls_left: u32,
    value: Option<u32>,
}

impl Future for Later {
    type Output = Option<u32>;

    fn poll(mut self: Pin<&mut Self>, _cx: &mut Context<'_>) -> std::task::Poll<Option<u32>> {
        if self.polls_left == 0 {
            std::task::Poll::Ready(self.value)
        } else {
            self.polls_left -= 1;
            std::task::Poll::Pending
        }
    }
}

fn poll_once<F: Future + Unpin>(fut: &mut F) -> Poll<F::Output> {
    let mut cx = Context::from_waker(Waker::noop());
    match Pin::new(fut).poll(&mut cx) {
        std::task::Poll::Ready(value) => Poll::Ready(value),
        std::task::Poll::Pending => Poll::Pending,
    }
}

type Script = std::vec::IntoIter<Poll<Option<u32>>>;

fn poll_next<Fut, F>(combinator: &mut FilterMap<Script, Fut, F>, steps: &mut u32) -> Poll<Option<u32>>
where
    Fut: Future<Output = Option<u32>> + Unpin,
    F: FnMut(u32) -> Fut,
{
    loop {
        match combinator.next_action() {
            Action::PollSource => {
                let polled = combinator.get_mut().next().unwrap_or(Poll::Ready(None));
                match combinator.source_polled(polled) {
                    Progress::Return(outcome) => return outcome,
                    Progress::Continue => *steps += 1,
                }
            }
            Action::PollStep => {
                let polled = poll_once(combinator.step_mut());
                match combinator.step_polled(polled) {
                    Progress::Return(outcome) => return outcome,
                    Progress::Continue => {}
                }
            }
            Action::Exhausted => return Poll::Ready(None),
        }
    }
}

fn items(values: &[u32]) -> Script {
    let script: Vec<Poll<Option<u32>>> = values.iter().map(|v| Poll::Ready(Some(*v))).collect();
    script.into_iter()
}

#[test]
fn filter_map_keeps_the_present_results_in_order() {
    let mut steps = 0;
    let mut evens = FilterMap::new(items(&[1, 2, 3, 4, 5, 6]), |x: u32| {
        ready(if x % 2 == 0 { Some(x + 1) } else { None })
    });
    assert_eq!(poll_next(&mut evens, &mut steps), Poll::Ready(Some(3)));
    assert_eq!(poll_next(&mut evens, &mut steps), Poll::Ready(Some(5)));
    assert_eq!(poll_next(&mut evens, &mut steps), Poll::Ready(Some(7)));
    assert_eq!(poll_next(&mut evens, &mut steps), Poll::Ready(None));
    assert_eq!(steps, 6);
}

#[test]
fn filter_map_runs_the_step_for_absent_results_too() {
    let mut steps = 0;
    let mut none = FilterMap::new(items(&[1, 2, 3]), |_x: u32| ready(None::<u32>));
    assert_eq!(poll_next(&mut none, &mut steps), Poll::Ready(None));
    assert_eq!(steps, 3);
    assert!(none.is_terminated(true));
}

#[test]
fn filter_map_step_polled_decides_by_presence() {
    let mut combinator = FilterMap::new(items(&[]), |x: u32| ready(Some(x)));
    assert_eq!(combinator.source_polled(Poll::Ready(Some(1))), Progress::Continue);
    assert_eq!(combinator.step_polled(Poll::Pending), Progress::Return(Poll::Pending));
    assert_eq!(combinator.next_action(), Action::PollStep);
    assert_eq!(combinator.step_polled(Poll::Ready(None::<u32>)), Progress::Continue);
    assert_eq!(combinator.next_action(), Action::PollSource);
    assert_eq!(combinator.source_polled(Poll::Ready(Some(2))), Progress::Continue);
    assert_eq!(
        combinator.step_polled(Poll::Ready(Some(7))),
        Progress::Return(Poll::Ready(Some(7)))
    );
    assert_eq!(combinator.next_action(), Action::PollSource);
    assert_eq!(combinator.source_polled(Poll::Pending), Progress::Return(Poll::Pending));
    assert_eq!(combinator.source_polled(Poll::Ready(None)), Progress::Return(Poll::Ready(None)));
}

#[test]
fn filter_map_waits_for_a_suspended_step() {
    let mut steps = 0;
    let mut combinator = FilterMap::new(items(&[1, 2]), |x: u32| Later {
        polls_left: 1,
        value: if x == 2 { Some(20) } else { None },
    });
    assert_eq!(poll_next(&mut combinator, &mut steps), Poll::Pending);
    assert_eq!(steps, 1);
    assert!(!combinator.is_terminated(true));
    assert_eq!(poll_next(&mut combinator, &mut steps), Poll::Pending);
    assert_eq!(steps, 2);
    assert_eq!(poll_next(&mut combinator, &mut steps), Poll::Ready(Some(20)));
    assert_eq!(poll_next(&mut combinator, &mut steps), Poll::Ready(None));
    assert_eq!(steps, 2);
}

#[test]
fn filter_map_gives_access_to_its_source() {
    let mut combinator = FilterMap::new(vec![1u32, 2], |x: u32| ready(Some(x)));
    assert_eq!(combinator.get_ref(), &vec![1, 2]);
    combinator.get_mut().clear();
    assert!(combinator.is_terminated(true));
    assert!(!combinator.is_terminated(false));
    assert_eq!(combinator.into_inner(), Vec::<u32>::new());
}
