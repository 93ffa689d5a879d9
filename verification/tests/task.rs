use crossbeam_queue::SegQueue;
use oxic::task::Computation;
use oxic::task::Task;
use oxic::task::TaskId;
use oxic::task::TaskIdSource;
use oxic::waker::TaskWaker;
use std::future::Future;
use std::pin::Pin;
use std::sync::atomic::AtomicU32;
use std::sync::atomic::Ordering;
use std::sync::Arc;
use std::task::Context;
use std::task::Poll;

#[test]
fn ids_count_up_from_zero() {
    let mut source = TaskIdSource::new();
    assert_eq!(source.upcoming(), 0);
    let a = TaskId::new(&mut source);
    let b = TaskId::new(&mut source);
    let c = TaskId::new(&mut source);
    assert_eq!(a.value(), 0);
    assert_eq!(b.value(), 1);
    assert_eq!(c.value(), 2);
    assert_eq!(source.upcoming(), 3);
}

#[test]
fn ids_are_distinct_and_ordered() {
    let mut source = TaskIdSource::default();
    let mut last = TaskId::new(&mut source);
    for _ in 0..1000 {
        let next = TaskId::new(&mut source);
        assert!(last < next);
        assert_ne!(last, next);
        last = next;
    }
    assert_eq!(last.value(), 1000);
}

#[test]
fn sources_are_independent() {
    let mut one = TaskIdSource::new();
    let mut other = TaskIdSource::new();
    TaskId::new(&mut one);
    TaskId::new(&mut one);
    assert_eq!(TaskId::new(&mut other).value(), 0);
    assert_eq!(TaskId::new(&mut one).value(), 2);
}

#[test]
fn id_is_copy_and_eq() {
    let mut source = TaskIdSource::new();
    let a = TaskId::new(&mut source);
    let same = a;
    assert_eq!(a, same);
    assert_eq!(a.clone(), same);
}

struct Twice {
    polled: u32,
}

impl Future for Twice {
    type Output = ();

    fn poll(mut self: Pin<&mut Self>, _cx: &mut Context<'_>) -> Poll<()> {
        self.polled += 1;
        if self.polled < 2 {
            Poll::Pending
        } else {
            Poll::Ready(())
        }
    }
}

#[test]
fn task_takes_the_next_id_and_polls_its_future() {
    let mut source = TaskIdSource::new();
    TaskId::new(&mut source);
    let mut task = Task::new(&mut source, Twice { polled: 0 });
    assert_eq!(task.id().value(), 1);
    assert_eq!(source.upcoming(), 2);

    let queue = Arc::new(SegQueue::new());
    let waker = TaskWaker::new(task.id(), queue.clone());
    let mut cx = Context::from_waker(&waker);
    assert!(!task.is_finished());
    assert_eq!(task.poll(&mut cx), Poll::Pending);
    assert!(!task.is_finished());
    assert_eq!(task.poll(&mut cx), Poll::Ready(()));
    assert!(task.is_finished());
    assert_eq!(task.id().value(), 1);
    assert!(queue.pop().is_none());
}

/// Counts its polls and finishes on the first one.
struct Once {
    polls: Arc<AtomicU32>,
}

impl Future for Once {
    type Output = ();

    fn poll(self: Pin<&mut Self>, _cx: &mut Context<'_>) -> Poll<()> {
        self.polls.fetch_add(1, Ordering::SeqCst);
        Poll::Ready(())
    }
}

#[test]
fn finished_task_leaves_its_future_alone() {
    let polls = Arc::new(AtomicU32::new(0));
    let mut source = TaskIdSource::new();
    let mut task = Task::new(&mut source, Once { polls: polls.clone() });
    let queue = Arc::new(SegQueue::new());
    let waker = TaskWaker::new(task.id(), queue);
    let mut cx = Context::from_waker(&waker);

    assert_eq!(task.poll(&mut cx), Poll::Ready(()));
    assert_eq!(polls.load(Ordering::SeqCst), 1);
    for _ in 0..3 {
        assert_eq!(task.poll(&mut cx), Poll::Ready(()));
        assert!(task.is_finished());
    }
    assert_eq!(polls.load(Ordering::SeqCst), 1);
}

struct Steps {
    left: u32,
}

impl Computation for Steps {
    fn advance(&mut self, cx: &mut Context<'_>) -> Poll<()> {
        if self.left == 0 {
            return Poll::Ready(());
        }
        self.left -= 1;
        cx.waker().wake_by_ref();
        Poll::Pending
    }
}

#[test]
fn task_from_computation() {
    let mut source = TaskIdSource::new();
    let mut task = Task::from_computation(TaskId::new(&mut source), Box::new(Steps { left: 2 }));
    let id = task.id();
    assert_eq!(id.value(), 0);

    let queue = Arc::new(SegQueue::new());
    let waker = TaskWaker::new(id, queue.clone());
    let mut cx = Context::from_waker(&waker);
    assert_eq!(task.poll(&mut cx), Poll::Pending);
    assert_eq!(queue.pop(), Some(id));
    assert_eq!(task.poll(&mut cx), Poll::Pending);
    assert_eq!(queue.pop(), Some(id));
    assert_eq!(task.poll(&mut cx), Poll::Ready(()));
    assert_eq!(queue.pop(), None);
}

#[test]
fn waker_pushes_its_own_id() {
    let mut source = TaskIdSource::new();
    let first = TaskId::new(&mut source);
    let second = TaskId::new(&mut source);
    let queue = Arc::new(SegQueue::new());
    let wake_first = TaskWaker::new(first, queue.clone());
    let wake_second = TaskWaker::new(second, queue.clone());

    wake_second.wake_by_ref();
    wake_first.wake_by_ref();
    wake_first.clone().wake();
    wake_second.wake();
    assert_eq!(queue.pop(), Some(second));
    assert_eq!(queue.pop(), Some(first));
    assert_eq!(queue.pop(), Some(first));
    assert_eq!(queue.pop(), Some(second));
    assert_eq!(queue.pop(), None);
}

#[test]
fn record_takes_the_outcome_of_the_step() {
    let mut source = TaskIdSource::new();
    let id = TaskId::new(&mut source);
    let mut task = Task::from_computation(id, Box::new(Steps { left: 0 }));
    assert!(!task.is_finished());
    assert!(!task.has_failed());

    assert_eq!(task.record(Poll::Pending, false), Poll::Pending);
    assert!(!task.is_finished());
    assert!(!task.has_failed());

    assert_eq!(task.record(Poll::Ready(()), true), Poll::Ready(()));
    assert!(task.is_finished());
    assert!(task.has_failed());
    assert_eq!(task.id(), id);
}

/// Finishes at once and says that it failed.
struct Broken;

impl Computation for Broken {
    fn advance(&mut self, _cx: &mut Context<'_>) -> Poll<()> {
        Poll::Ready(())
    }

    fn failed(&self) -> bool {
        true
    }
}

#[test]
fn task_notes_what_its_computation_says_of_itself() {
    let mut source = TaskIdSource::new();
    let queue = Arc::new(SegQueue::new());

    let mut sound = Task::from_computation(TaskId::new(&mut source), Box::new(Steps { left: 0 }));
    let waker = TaskWaker::new(sound.id(), queue.clone());
    let mut cx = Context::from_waker(&waker);
    assert_eq!(sound.poll(&mut cx), Poll::Ready(()));
    assert!(sound.is_finished());
    assert!(!sound.has_failed());

    let mut broken = Task::from_computation(TaskId::new(&mut source), Box::new(Broken));
    assert_eq!(broken.poll(&mut cx), Poll::Ready(()));
    assert!(broken.is_finished());
    assert!(broken.has_failed());
}
