//! The waker that puts a task back on the ready queue.

use crate::task::TaskId;
use crossbeam_queue::SegQueue;
use std::sync::Arc;
use std::task::Wake;
use std::task::Waker;
use vstd::prelude::*;

verus! {

/// `std::task::Waker`: the handle a computation invokes to be polled again.
#[verifier::external_type_specification]
#[verifier::external_body]
pub struct ExWaker(Waker);

/// `crossbeam_queue::SegQueue`: an unbounded queue that many threads push to and
/// pop from at once.
#[verifier::external_type_specification]
#[verifier::external_body]
#[verifier::reject_recursive_types(T)]
pub struct ExSegQueue<T>(SegQueue<T>);

/// `SegQueue::new` makes a queue. The queue is shared from then on, so nothing
/// is said of what it holds.
pub assume_specification<T>[ SegQueue::<T>::new ]() -> SegQueue<T>;

/// `SegQueue::push` appends `value`. Other threads push and pop at the same
/// time, so nothing is said of what the queue holds afterwards.
pub assume_specification<T>[ SegQueue::<T>::push ](queue: &SegQueue<T>, value: T);

/// `SegQueue::pop` takes the head of the queue, if there is one. Which value
/// that is depends on what every holder of the queue has done.
pub assume_specification<T>[ SegQueue::<T>::pop ](queue: &SegQueue<T>) -> Option<T>;

/// `Waker::wake_by_ref` signals the task behind the waker. It returns nothing.
pub assume_specification[ Waker::wake_by_ref ](waker: &Waker);

/// `Waker::clone` makes a waker for the same task. The contracts of this
/// library take a waker and its clones for one value.
pub assume_specification[ <Waker as Clone>::clone ](waker: &Waker) -> (cloned: Waker)
    ensures
        cloned == *waker,
;

/// The queue of identifiers of the tasks that are ready to be polled.
pub type ReadyQueue = Arc<SegQueue<TaskId>>;

/// `Arc::clone`: another pointer to the same value.
#[verifier::external_body]
pub(crate) fn share<T>(pointer: &Arc<T>) -> (shared: Arc<T>)
    ensures
        shared == *pointer,
{
    Arc::clone(pointer)
}

/// The waker that `Waker::from` makes of a `TaskWaker` for the task with the
/// number `id` on `queue`: the one whose `wake` and `wake_by_ref` are those of
/// the `Wake` impl below. The contracts of this library take all wakers made
/// for one task on one queue for one value, as they do a waker and its clones.
pub uninterp spec fn task_waker(id: u64, queue: Arc<SegQueue<TaskId>>) -> Waker;

/// `Waker::from` on a shared `TaskWaker`: the waker of its task on its queue.
#[verifier::external_body]
fn into_waker(waker: Arc<TaskWaker>) -> (made: Waker)
    ensures
        made == task_waker(waker.id@, waker.task_queue),
{
    Waker::from(waker)
}

/// Signals to an executor that one task can continue.
pub struct TaskWaker {
    id: TaskId,
    task_queue: ReadyQueue,
}

impl TaskWaker {
    /// A waker for task `id` that reports to `task_queue`.
    pub fn new(id: TaskId, task_queue: ReadyQueue) -> (waker: Waker)
        ensures
            waker == task_waker(id@, task_queue),
    {
        into_waker(Arc::new(TaskWaker { id, task_queue }))
    }

    /// Pushes the identifier of the task onto the ready queue. It may be called
    /// any number of times, also after the task has finished.
    pub fn wake_task(&self) {
        self.task_queue.push(self.id);
    }
}

impl Wake for TaskWaker {
    fn wake(self: Arc<Self>) {
        self.wake_task();
    }

    fn wake_by_ref(self: &Arc<Self>) {
        self.wake_task();
    }
}

} // verus!
