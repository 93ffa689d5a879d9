//! The handle through which the result of a spawned computation is fetched.

use crossbeam_queue::ArrayQueue;
use std::sync::Arc;
use vstd::prelude::*;

verus! {

/// `crossbeam_queue::ArrayQueue`: a bounded queue that many threads push to and
/// pop from at once.
#[verifier::external_type_specification]
#[verifier::external_body]
#[verifier::reject_recursive_types(T)]
pub struct ExArrayQueue<T>(ArrayQueue<T>);

/// `ArrayQueue::new` makes a queue that holds up to `cap` values. It panics
/// when `cap` is zero or so large that the next power of two does not fit.
pub assume_specification<T>[ ArrayQueue::<T>::new ](cap: usize) -> ArrayQueue<T>
    requires
        0 < cap <= usize::MAX / 2,
;

/// `ArrayQueue::push` stores `value`, or hands it back when the queue is full.
/// Whether it is full depends on what the other holders have done.
pub assume_specification<T>[ ArrayQueue::<T>::push ](queue: &ArrayQueue<T>, value: T) -> Result<
    (),
    T,
>;

/// `ArrayQueue::pop` takes the oldest value, if there is one. Whether there is
/// one depends on what the other holders have done.
pub assume_specification<T>[ ArrayQueue::<T>::pop ](queue: &ArrayQueue<T>) -> Option<T>;

/// An owned permission to fetch the result of a spawned computation.
///
/// The handle and the task share a slot for a single value. The task writes it
/// once, when its computation finishes.
#[verifier::reject_recursive_types(T)]
pub struct JoinHandle<T> {
    rx: Arc<ArrayQueue<T>>,
}

impl<T> JoinHandle<T> {
    /// The slot that the handle reads from.
    pub closed spec fn slot(&self) -> Arc<ArrayQueue<T>> {
        self.rx
    }

    /// A handle that reads from `rx`.
    pub fn new(rx: Arc<ArrayQueue<T>>) -> (handle: Self)
        ensures
            handle.slot() == rx,
    {
        JoinHandle { rx }
    }

    /// Takes the result if the task has delivered it and it has not been taken
    /// before. It never waits.
    pub fn try_join(&self) -> Option<T> {
        self.rx.pop()
    }
}

} // verus!
