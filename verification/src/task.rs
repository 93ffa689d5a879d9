//! Task identifiers and the tasks that carry them.

use std::future::Future;
use std::pin::Pin;
use std::task::Context;
use std::task::Poll;
use vstd::prelude::*;

verus! {

/// `std::task::Context`, carried through to the computation that is polled.
#[verifier::external_type_specification]
#[verifier::external_body]
pub struct ExContext<'a>(Context<'a>);

/// `std::task::Poll`, with both of its variants.
#[verifier::external_type_specification]
#[verifier::reject_recursive_types(T)]
pub struct ExPoll<T>(Poll<T>);

/// `std::pin::Pin`, which keeps a boxed future in place.
#[verifier::external_type_specification]
#[verifier::external_body]
#[verifier::reject_recursive_types(P)]
pub struct ExPin<P>(Pin<P>);

/// The number that follows `n` in a 64-bit counter that wraps around.
pub open spec fn next_after(n: u64) -> u64 {
    if n == u64::MAX {
        0
    } else {
        (n + 1) as u64
    }
}

/// A counter that hands out task identifiers in increasing order.
///
/// Its view is the number of the next identifier it will issue.
pub struct TaskIdSource {
    next: u64,
}

impl View for TaskIdSource {
    type V = u64;

    closed spec fn view(&self) -> u64 {
        self.next
    }
}

impl TaskIdSource {
    /// A source that starts at zero.
    pub fn new() -> (source: Self)
        ensures
            source@ == 0,
    {
        TaskIdSource { next: 0 }
    }

    /// The number of the identifier that will be issued next.
    pub fn upcoming(&self) -> (n: u64)
        ensures
            n == self@,
    {
        self.next
    }
}

impl Default for TaskIdSource {
    fn default() -> (source: Self)
        ensures
            source@ == 0,
    {
        TaskIdSource::new()
    }
}

/// The identity of one task. Its view is the 64-bit number behind it.
#[derive(Debug, Clone, Copy, PartialEq, Eq, PartialOrd, Ord, Hash, Structural)]
pub struct TaskId(u64);

impl View for TaskId {
    type V = u64;

    closed spec fn view(&self) -> u64 {
        self.0
    }
}

impl TaskId {
    /// Draws the next identifier from `source` and moves the source on by one.
    pub fn new(source: &mut TaskIdSource) -> (id: Self)
        ensures
            id@ == old(source)@,
            final(source)@ == next_after(old(source)@),
    {
        let raw: u64 = source.next;
        source.next = raw.wrapping_add(1);
        TaskId(raw)
    }

    /// The number behind this identifier.
    pub fn value(&self) -> (n: u64)
        ensures
            n == self@,
    {
        self.0
    }
}

/// Two identifiers with the same number are the same identifier.
pub proof fn lemma_task_id_is_its_number(a: TaskId, b: TaskId)
    ensures
        a@ == b@ <==> a == b,
{
}

/// Identifiers drawn one after the other differ, and the later one is the larger
/// as long as the counter has not wrapped around.
pub proof fn lemma_successive_ids_differ(first: u64)
    ensures
        next_after(first) != first,
        first < u64::MAX ==> next_after(first) == first + 1,
{
}

/// A unit of work that can be advanced one step at a time.
///
/// A step either finishes the work (`Poll::Ready`) or leaves it unfinished
/// (`Poll::Pending`); in the second case the computation is expected to have
/// arranged for the waker of `cx` to be invoked when another step is worthwhile.
pub trait Computation {
    fn advance(&mut self, cx: &mut Context<'_>) -> Poll<()>;

    /// Whether the computation ended without being able to hand over what it
    /// had produced. Most computations hand nothing over, and never fail so.
    fn failed(&self) -> bool {
        false
    }
}

/// A future without a result, pinned on the heap.
#[verifier::reject_recursive_types(F)]
struct Pinned<F> {
    future: Pin<Box<F>>,
}

/// `Box::pin`: moves `future` to the heap, where it stays.
#[verifier::external_body]
pub(crate) fn pin_boxed<F: Future>(future: F) -> Pin<Box<F>> {
    Box::pin(future)
}

/// `Pin::as_mut`: a pinned reference to the future in the box.
#[verifier::external_body]
fn pinned_mut<'a, F>(future: &'a mut Pin<Box<F>>) -> Pin<&'a mut F> {
    future.as_mut()
}

/// `Future::poll`. What comes back is up to the future.
#[verifier::external_body]
fn poll_future<F: Future>(future: Pin<&mut F>, cx: &mut Context<'_>) -> Poll<F::Output> {
    future.poll(cx)
}

/// Polls a boxed future once.
pub(crate) fn poll_pinned<F: Future>(future: &mut Pin<Box<F>>, cx: &mut Context<'_>) -> Poll<
    F::Output,
> {
    poll_future(pinned_mut(future), cx)
}

impl<F: Future<Output = ()>> Computation for Pinned<F> {
    fn advance(&mut self, cx: &mut Context<'_>) -> Poll<()> {
        poll_pinned(&mut self.future, cx)
    }
}

/// One computation together with its identifier.
///
/// A task advances its computation until the computation finishes, and never
/// after that.
pub struct Task {
    id: TaskId,
    computation: Box<dyn Computation>,
    finished: bool,
    failed: bool,
    polls: Ghost<nat>,
}

impl Task {
    /// The identifier of the task.
    pub closed spec fn spec_id(&self) -> TaskId {
        self.id
    }

    /// The identifier of the task.
    #[verifier::when_used_as_spec(spec_id)]
    pub fn id(&self) -> (id: TaskId)
        ensures
            id == self.spec_id(),
    {
        self.id
    }

    /// How often the task has advanced its computation.
    pub closed spec fn polls(&self) -> nat {
        self.polls@
    }

    /// Whether the computation has finished.
    pub closed spec fn spec_is_finished(&self) -> bool {
        self.finished
    }

    /// Whether the computation has finished.
    #[verifier::when_used_as_spec(spec_is_finished)]
    pub fn is_finished(&self) -> (finished: bool)
        ensures
            finished == self.spec_is_finished(),
    {
        self.finished
    }

    /// Whether the computation said, at its last step, that it could not hand
    /// over what it had produced.
    pub closed spec fn spec_has_failed(&self) -> bool {
        self.failed
    }

    /// Whether the computation said, at its last step, that it could not hand
    /// over what it had produced.
    #[verifier::when_used_as_spec(spec_has_failed)]
    pub fn has_failed(&self) -> (failed: bool)
        ensures
            failed == self.spec_has_failed(),
    {
        self.failed
    }

    /// Wraps a future that has no result, under the next identifier of `source`.
    pub fn new<F: Future<Output = ()> + 'static>(source: &mut TaskIdSource, future: F) -> (task:
        Self)
        ensures
            task.id()@ == old(source)@,
            task.polls() == 0,
            !task.is_finished(),
            !task.has_failed(),
            final(source)@ == next_after(old(source)@),
    {
        let pinned = Pinned { future: pin_boxed(future) };
        Task::from_computation(TaskId::new(source), Box::new(pinned))
    }

    /// Wraps a computation under the identifier `id`.
    pub fn from_computation(id: TaskId, computation: Box<dyn Computation>) -> (task: Self)
        ensures
            task.id() == id,
            task.polls() == 0,
            !task.is_finished(),
            !task.has_failed(),
    {
        Task { id, computation, finished: false, failed: false, polls: Ghost(0) }
    }

    /// Polls the task.
    ///
    /// A task that has not finished advances its computation by one step and
    /// is finished if that step was the last. A task that has finished is
    /// ready at once and leaves its computation alone. The identifier stays
    /// what it was.
    pub fn poll(&mut self, cx: &mut Context<'_>) -> (outcome: Poll<()>)
        ensures
            final(self).id() == old(self).id(),
            final(self).is_finished() == (outcome is Ready),
            old(self).is_finished() ==> outcome is Ready,
            final(self).polls() == old(self).polls() + if old(self).is_finished() {
                0nat
            } else {
                1nat
            },
    {
        if self.finished {
            return Poll::Ready(());
        }
        self.polls = Ghost(self.polls@ + 1);
        let stepped = self.computation.advance(cx);
        let failed = self.computation.failed();
        self.record(stepped, failed)
    }

    /// Records what a step of the computation came to: `stepped` is what the
    /// step returned, and `failed` is what the computation says of itself
    /// after it. The task is finished exactly if the step was the last, and
    /// the outcome of the poll is that of the step.
    pub fn record(&mut self, stepped: Poll<()>, failed: bool) -> (outcome: Poll<()>)
        requires
            !old(self).is_finished(),
        ensures
            outcome == stepped,
            final(self).is_finished() == (stepped is Ready),
            final(self).has_failed() == failed,
            final(self).id() == old(self).id(),
            final(self).polls() == old(self).polls(),
    {
        self.failed = failed;
        match stepped {
            Poll::Ready(_) => {
                self.finished = true;
            },
            Poll::Pending => {},
        }
        stepped
    }
}

} // verus!
