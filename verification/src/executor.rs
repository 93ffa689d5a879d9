//! The executor: the task table, the waker cache and the ready queue.

use crate::handle::JoinHandle;
use crate::task::lemma_task_id_is_its_number;
use crate::task::pin_boxed;
use crate::task::poll_pinned;
use crate::task::Computation;
use crate::task::Task;
use crate::task::TaskId;
use crate::waker::share;
use crate::waker::task_waker;
use crate::waker::ReadyQueue;
use crate::waker::TaskWaker;
use crossbeam_queue::ArrayQueue;
use crossbeam_queue::SegQueue;
use std::collections::BTreeMap;
use std::future::Future;
use std::pin::Pin;
use std::sync::Arc;
use std::task::Context;
use std::task::Poll;
use std::task::Waker;
use vstd::prelude::*;

verus! {

broadcast use vstd::std_specs::btree::group_btree_axioms;

/// `Context::from_waker`: a polling context that hands out `waker`.
pub assume_specification<'a>[ Context::<'a>::from_waker ](waker: &'a Waker) -> Context<'a>;

/// `BTreeMap::get_mut`: a mutable reference to the task stored under `id`, if
/// there is one. The table afterwards holds whatever the reference was left
/// pointing at, under the same key, and is otherwise unchanged.
#[verifier::external_body]
fn task_mut<'a>(tasks: &'a mut BTreeMap<u64, Task>, id: u64) -> (found: Option<&'a mut Task>)
    ensures
        match found {
            Some(task) => {
                &&& old(tasks)@.contains_key(id)
                &&& *task == old(tasks)@[id]
                &&& final(tasks)@ == old(tasks)@.insert(id, *final(task))
            },
            None => !old(tasks)@.contains_key(id) && final(tasks)@ == old(tasks)@,
        },
{
    tasks.get_mut(&id)
}

/// The computation that a spawned future runs as: it advances the future and,
/// when the future finishes, puts the result into the slot of its handle. It
/// does so once: after that it neither polls the future nor writes to the slot.
#[verifier::reject_recursive_types(F)]
#[verifier::reject_recursive_types(T)]
struct Deliver<F, T> {
    future: Pin<Box<F>>,
    slot: Arc<ArrayQueue<T>>,
    delivered: bool,
    slot_full: bool,
}

impl<F, T> Deliver<F, T> {
    /// Whether the future has finished and its result has been handed to the
    /// slot.
    pub closed spec fn delivered(&self) -> bool {
        self.delivered
    }

    /// Whether the slot had no room for the result.
    pub closed spec fn slot_full(&self) -> bool {
        self.slot_full
    }

    /// The slot that the result goes to.
    pub closed spec fn slot(&self) -> Arc<ArrayQueue<T>> {
        self.slot
    }

    /// Settles what a poll of the future came to. A result is handed to the
    /// slot, which ends the computation; without one the computation is
    /// pending and nothing changes.
    fn settle(&mut self, polled: Poll<T>) -> (outcome: Poll<()>)
        requires
            !old(self).delivered(),
        ensures
            (outcome is Ready) == (polled is Ready),
            final(self).delivered() == (polled is Ready),
            polled is Pending ==> final(self).slot_full() == old(self).slot_full(),
            old(self).slot_full() ==> final(self).slot_full(),
            final(self).slot() == old(self).slot(),
    {
        match polled {
            Poll::Ready(value) => {
                let pushed = self.slot.push(value);
                self.close(pushed)
            },
            Poll::Pending => Poll::Pending,
        }
    }

    /// Ends the computation once the result has been handed to the slot:
    /// `pushed` is what the slot answered. A slot that had no room hands the
    /// result back, which is noted; the result itself is let go.
    fn close(&mut self, pushed: Result<(), T>) -> (outcome: Poll<()>)
        ensures
            outcome is Ready,
            final(self).delivered(),
            final(self).slot_full() == (old(self).slot_full() || pushed is Err),
            final(self).slot() == old(self).slot(),
    {
        self.delivered = true;
        match pushed {
            Ok(_) => {},
            Err(_) => {
                self.slot_full = true;
            },
        }
        Poll::Ready(())
    }
}

impl<T, F: Future<Output = T>> Computation for Deliver<F, T> {
    /// Advances the future by one step and delivers its result if that step
    /// was the last. Once the result is delivered every later step is ready
    /// at once and leaves the future and the slot alone.
    fn advance(&mut self, cx: &mut Context<'_>) -> (outcome: Poll<()>)
        ensures
            final(self).delivered() == (outcome is Ready),
            old(self).delivered() ==> outcome is Ready && final(self).slot_full() == old(
                self,
            ).slot_full(),
            outcome is Pending ==> final(self).slot_full() == old(self).slot_full(),
            final(self).slot() == old(self).slot(),
    {
        if self.delivered {
            return Poll::Ready(());
        }
        let polled = poll_pinned(&mut self.future, cx);
        self.settle(polled)
    }

    /// Whether the slot had no room for the result.
    fn failed(&self) -> (failed: bool)
        ensures
            failed == self.slot_full(),
    {
        self.slot_full
    }
}

/// Makes the two ends of a result slot for `f`: the computation that runs `f`
/// and delivers its result, and the handle that reads it. Both hold the same
/// slot, which has room for one value.
fn channel<Fut, T>(f: Fut) -> (ends: (Deliver<Fut, T>, JoinHandle<T>)) where
    Fut: Future<Output = T>,

    ensures
        ends.0.slot() == ends.1.slot(),
        !ends.0.delivered(),
        !ends.0.slot_full(),
{
    let result_receiver: Arc<ArrayQueue<T>> = Arc::new(ArrayQueue::new(1));
    let result_sender = share(&result_receiver);
    let computation = Deliver {
        future: pin_boxed(f),
        slot: result_sender,
        delivered: false,
        slot_full: false,
    };
    (computation, JoinHandle::new(result_receiver))
}

/// What an executor holds, as its contracts see it.
pub struct ExecutorState {
    /// The task table, by the number of each task's identifier.
    pub tasks: Map<u64, Task>,
    /// The waker cache, by the number of each task's identifier.
    pub wakers: Map<u64, Waker>,
    /// The ready queue: which queue it is, not what it holds. Wakers on any
    /// thread push to it, so what it holds is nobody's to state.
    pub queue: ReadyQueue,
    /// Whether a task has finished that found the slot of its handle full.
    pub fault: bool,
}

impl ExecutorState {
    /// Every task sits under its own identifier, only tasks in the table have
    /// a cached waker, and the waker cached for a task is the waker of that
    /// task on this executor's queue.
    pub open spec fn wf(self) -> bool {
        &&& self.wakers.dom().subset_of(self.tasks.dom())
        &&& forall|k: u64| #[trigger] self.tasks.contains_key(k) ==> self.tasks[k].id()@ == k
        &&& forall|k: u64| #[trigger]
            self.wakers.contains_key(k) ==> self.wakers[k] == task_waker(k, self.queue)
    }

    /// The state in which `task` has entered the table under its identifier.
    pub open spec fn spawned(self, task: Task) -> ExecutorState {
        ExecutorState {
            tasks: self.tasks.insert(task.id()@, task),
            wakers: self.wakers,
            queue: self.queue,
            fault: self.fault,
        }
    }

    /// The state in which task `id` has been polled with its waker: `task` is
    /// what the poll made of it.
    pub open spec fn advanced(self, id: TaskId, task: Task) -> ExecutorState {
        ExecutorState {
            tasks: self.tasks.insert(id@, task),
            wakers: self.wakers.insert(id@, task_waker(id@, self.queue)),
            queue: self.queue,
            fault: self.fault,
        }
    }

    /// The state once a poll of task `id` has been settled. A task that
    /// finished leaves both tables, and if it could not hand over its result
    /// that is noted as a fault. One that did not finish changes nothing.
    pub open spec fn settled(self, id: TaskId, finished: bool) -> ExecutorState {
        if finished {
            ExecutorState {
                tasks: self.tasks.remove(id@),
                wakers: self.wakers.remove(id@),
                queue: self.queue,
                fault: self.fault || (self.tasks.contains_key(id@)
                    && self.tasks[id@].has_failed()),
            }
        } else {
            self
        }
    }

    /// Whether `after` is a state that running task `id` once can lead to.
    ///
    /// Without such a task nothing changes. With one, only the entries of `id`
    /// change. The task was polled once, with the waker of task `id` on the
    /// executor's queue. Either it finished and left both tables, which may
    /// have raised the fault, or it stayed, unfinished and with that waker
    /// cached.
    pub open spec fn polled(self, after: ExecutorState, id: TaskId) -> bool {
        if !self.tasks.contains_key(id@) {
            after == self
        } else {
            &&& after.queue == self.queue
            &&& after.tasks.remove(id@) == self.tasks.remove(id@)
            &&& after.wakers.remove(id@) == self.wakers.remove(id@)
            &&& after.tasks.contains_key(id@) == after.wakers.contains_key(id@)
            &&& self.fault ==> after.fault
            &&& after.tasks.contains_key(id@) ==> {
                &&& after.tasks[id@].id() == id
                &&& after.tasks[id@].polls() == self.tasks[id@].polls() + 1
                &&& !after.tasks[id@].is_finished()
                &&& after.wakers[id@] == task_waker(id@, self.queue)
                &&& after.fault == self.fault
            }
        }
    }
}

/// Runs tasks: owns them from `spawn` until they finish, and polls the one
/// whose identifier it is given.
pub struct Executor {
    tasks: BTreeMap<u64, Task>,
    task_queue: ReadyQueue,
    waker_cache: BTreeMap<u64, Waker>,
    fault: bool,
}

impl View for Executor {
    type V = ExecutorState;

    closed spec fn view(&self) -> ExecutorState {
        ExecutorState {
            tasks: self.tasks@,
            wakers: self.waker_cache@,
            queue: self.task_queue,
            fault: self.fault,
        }
    }
}

impl Executor {
    /// An executor without tasks.
    pub fn new() -> (executor: Self)
        ensures
            executor@.tasks == Map::<u64, Task>::empty(),
            executor@.wakers == Map::<u64, Waker>::empty(),
            !executor@.fault,
            executor@.wf(),
    {
        Executor {
            tasks: BTreeMap::new(),
            task_queue: Arc::new(SegQueue::new()),
            waker_cache: BTreeMap::new(),
            fault: false,
        }
    }

    /// Whether the table holds a task under `id`.
    pub fn contains(&self, id: TaskId) -> (found: bool)
        ensures
            found == self@.tasks.contains_key(id@),
    {
        let key: u64 = id.value();
        self.tasks.contains_key(&key)
    }

    /// Whether a waker is cached for task `id`.
    pub fn has_cached_waker(&self, id: TaskId) -> (found: bool)
        ensures
            found == self@.wakers.contains_key(id@),
    {
        let key: u64 = id.value();
        self.waker_cache.contains_key(&key)
    }

    /// The number of tasks in the table.
    pub fn len(&self) -> (n: usize)
        ensures
            n == self@.tasks.len(),
    {
        self.tasks.len()
    }

    /// Whether a task has finished that found the slot of its handle full.
    /// That breaks what the executor is built on, and is for its owner to
    /// treat as fatal.
    pub fn has_fault(&self) -> (fault: bool)
        ensures
            fault == self@.fault,
    {
        self.fault
    }

    /// The ready queue of this executor.
    pub fn ready_queue(&self) -> (queue: ReadyQueue)
        ensures
            queue == self@.queue,
    {
        share(&self.task_queue)
    }

    /// Takes `task` into the table, under its identifier, which no task in the
    /// table may have, and pushes the identifier onto the ready queue. Nothing
    /// is polled here.
    pub fn add_task(&mut self, task: Task)
        requires
            old(self)@.wf(),
            !old(self)@.tasks.contains_key(task.id()@),
        ensures
            final(self)@.wf(),
            final(self)@ == old(self)@.spawned(task),
    {
        let id = task.id();
        let previous = self.tasks.insert(id.value(), task);
        assert(previous is None);
        self.task_queue.push(id);
    }

    /// Takes `f` in as a new task under the identifier `id`, which no task in
    /// the table may have, and makes it eligible for polling.
    ///
    /// The task enters the table as [`Executor::add_task`] has it. The handle
    /// that is returned reads the slot into which the task delivers the
    /// result of `f`.
    pub fn spawn<Fut, T>(&mut self, id: TaskId, f: Fut) -> (handle: JoinHandle<T>) where
        Fut: Future<Output = T> + 'static,
        T: 'static,

        requires
            old(self)@.wf(),
            !old(self)@.tasks.contains_key(id@),
        ensures
            final(self)@.wf(),
            final(self)@.tasks.contains_key(id@),
            final(self)@.tasks[id@].id() == id,
            final(self)@.tasks[id@].polls() == 0,
            !final(self)@.tasks[id@].is_finished(),
            !final(self)@.tasks[id@].has_failed(),
            final(self)@ == old(self)@.spawned(final(self)@.tasks[id@]),
    {
        let (computation, handle) = channel(f);
        self.add_task(Task::from_computation(id, Box::new(computation)));
        handle
    }

    /// Polls task `id` once, if the table holds it, and settles the outcome.
    ///
    /// An identifier without a task, such as one that was woken after its task
    /// had finished, is passed over. Otherwise the task is polled with its
    /// cached waker, which is made first if there is none yet. Whether the task
    /// finishes is up to its computation; see [`Executor::finish`] for what
    /// follows from either outcome.
    ///
    /// A task that finished is handed back as it left the table: polled once
    /// more than it was, unless it had finished before it came in, and
    /// finished.
    pub fn run_task(&mut self, id: TaskId) -> (left: Option<Task>)
        requires
            old(self)@.wf(),
        ensures
            final(self)@.wf(),
            old(self)@.polled(final(self)@, id),
            left is Some <==> {
                &&& old(self)@.tasks.contains_key(id@)
                &&& !final(self)@.tasks.contains_key(id@)
            },
            left matches Some(task) ==> {
                &&& task.id() == id
                &&& task.polls() == old(self)@.tasks[id@].polls() + if old(
                    self,
                )@.tasks[id@].is_finished() {
                    0nat
                } else {
                    1nat
                }
                &&& task.is_finished()
                &&& final(self)@.fault == (old(self)@.fault || task.has_failed())
            },
    {
        let key: u64 = id.value();
        if !self.tasks.contains_key(&key) {
            return None;
        }
        if !self.waker_cache.contains_key(&key) {
            let waker = TaskWaker::new(id, share(&self.task_queue));
            self.waker_cache.insert(key, waker);
        }
        let outcome = match task_mut(&mut self.tasks, key) {
            Some(task) => match self.waker_cache.get(&key) {
                Some(waker) => {
                    let mut cx = Context::from_waker(waker);
                    task.poll(&mut cx)
                },
                None => unreached(),
            },
            None => unreached(),
        };
        let ghost advanced = self@;
        assert(advanced.tasks.remove(key) == old(self)@.tasks.remove(key));
        assert(advanced.wakers.remove(key) == old(self)@.wakers.remove(key));
        let left = self.finish(id, outcome);
        proof {
            assert(self@.tasks.remove(key) == advanced.tasks.remove(key));
            assert(self@.wakers.remove(key) == advanced.wakers.remove(key));
            lemma_task_id_is_its_number(advanced.tasks[key].id(), id);
        }
        left
    }

    /// Settles the outcome of a poll of task `id`.
    ///
    /// A task that is ready has finished: it leaves the table and its waker
    /// leaves the cache, so it is never polled again; if it could not hand
    /// over its result, that is noted as a fault. The task that left is handed
    /// back. A task that is pending stays as it is, and so does everything
    /// else.
    pub fn finish(&mut self, id: TaskId, outcome: Poll<()>) -> (left: Option<Task>)
        requires
            old(self)@.wf(),
        ensures
            final(self)@.wf(),
            final(self)@ == old(self)@.settled(id, outcome is Ready),
            left == if outcome is Ready && old(self)@.tasks.contains_key(id@) {
                Some(old(self)@.tasks[id@])
            } else {
                None
            },
    {
        let key: u64 = id.value();
        match outcome {
            Poll::Ready(_) => {
                let left = self.tasks.remove(&key);
                self.waker_cache.remove(&key);
                match &left {
                    Some(task) => {
                        if task.has_failed() {
                            self.fault = true;
                        }
                    },
                    None => {},
                }
                left
            },
            Poll::Pending => None,
        }
    }

    /// Takes one identifier from the ready queue, if there is one, and runs its
    /// task as [`Executor::run_task`] does. Returns the identifier it took.
    ///
    /// Whether there is one depends on who has pushed to the queue, on this
    /// thread or another; [`Executor::run_taken`] says what follows either way.
    pub fn run_next(&mut self) -> (taken: Option<TaskId>)
        requires
            old(self)@.wf(),
        ensures
            final(self)@.wf(),
            match taken {
                Some(id) => old(self)@.polled(final(self)@, id),
                None => final(self)@ == old(self)@,
            },
    {
        let taken = self.task_queue.pop();
        self.run_taken(taken)
    }

    /// Acts on what came off the ready queue: runs the task of the identifier
    /// that was taken, as [`Executor::run_task`] does, or does nothing where
    /// the queue was empty. Returns what it was given.
    pub fn run_taken(&mut self, taken: Option<TaskId>) -> (ran: Option<TaskId>)
        requires
            old(self)@.wf(),
        ensures
            final(self)@.wf(),
            ran == taken,
            match taken {
                Some(id) => old(self)@.polled(final(self)@, id),
                None => final(self)@ == old(self)@,
            },
    {
        match taken {
            Some(id) => {
                let _ = self.run_task(id);
                Some(id)
            },
            None => None,
        }
    }
}

impl Default for Executor {
    fn default() -> (executor: Self)
        ensures
            executor@.tasks == Map::<u64, Task>::empty(),
            executor@.wakers == Map::<u64, Waker>::empty(),
            !executor@.fault,
            executor@.wf(),
    {
        Executor::new()
    }
}

/// Running a task touches that task alone. No other task is advanced, added
/// or removed by it, and no other waker is made or dropped: to wake one task
/// is never to poll another.
pub proof fn lemma_run_touches_one_task(
    before: ExecutorState,
    after: ExecutorState,
    id: TaskId,
    other: TaskId,
)
    requires
        before.polled(after, id),
        other != id,
    ensures
        after.tasks.contains_key(other@) == before.tasks.contains_key(other@),
        before.tasks.contains_key(other@) ==> after.tasks[other@] == before.tasks[other@],
        after.wakers.contains_key(other@) == before.wakers.contains_key(other@),
        before.wakers.contains_key(other@) ==> after.wakers[other@] == before.wakers[other@],
{
    lemma_task_id_is_its_number(other, id);
    if before.tasks.contains_key(id@) {
        let key = other@;
        assert(after.tasks.remove(id@).contains_key(key) == before.tasks.remove(id@).contains_key(
            key,
        ));
        assert(after.wakers.remove(id@).contains_key(key) == before.wakers.remove(
            id@,
        ).contains_key(key));
        if before.tasks.contains_key(key) {
            assert(after.tasks.remove(id@)[key] == before.tasks.remove(id@)[key]);
        }
        if before.wakers.contains_key(key) {
            assert(after.wakers.remove(id@)[key] == before.wakers.remove(id@)[key]);
        }
    }
}

/// Spawning touches the new task alone: every task that was in the table is
/// still there, unpolled, and the waker cache is as it was.
pub proof fn lemma_spawn_touches_no_task(before: ExecutorState, task: Task, other: TaskId)
    requires
        !before.tasks.contains_key(task.id()@),
        before.tasks.contains_key(other@),
    ensures
        before.spawned(task).tasks[other@] == before.tasks[other@],
        before.spawned(task).tasks.remove(task.id()@) == before.tasks,
        before.spawned(task).wakers == before.wakers,
{
    assert(before.spawned(task).tasks.remove(task.id()@) =~= before.tasks);
}

/// Settling a poll that ended pending leaves the state as it is.
pub proof fn lemma_pending_changes_nothing(before: ExecutorState, id: TaskId)
    ensures
        before.settled(id, false) == before,
{
}

/// A task that stayed pending is polled again only by a run of its own
/// identifier: a run of any other identifier leaves it with the polls it had.
pub proof fn lemma_pending_task_waits_for_its_own_run(
    before: ExecutorState,
    after: ExecutorState,
    id: TaskId,
    other: TaskId,
)
    requires
        before.tasks.contains_key(id@),
        before.polled(after, other),
        other != id,
    ensures
        after.tasks.contains_key(id@),
        after.tasks[id@].polls() == before.tasks[id@].polls(),
{
    lemma_run_touches_one_task(before, after, other, id);
}

/// A finished task is gone for good. Its identifier has neither a task nor a
/// waker, and running it again, as a late wake-up makes the executor do,
/// changes nothing.
pub proof fn lemma_finished_task_stays_gone(
    before: ExecutorState,
    id: TaskId,
    after: ExecutorState,
)
    requires
        before.settled(id, true).polled(after, id),
    ensures
        !after.tasks.contains_key(id@),
        !after.wakers.contains_key(id@),
        after == before.settled(id, true),
{
}

/// One poll of a task and the settling of its outcome lead to a state that
/// [`ExecutorState::polled`] admits, and keep the tables well formed.
pub proof fn lemma_advance_then_settle_is_polled(
    before: ExecutorState,
    id: TaskId,
    task: Task,
    finished: bool,
)
    requires
        before.wf(),
        before.tasks.contains_key(id@),
        task.id() == id,
        task.polls() == before.tasks[id@].polls() + 1,
        task.is_finished() == finished,
    ensures
        before.advanced(id, task).settled(id, finished).wf(),
        before.polled(before.advanced(id, task).settled(id, finished), id),
{
    let after = before.advanced(id, task).settled(id, finished);
    assert(after.tasks.remove(id@) == before.tasks.remove(id@));
    assert(after.wakers.remove(id@) == before.wakers.remove(id@));
    assert forall|k: u64| #[trigger] after.tasks.contains_key(k) implies after.tasks[k].id()@
        == k by {
        if k != id@ {
            assert(before.tasks.contains_key(k));
        }
    }
    assert forall|k: u64| #[trigger] after.wakers.contains_key(k) implies after.wakers[k]
        == task_waker(k, after.queue) by {
        if k != id@ {
            assert(before.wakers.contains_key(k));
        }
    }
    assert forall|k: u64| after.wakers.dom().contains(k) implies after.tasks.dom().contains(k) by {
        if k != id@ {
            assert(before.wakers.dom().contains(k));
            assert(before.tasks.dom().contains(k));
        }
    }
}

/// Every state that [`ExecutorState::polled`] admits for a task that stayed in
/// the table comes about by one poll of that task that ended pending.
pub proof fn lemma_polled_is_advance_then_settle(
    before: ExecutorState,
    after: ExecutorState,
    id: TaskId,
)
    requires
        before.tasks.contains_key(id@),
        before.polled(after, id),
        after.tasks.contains_key(id@),
    ensures
        after == before.advanced(id, after.tasks[id@]).settled(id, false),
{
    let step = before.advanced(id, after.tasks[id@]);
    assert(after.tasks =~= step.tasks) by {
        assert forall|k: u64| after.tasks.contains_key(k) == step.tasks.contains_key(k) by {
            if k != id@ {
                assert(after.tasks.remove(id@).contains_key(k) == before.tasks.remove(
                    id@,
                ).contains_key(k));
            }
        }
        assert forall|k: u64| after.tasks.contains_key(k) implies after.tasks[k]
            == step.tasks[k] by {
            if k != id@ {
                assert(after.tasks.remove(id@)[k] == before.tasks.remove(id@)[k]);
            }
        }
    }
    assert(after.wakers =~= step.wakers) by {
        assert forall|k: u64| after.wakers.contains_key(k) == step.wakers.contains_key(k) by {
            if k != id@ {
                assert(after.wakers.remove(id@).contains_key(k) == before.wakers.remove(
                    id@,
                ).contains_key(k));
            }
        }
        assert forall|k: u64| after.wakers.contains_key(k) implies after.wakers[k]
            == step.wakers[k] by {
            if k != id@ {
                assert(after.wakers.remove(id@)[k] == before.wakers.remove(id@)[k]);
            }
        }
    }
}

} // verus!
