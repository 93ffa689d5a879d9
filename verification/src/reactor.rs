//! The reactor's table of subscriptions: which descriptor wakes whom.

use crate::interest::Event;
use crate::interest::Interest;
use std::task::Poll;
use std::task::Waker;
use vstd::prelude::*;

verus! {

/// `lockfree::map::Map`: a hash map whose methods take `&self`.
#[verifier::external_type_specification]
#[verifier::external_body]
#[verifier::reject_recursive_types(K)]
#[verifier::reject_recursive_types(V)]
#[verifier::reject_recursive_types(H)]
pub struct ExLockfreeMap<K, V, H>(lockfree::map::Map<K, V, H>);

/// A waker and the interest it waits for.
#[derive(Debug, Clone)]
pub struct Subscription {
    pub waker: Waker,
    pub interest: Interest,
}

impl Subscription {
    /// The subscription of `waker` for `interest`.
    pub fn new(waker: Waker, interest: Interest) -> (subscription: Self)
        ensures
            subscription == (Subscription { waker, interest }),
    {
        Subscription { waker, interest }
    }

    /// Invokes the waker.
    pub fn wake(&self) {
        self.waker.wake_by_ref();
    }
}

/// The entries of a subscription table, by descriptor.
pub uninterp spec fn entries(table: lockfree::map::Map<i32, Subscription>) -> Map<i32, Subscription>;

/// `Map::new`: a table without entries.
#[verifier::external_body]
fn table_new() -> (made: lockfree::map::Map<i32, Subscription>)
    ensures
        entries(made).dom() == Set::<i32>::empty(),
{
    lockfree::map::Map::new()
}

/// `Map::insert`, which stores `subscription` under `fd` whether or not there
/// was an entry before. The reference is exclusive, so no other thread changes
/// the table meanwhile.
#[verifier::external_body]
fn table_insert(
    table: &mut lockfree::map::Map<i32, Subscription>,
    fd: i32,
    subscription: Subscription,
)
    ensures
        entries(*final(table)) == entries(*old(table)).insert(fd, subscription),
{
    let _ = table.insert(fd, subscription);
}

/// `Map::remove`, which takes out the entry under `fd` and hands it back, or
/// hands back nothing where there was none. The reference is exclusive, so no
/// other thread changes the table meanwhile. The entry comes out as a copy made
/// by `Clone`.
#[verifier::external_body]
fn table_remove(table: &mut lockfree::map::Map<i32, Subscription>, fd: i32) -> (removed: Option<
    Subscription,
>)
    ensures
        entries(*final(table)) == entries(*old(table)).remove(fd),
        removed == if entries(*old(table)).contains_key(fd) {
            Some(entries(*old(table))[fd])
        } else {
            None
        },
{
    table.remove(&fd).map(|entry| entry.val().clone())
}

/// `Map::get`, asked only whether there is an entry under `fd`.
#[verifier::external_body]
fn table_contains(table: &lockfree::map::Map<i32, Subscription>, fd: i32) -> (found: bool)
    ensures
        found == entries(*table).contains_key(fd),
{
    table.get(&fd).is_some()
}

/// What a non-blocking operation on a descriptor came to.
pub enum Attempt<T, E> {
    /// It was carried out, with this result.
    Done(T),
    /// It cannot be carried out before the descriptor is ready.
    WouldBlock,
    /// It failed.
    Failed(E),
}

/// A subscription that fired: the descriptor and what was stored for it.
#[derive(Debug, Clone)]
pub struct Fired {
    pub fd: i32,
    pub subscription: Subscription,
}

impl Fired {
    /// The event to disarm at the OS multiplexer.
    pub fn event(&self) -> (event: Event)
        ensures
            event == (Event { fd: self.fd, interest: self.subscription.interest }),
    {
        Event::new(self.fd, self.subscription.interest)
    }

    /// Invokes the waker of the subscription.
    pub fn wake(&self) {
        self.subscription.wake();
    }
}

/// The table that is left once the descriptors `fds` have been reported, in
/// order: none of them has an entry any more.
pub open spec fn remaining(table: Map<i32, Subscription>, fds: Seq<i32>) -> Map<i32, Subscription>
    decreases fds.len(),
{
    if fds.len() == 0 {
        table
    } else {
        remaining(table, fds.drop_last()).remove(fds.last())
    }
}

/// The subscriptions that fire when the descriptors `fds` are reported, in
/// order: each report takes the entry of its descriptor out of the table and
/// fires it, and a report for a descriptor without an entry fires nothing.
pub open spec fn fired(table: Map<i32, Subscription>, fds: Seq<i32>) -> Seq<Fired>
    decreases fds.len(),
{
    if fds.len() == 0 {
        Seq::empty()
    } else {
        let before = remaining(table, fds.drop_last());
        let fd = fds.last();
        if before.contains_key(fd) {
            fired(table, fds.drop_last()).push(Fired { fd, subscription: before[fd] })
        } else {
            fired(table, fds.drop_last())
        }
    }
}

/// The descriptors of the first `count` events.
pub open spec fn reported(events: Seq<Event>, count: int) -> Seq<i32> {
    events.take(count).map_values(|event: Event| event.fd)
}

/// Keeps, for every descriptor that a task waits on, the waker to invoke and
/// the interest that was asked for. Its view is that table.
pub struct Reactor {
    subscriptions: lockfree::map::Map<i32, Subscription>,
}

impl View for Reactor {
    type V = Map<i32, Subscription>;

    closed spec fn view(&self) -> Map<i32, Subscription> {
        entries(self.subscriptions)
    }
}

impl Reactor {
    /// A reactor without subscriptions.
    pub fn new() -> (reactor: Self)
        ensures
            reactor@ == Map::<i32, Subscription>::empty(),
    {
        Reactor { subscriptions: table_new() }
    }

    /// Whether `fd` has a subscription.
    pub fn is_registered(&self, fd: i32) -> (found: bool)
        ensures
            found == self@.contains_key(fd),
    {
        table_contains(&self.subscriptions, fd)
    }

    /// Subscribes `waker` to `fd`, in place of any earlier subscription of
    /// `fd`, and returns the event to arm at the OS multiplexer.
    pub fn register(&mut self, fd: i32, waker: Waker, interest: Interest) -> (event: Event)
        ensures
            final(self)@ == old(self)@.insert(fd, (Subscription { waker, interest })),
            event == (Event { fd, interest }),
    {
        table_insert(&mut self.subscriptions, fd, Subscription::new(waker, interest));
        Event::new(fd, interest)
    }

    /// Decides how the poll of an operation on `fd` ends, given what the
    /// attempt came to.
    ///
    /// An attempt that was carried out or failed ends the poll with its
    /// result, and the table stays as it is. One that would block subscribes
    /// `waker` to `fd` for `interest` and leaves the poll pending; the event
    /// that is returned beside it is the one to arm at the OS multiplexer.
    pub fn settle<T, E>(
        &mut self,
        fd: i32,
        waker: &Waker,
        interest: Interest,
        attempt: Attempt<T, E>,
    ) -> (next: (Poll<Result<T, E>>, Option<Event>))
        ensures
            match attempt {
                Attempt::Done(value) => {
                    &&& next == (Poll::Ready(Ok::<T, E>(value)), None::<Event>)
                    &&& final(self)@ == old(self)@
                },
                Attempt::Failed(error) => {
                    &&& next == (Poll::Ready(Err::<T, E>(error)), None::<Event>)
                    &&& final(self)@ == old(self)@
                },
                Attempt::WouldBlock => {
                    &&& next == (Poll::<Result<T, E>>::Pending, Some(Event { fd, interest }))
                    &&& final(self)@ == old(self)@.insert(
                        fd,
                        (Subscription { waker: *waker, interest }),
                    )
                },
            },
    {
        match attempt {
            Attempt::Done(value) => (Poll::Ready(Ok(value)), None),
            Attempt::Failed(error) => (Poll::Ready(Err(error)), None),
            Attempt::WouldBlock => {
                let event = self.register(fd, waker.clone(), interest);
                (Poll::Pending, Some(event))
            },
        }
    }

    /// Takes out the subscription of `fd`, which must exist, and returns the
    /// event to disarm at the OS multiplexer.
    pub fn remove(&mut self, fd: i32) -> (event: Event)
        requires
            old(self)@.contains_key(fd),
        ensures
            final(self)@ == old(self)@.remove(fd),
            event == (Event { fd, interest: old(self)@[fd].interest }),
    {
        match table_remove(&mut self.subscriptions, fd) {
            Some(subscription) => Event::new(fd, subscription.interest),
            None => unreached(),
        }
    }

    /// Handles one report for `fd`: takes out the subscription of `fd` and
    /// returns it for disarming and waking, or returns nothing where `fd` has
    /// no subscription.
    pub fn fire(&mut self, fd: i32) -> (hit: Option<Fired>)
        ensures
            final(self)@ == old(self)@.remove(fd),
            hit == if old(self)@.contains_key(fd) {
                Some(Fired { fd, subscription: old(self)@[fd] })
            } else {
                None
            },
    {
        match table_remove(&mut self.subscriptions, fd) {
            Some(subscription) => Some(Fired { fd, subscription }),
            None => None,
        }
    }

    /// Handles the first `count` of `events`, in order, as [`Reactor::fire`]
    /// handles each, and returns the subscriptions that fired, in that order.
    ///
    /// A report for a descriptor without a subscription fires nothing and is
    /// passed over. The result shows it: there are then fewer hits than
    /// reports (see [`lemma_reports_that_fire`]), which is for the caller to
    /// treat as it sees fit.
    pub fn dispatch(&mut self, events: &Vec<Event>, count: usize) -> (hits: Vec<Fired>)
        requires
            count <= events@.len(),
        ensures
            final(self)@ == remaining(old(self)@, reported(events@, count as int)),
            hits@ == fired(old(self)@, reported(events@, count as int)),
            hits@.len() <= count,
    {
        let mut hits: Vec<Fired> = Vec::new();
        let mut i: usize = 0;
        while i < count
            invariant
                i <= count <= events@.len(),
                self@ == remaining(old(self)@, reported(events@, i as int)),
                hits@ == fired(old(self)@, reported(events@, i as int)),
            decreases count - i,
        {
            let fd: i32 = events[i].fd;
            proof {
                let done = reported(events@, i as int);
                let next = reported(events@, i + 1);
                assert(next.drop_last() == done);
                assert(next.last() == fd);
            }
            match self.fire(fd) {
                Some(hit) => {
                    hits.push(hit);
                },
                None => {},
            }
            i += 1;
        }
        proof {
            lemma_reports_that_fire(old(self)@, reported(events@, count as int));
        }
        hits
    }
}

/// What is left of a table after reports is what was in it under the
/// descriptors that were not reported, unchanged.
pub proof fn lemma_remaining_entries(table: Map<i32, Subscription>, fds: Seq<i32>, fd: i32)
    ensures
        remaining(table, fds).contains_key(fd) <==> table.contains_key(fd) && !fds.contains(fd),
        remaining(table, fds).contains_key(fd) ==> remaining(table, fds)[fd] == table[fd],
    decreases fds.len(),
{
    if fds.len() > 0 {
        lemma_remaining_entries(table, fds.drop_last(), fd);
        assert(fds.contains(fd) <==> fds.drop_last().contains(fd) || fds.last() == fd) by {
            if fds.contains(fd) {
                let i = choose|i: int| 0 <= i < fds.len() && fds[i] == fd;
                if i < fds.len() - 1 {
                    assert(fds.drop_last()[i] == fd);
                }
            }
            if fds.drop_last().contains(fd) {
                let i = choose|i: int| 0 <= i < fds.drop_last().len() && fds.drop_last()[i] == fd;
                assert(fds[i] == fd);
            }
            if fds.last() == fd {
                assert(fds[fds.len() - 1] == fd);
            }
        }
    }
}

/// No report fires more than one subscription, and there are as many hits as
/// reports exactly when every report found a subscription at its turn.
pub proof fn lemma_reports_that_fire(table: Map<i32, Subscription>, fds: Seq<i32>)
    ensures
        fired(table, fds).len() <= fds.len(),
        fired(table, fds).len() == fds.len() <==> forall|i: int|
            0 <= i < fds.len() ==> #[trigger] remaining(table, fds.take(i)).contains_key(fds[i]),
    decreases fds.len(),
{
    if fds.len() > 0 {
        let earlier = fds.drop_last();
        let last = fds.len() - 1;
        lemma_reports_that_fire(table, earlier);
        assert(fds.take(last) == earlier);
        assert forall|i: int| 0 <= i < last implies fds.take(i) == earlier.take(i) && fds[i]
            == earlier[i] by {
            assert(fds.take(i) =~= earlier.take(i));
        }
        if fired(table, fds).len() == fds.len() {
            assert(remaining(table, earlier).contains_key(fds.last()));
            assert(fired(table, earlier).len() == earlier.len());
            assert forall|i: int| 0 <= i < fds.len() implies #[trigger] remaining(
                table,
                fds.take(i),
            ).contains_key(fds[i]) by {
                if i < last {
                    assert(remaining(table, earlier.take(i)).contains_key(earlier[i]));
                }
            }
        }
        if forall|i: int|
            0 <= i < fds.len() ==> #[trigger] remaining(table, fds.take(i)).contains_key(fds[i]) {
            assert(remaining(table, fds.take(last)).contains_key(fds[last]));
            assert forall|i: int| 0 <= i < earlier.len() implies #[trigger] remaining(
                table,
                earlier.take(i),
            ).contains_key(earlier[i]) by {
                assert(remaining(table, fds.take(i)).contains_key(fds[i]));
            }
        }
    }
}

/// Every subscription that fires was in the table, under a descriptor that was
/// reported.
pub proof fn lemma_fired_were_registered(table: Map<i32, Subscription>, fds: Seq<i32>, k: int)
    requires
        0 <= k < fired(table, fds).len(),
    ensures
        fds.contains(fired(table, fds)[k].fd),
        table.contains_key(fired(table, fds)[k].fd),
        fired(table, fds)[k].subscription == table[fired(table, fds)[k].fd],
    decreases fds.len(),
{
    if fds.len() > 0 {
        let earlier = fired(table, fds.drop_last());
        if k < earlier.len() {
            lemma_fired_were_registered(table, fds.drop_last(), k);
            let fd = earlier[k].fd;
            let i = choose|i: int| 0 <= i < fds.drop_last().len() && fds.drop_last()[i] == fd;
            assert(fds[i] == fd);
        } else {
            let fd = fds.last();
            lemma_remaining_entries(table, fds.drop_last(), fd);
            assert(fds[fds.len() - 1] == fd);
        }
    }
}

/// Within one run of reports a descriptor fires at most once, however often it
/// is reported.
pub proof fn lemma_fires_once_per_run(table: Map<i32, Subscription>, fds: Seq<i32>, j: int, k: int)
    requires
        0 <= j < k < fired(table, fds).len(),
    ensures
        fired(table, fds)[j].fd != fired(table, fds)[k].fd,
    decreases fds.len(),
{
    if fds.len() > 0 {
        let earlier = fired(table, fds.drop_last());
        if k < earlier.len() {
            lemma_fires_once_per_run(table, fds.drop_last(), j, k);
        } else {
            lemma_fired_were_registered(table, fds.drop_last(), j);
            lemma_remaining_entries(table, fds.drop_last(), earlier[j].fd);
        }
    }
}

/// Subscriptions are one-shot: once a descriptor has been reported, no later
/// report fires anything for it, whatever else is reported.
pub proof fn lemma_one_shot(
    table: Map<i32, Subscription>,
    first: Seq<i32>,
    later: Seq<i32>,
    fd: i32,
    k: int,
)
    requires
        first.contains(fd),
        0 <= k < fired(remaining(table, first), later).len(),
    ensures
        fired(remaining(table, first), later)[k].fd != fd,
{
    lemma_remaining_entries(table, first, fd);
    lemma_fired_were_registered(remaining(table, first), later, k);
}

/// Registering a descriptor again arms it again: its next report fires the
/// subscription that was registered last, and fires it alone.
pub proof fn lemma_register_rearms(
    table: Map<i32, Subscription>,
    fd: i32,
    subscription: Subscription,
)
    ensures
        fired(table.insert(fd, subscription), seq![fd]) == seq![Fired { fd, subscription }],
        !remaining(table.insert(fd, subscription), seq![fd]).contains_key(fd),
{
    let armed = table.insert(fd, subscription);
    let fds = seq![fd];
    assert(fds.drop_last() == Seq::<i32>::empty());
    assert(fds.last() == fd);
    assert(remaining(armed, fds.drop_last()) == armed);
    assert(fired(armed, fds.drop_last()) == Seq::<Fired>::empty());
    assert(fired(armed, fds) == Seq::<Fired>::empty().push(Fired { fd, subscription }));
}

} // verus!
