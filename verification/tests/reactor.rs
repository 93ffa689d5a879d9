use oxic::interest::Event;
use oxic::interest::Interest;
use oxic::reactor::Attempt;
use oxic::reactor::Fired;
use oxic::reactor::Reactor;
use oxic::reactor::Subscription;
use std::sync::atomic::AtomicU32;
use std::sync::atomic::Ordering;
use std::sync::Arc;
use std::task::Poll;
use std::task::Wake;
use std::task::Waker;

struct TestWaker;
impl Wake for TestWaker {
    fn wake(self: Arc<Self>) {
        println!("woken up")
    }

    fn wake_by_ref(self: &Arc<Self>) {
        println!("woken up")
    }
}

/// Counts how often it is woken.
struct Counting(AtomicU32);

impl Wake for Counting {
    fn wake(self: Arc<Self>) {
        self.0.fetch_add(1, Ordering::SeqCst);
    }

    fn wake_by_ref(self: &Arc<Self>) {
        self.0.fetch_add(1, Ordering::SeqCst);
    }
}

fn counting() -> (Arc<Counting>, Waker) {
    let count = Arc::new(Counting(AtomicU32::new(0)));
    (count.clone(), Waker::from(count))
}

fn woken(count: &Arc<Counting>) -> u32 {
    count.0.load(Ordering::SeqCst)
}

fn fds(hits: &[Fired]) -> Vec<i32> {
    hits.iter().map(|hit| hit.fd).collect()
}

#[test]
fn register_fd() {
    let mut reactor = Reactor::new();

    let fd = 3006;
    reactor.register(fd, Waker::from(Arc::new(TestWaker {})), Interest::Read);
}

#[test]
fn new_reactor_has_no_subscriptions() {
    let mut reactor = Reactor::new();
    for fd in [-1, 0, 1, 2, 3006, i32::MAX] {
        assert!(!reactor.is_registered(fd));
        assert!(reactor.fire(fd).is_none());
    }
}

#[test]
fn register_returns_the_event_to_arm() {
    let mut reactor = Reactor::new();
    let (_, waker) = counting();
    let event = reactor.register(5, waker.clone(), Interest::Write);
    assert_eq!(event, Event::new(5, Interest::Write));
    assert!(reactor.is_registered(5));
    assert!(!reactor.is_registered(4));
    let event = reactor.register(-3, waker, Interest::ReadWrite);
    assert_eq!(event, Event::new(-3, Interest::ReadWrite));
    assert!(reactor.is_registered(-3));
    assert!(reactor.is_registered(5));
}

#[test]
fn register_does_not_wake() {
    let mut reactor = Reactor::new();
    let (count, waker) = counting();
    reactor.register(5, waker, Interest::Read);
    assert_eq!(woken(&count), 0);
}

#[test]
fn remove_returns_the_event_to_disarm() {
    let mut reactor = Reactor::new();
    let (count, waker) = counting();
    reactor.register(5, waker.clone(), Interest::Write);
    reactor.register(6, waker, Interest::Read);
    let event = reactor.remove(5);
    assert_eq!(event, Event::new(5, Interest::Write));
    assert!(!reactor.is_registered(5));
    assert!(reactor.is_registered(6));
    assert_eq!(woken(&count), 0);
    assert!(reactor.fire(5).is_none());
}

#[test]
fn fire_takes_the_subscription_out() {
    let mut reactor = Reactor::new();
    let (count, waker) = counting();
    reactor.register(8, waker, Interest::Read);

    let hit = reactor.fire(8).unwrap();
    assert_eq!(hit.fd, 8);
    assert_eq!(hit.subscription.interest, Interest::Read);
    assert_eq!(hit.event(), Event::new(8, Interest::Read));
    assert!(!reactor.is_registered(8));
    assert_eq!(woken(&count), 0);
    hit.wake();
    assert_eq!(woken(&count), 1);
}

#[test]
fn register_again_replaces_the_subscription() {
    let mut reactor = Reactor::new();
    let (first, first_waker) = counting();
    let (second, second_waker) = counting();
    reactor.register(8, first_waker, Interest::Read);
    let event = reactor.register(8, second_waker, Interest::Write);
    assert_eq!(event, Event::new(8, Interest::Write));

    let hit = reactor.fire(8).unwrap();
    assert_eq!(hit.subscription.interest, Interest::Write);
    hit.wake();
    assert_eq!(woken(&first), 0);
    assert_eq!(woken(&second), 1);
    assert!(reactor.fire(8).is_none());
}

#[test]
fn subscription_wakes_its_waker() {
    let (count, waker) = counting();
    let subscription = Subscription::new(waker, Interest::ReadWrite);
    assert_eq!(subscription.interest, Interest::ReadWrite);
    subscription.wake();
    subscription.wake();
    assert_eq!(woken(&count), 2);
}

#[test]
fn dispatch_fires_in_order_of_report() {
    let mut reactor = Reactor::new();
    let (a, a_waker) = counting();
    let (b, b_waker) = counting();
    let (c, c_waker) = counting();
    reactor.register(1, a_waker, Interest::Read);
    reactor.register(2, b_waker, Interest::Write);
    reactor.register(3, c_waker, Interest::ReadWrite);

    let events = vec![Event::new(3, Interest::Read), Event::new(1, Interest::Read)];
    let hits = reactor.dispatch(&events, 2);
    assert_eq!(fds(&hits), vec![3, 1]);
    // What fires is what was registered, not what was reported.
    assert_eq!(hits[0].event(), Event::new(3, Interest::ReadWrite));
    assert_eq!(hits[1].event(), Event::new(1, Interest::Read));
    for hit in &hits {
        hit.wake();
    }
    assert_eq!((woken(&a), woken(&b), woken(&c)), (1, 0, 1));
    assert!(!reactor.is_registered(1));
    assert!(reactor.is_registered(2));
    assert!(!reactor.is_registered(3));
}

#[test]
fn dispatch_handles_only_the_first_count_events() {
    let mut reactor = Reactor::new();
    let (_, waker) = counting();
    for fd in 0..4 {
        reactor.register(fd, waker.clone(), Interest::Read);
    }
    let events: Vec<Event> = (0..4).map(|fd| Event::new(fd, Interest::Read)).collect();

    assert!(reactor.dispatch(&events, 0).is_empty());
    assert!(reactor.is_registered(0));

    let hits = reactor.dispatch(&events, 2);
    assert_eq!(fds(&hits), vec![0, 1]);
    assert!(reactor.is_registered(2));
    assert!(reactor.is_registered(3));

    let hits = reactor.dispatch(&events, 4);
    assert_eq!(fds(&hits), vec![2, 3]);
    assert!(reactor.dispatch(&Vec::new(), 0).is_empty());
}

#[test]
fn dispatch_passes_over_unknown_descriptors() {
    let mut reactor = Reactor::new();
    let (count, waker) = counting();
    reactor.register(10, waker, Interest::Read);
    let events = vec![
        Event::new(11, Interest::Read),
        Event::new(10, Interest::Read),
        Event::new(12, Interest::Write),
    ];
    let hits = reactor.dispatch(&events, 3);
    assert_eq!(fds(&hits), vec![10]);
    // Fewer hits than reports: some report found no subscription.
    assert!(hits.len() < events.len());
    assert_eq!(woken(&count), 0);
}

#[test]
fn descriptor_fires_once_per_run_of_reports() {
    let mut reactor = Reactor::new();
    let (count, waker) = counting();
    reactor.register(10, waker, Interest::Read);
    let events = vec![Event::new(10, Interest::Read); 3];
    let hits = reactor.dispatch(&events, 3);
    assert_eq!(fds(&hits), vec![10]);
    for hit in &hits {
        hit.wake();
    }
    assert_eq!(woken(&count), 1);
}

#[test]
fn subscription_is_one_shot() {
    let mut reactor = Reactor::new();
    let (count, waker) = counting();
    let events = vec![Event::new(10, Interest::Read)];

    reactor.register(10, waker.clone(), Interest::Read);
    for hit in reactor.dispatch(&events, 1) {
        hit.wake();
    }
    assert_eq!(woken(&count), 1);

    // A second report for the same descriptor wakes nobody.
    for _ in 0..5 {
        for hit in reactor.dispatch(&events, 1) {
            hit.wake();
        }
    }
    assert_eq!(woken(&count), 1);
    assert!(!reactor.is_registered(10));

    // Until it is registered again.
    reactor.register(10, waker, Interest::Read);
    for hit in reactor.dispatch(&events, 1) {
        hit.wake();
    }
    assert_eq!(woken(&count), 2);
    assert!(reactor.dispatch(&events, 1).is_empty());
}

#[test]
fn settle_hands_on_what_is_done() {
    let mut reactor = Reactor::new();
    let (count, waker) = counting();
    let (next, arm) = reactor.settle::<usize, String>(4, &waker, Interest::Read, Attempt::Done(5));
    assert_eq!(next, Poll::Ready(Ok(5)));
    assert_eq!(arm, None);
    assert!(!reactor.is_registered(4));
    assert_eq!(woken(&count), 0);
}

#[test]
fn settle_hands_on_a_failure() {
    let mut reactor = Reactor::new();
    let (_, waker) = counting();
    let failed = Attempt::Failed(String::from("refused"));
    let (next, arm) = reactor.settle::<usize, String>(4, &waker, Interest::Write, failed);
    assert_eq!(next, Poll::Ready(Err(String::from("refused"))));
    assert_eq!(arm, None);
    assert!(!reactor.is_registered(4));
}

#[test]
fn settle_subscribes_where_it_would_block() {
    let mut reactor = Reactor::new();
    let (count, waker) = counting();
    let (next, arm) =
        reactor.settle::<usize, String>(4, &waker, Interest::Write, Attempt::WouldBlock);
    assert_eq!(next, Poll::Pending);
    assert_eq!(arm, Some(Event::new(4, Interest::Write)));
    assert!(reactor.is_registered(4));
    assert_eq!(woken(&count), 0);

    let hit = reactor.fire(4).unwrap();
    assert_eq!(hit.event(), Event::new(4, Interest::Write));
    hit.wake();
    assert_eq!(woken(&count), 1);
}
