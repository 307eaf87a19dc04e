use casus::Event;
use std::sync::atomic::{AtomicUsize, Ordering};
use std::sync::Arc;
use std::task::{Wake, Waker};

struct Counter(AtomicUsize);

impl Wake for Counter {
    fn wake(self: Arc<Self>) {
        self.0.fetch_add(1, Ordering::SeqCst);
    }
}

fn counting_waker() -> (Arc<Counter>, Waker) {
    let c = Arc::new(Counter(AtomicUsize::new(0)));
    (c.clone(), Waker::from(c))
}

fn wakes(c: &Arc<Counter>) -> usize {
    c.0.load(Ordering::SeqCst)
}

#[test]
fn set_and_clear_scenario() {
    let mut e = Event::new();
    assert!(!e.is_set());
    e.set();
    assert!(e.is_set());
    e.clear();
    assert!(!e.is_set());
}

#[test]
fn default_event_is_unset() {
    let e = Event::default();
    assert!(!e.is_set());
}

#[test]
fn wait_on_set_event_returns_at_once() {
    let mut e = Event::new();
    e.set();
    assert_eq!(e.register_wait(), None);
    assert!(!e.can_poll(0));
}

#[test]
fn three_waits_released_by_one_set() {
    let mut e = Event::new();
    let mut tickets = Vec::new();
    let mut counters = Vec::new();
    let mut wakers = Vec::new();
    for _ in 0..3 {
        let (c, wk) = counting_waker();
        let t = e.register_wait().unwrap();
        assert!(e.can_poll(t));
        assert!(!e.poll_wait(t, &wk));
        tickets.push(t);
        counters.push(c);
        wakers.push(wk);
    }
    assert_eq!(tickets, vec![0, 1, 2]);
    for c in &counters {
        assert_eq!(wakes(c), 0);
    }
    e.set();
    for c in &counters {
        assert_eq!(wakes(c), 1);
    }
    for (t, wk) in tickets.iter().zip(wakers.iter()) {
        assert!(e.can_poll(*t));
        assert!(e.poll_wait(*t, wk));
        assert!(!e.can_poll(*t));
    }
}

#[test]
fn clear_rearms_waiting() {
    let (c, wk) = counting_waker();
    let mut e = Event::new();
    e.set();
    assert_eq!(e.register_wait(), None);
    e.clear();
    let t = e.register_wait().unwrap();
    assert!(!e.poll_wait(t, &wk));
    assert_eq!(wakes(&c), 0);
    e.set();
    assert_eq!(wakes(&c), 1);
    assert!(e.poll_wait(t, &wk));
}

#[test]
fn registry_keeps_waiters_across_clear() {
    let (c, wk) = counting_waker();
    let mut e = Event::new();
    assert_eq!(e.register_wait(), Some(0));
    assert!(!e.poll_wait(0, &wk));
    e.set();
    e.clear();
    assert_eq!(e.register_wait(), Some(1));
    e.set();
    assert_eq!(wakes(&c), 1);
    assert!(e.poll_wait(0, &wk));
    assert!(e.poll_wait(1, &wk));
}

#[test]
fn unknown_ticket_cannot_be_polled() {
    let e = Event::new();
    assert!(!e.can_poll(0));
    assert!(!e.can_poll(usize::MAX));
}

#[test]
fn set_with_no_waiters_and_twice() {
    let mut e = Event::new();
    e.set();
    e.set();
    assert!(e.is_set());
}
