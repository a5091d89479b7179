use std::cell::{Cell, RefCell};
use std::rc::Rc;

use rust_embedded::clock::{ClockProviderTrait, ClockTrait};
use rust_embedded::callback_registry::{Callback, CallbackRegistry, PendingQueue};
use rust_embedded::duration::Duration;
use rust_embedded::fake_clock::ClockProvider;
use rust_embedded::uptime::Uptime;

type Registry = CallbackRegistry<Box<dyn Callback>>;

fn registry() -> Registry {
    let provider = ClockProvider::new((), 1_000_000);
    CallbackRegistry::new(provider)
}

struct Push(Rc<RefCell<Vec<i32>>>, i32);

impl Callback for Push {
    fn call(&mut self, _now: Uptime, _pending: &mut PendingQueue) {
        self.0.borrow_mut().push(self.1);
    }
}

struct Count(Rc<Cell<u32>>);

impl Callback for Count {
    fn call(&mut self, _now: Uptime, _pending: &mut PendingQueue) {
        self.0.set(self.0.get() + 1);
    }
}

struct Flag(Rc<Cell<bool>>);

impl Callback for Flag {
    fn call(&mut self, _now: Uptime, _pending: &mut PendingQueue) {
        self.0.set(true);
    }
}

struct Record(Rc<RefCell<Option<Uptime>>>);

impl Callback for Record {
    fn call(&mut self, now: Uptime, _pending: &mut PendingQueue) {
        *self.0.borrow_mut() = Some(now);
    }
}

struct Log(&'static str, Rc<RefCell<Vec<(&'static str, Uptime)>>>);

impl Callback for Log {
    fn call(&mut self, now: Uptime, _pending: &mut PendingQueue) {
        self.1.borrow_mut().push((self.0, now));
    }
}

/// Counts its runs and reschedules itself 10 ms later until it has run
/// three times.
struct Reschedule(Rc<Cell<u32>>);

impl Callback for Reschedule {
    fn call(&mut self, fired_at: Uptime, pending: &mut PendingQueue) {
        self.0.set(self.0.get() + 1);
        if self.0.get() < 3 {
            pending.schedule("x", fired_at + Duration::from_millis(10));
        }
    }
}

#[test]
fn fire_runs_every_registered_callback_in_registration_order() {
    let mut registry = registry();
    let order = Rc::new(RefCell::new(Vec::new()));
    registry.register("x", Box::new(Push(order.clone(), 1)));
    registry.register("x", Box::new(Push(order.clone(), 2)));

    registry.fire("x");
    assert_eq!(*order.borrow(), vec![1, 2]);
}

#[test]
fn fire_only_invokes_callbacks_registered_under_that_name() {
    let mut registry = registry();
    let count = Rc::new(Cell::new(0));
    registry.register("x", Box::new(Count(count.clone())));

    registry.fire("y");
    assert_eq!(count.get(), 0);

    registry.fire("x");
    assert_eq!(count.get(), 1);
}

#[test]
fn schedule_does_not_fire_until_the_clock_reaches_it() {
    let mut registry = registry();
    let fired = Rc::new(Cell::new(false));
    registry.register("x", Box::new(Flag(fired.clone())));

    let now = registry.now();
    registry.schedule("x", now + Duration::from_millis(10));
    registry.advance_clock_by(Duration::from_millis(5));
    assert!(!fired.get());
}

#[test]
fn advance_clock_by_fires_a_scheduled_trigger_reached_along_the_way() {
    let mut registry = registry();
    let received = Rc::new(RefCell::new(None));
    registry.register("x", Box::new(Record(received.clone())));

    let start = registry.now();
    registry.schedule("x", start + Duration::from_millis(10));
    registry.advance_clock_by(Duration::from_millis(20));

    assert_eq!(*received.borrow(), Some(start + Duration::from_millis(10)));
}

#[test]
fn advance_clock_by_fires_multiple_pending_entries_in_time_order() {
    let mut registry = registry();
    let order = Rc::new(RefCell::new(Vec::new()));
    registry.register("a", Box::new(Log("a", order.clone())));
    registry.register("b", Box::new(Log("b", order.clone())));

    let start = registry.now();
    registry.schedule("a", start + Duration::from_millis(20));
    registry.schedule("b", start + Duration::from_millis(10));
    registry.advance_clock_by(Duration::from_millis(30));

    assert_eq!(
        *order.borrow(),
        vec![("b", start + Duration::from_millis(10)), ("a", start + Duration::from_millis(20)),]
    );
}

#[test]
fn advance_clock_by_advances_the_clock_to_the_target_even_with_no_pending_entries() {
    let mut registry = registry();
    let start = registry.now();
    registry.advance_clock_by(Duration::from_millis(50));
    let elapsed = registry.now() - start;
    assert!(
        elapsed >= Duration::from_millis(49) && elapsed <= Duration::from_millis(51),
        "{elapsed:?}"
    );
}

#[test]
fn a_callback_can_reschedule_itself() {
    let mut registry = registry();
    let count = Rc::new(Cell::new(0));
    registry.register("x", Box::new(Reschedule(count.clone())));

    let now = registry.now();
    registry.schedule("x", now + Duration::from_millis(10));
    registry.advance_clock_by(Duration::from_millis(100));

    assert_eq!(count.get(), 3);
}

#[test]
fn poll_fires_entries_already_due_without_advancing_the_clock() {
    let mut registry = registry();
    let fired = Rc::new(Cell::new(false));
    registry.register("x", Box::new(Flag(fired.clone())));

    let now = registry.now();
    registry.schedule("x", now);
    registry.poll();

    assert!(fired.get());
    assert_eq!(registry.now(), now);
}

#[test]
fn poll_does_not_fire_entries_still_in_the_future() {
    let mut registry = registry();
    let fired = Rc::new(Cell::new(false));
    registry.register("x", Box::new(Flag(fired.clone())));

    let now = registry.now();
    registry.schedule("x", now + Duration::from_millis(10));
    registry.poll();

    assert!(!fired.get());
}

#[test]
fn firings_due_at_the_same_time_fire_in_trigger_name_order() {
    let mut registry = registry();
    let order = Rc::new(RefCell::new(Vec::new()));
    registry.register("b", Box::new(Log("b", order.clone())));
    registry.register("a", Box::new(Log("a", order.clone())));
    registry.register("ab", Box::new(Log("ab", order.clone())));

    let at = registry.now() + Duration::from_millis(3);
    registry.schedule("b", at);
    registry.schedule("ab", at);
    registry.schedule("a", at);
    assert!(registry.advance_clock_by(Duration::from_millis(3)));

    let names: Vec<&str> = order.borrow().iter().map(|(name, _)| *name).collect();
    assert_eq!(names, vec!["a", "ab", "b"]);
}

#[test]
fn advance_and_poll_report_settling() {
    let mut registry = registry();
    let count = Rc::new(Cell::new(0));
    registry.register("x", Box::new(Count(count.clone())));
    let at = registry.now() + Duration::from_millis(1);
    registry.schedule("x", at);
    assert!(registry.poll());
    assert_eq!(count.get(), 0);
    assert!(registry.advance_clock_by(Duration::from_millis(2)));
    assert_eq!(count.get(), 1);
}

#[test]
fn advance_clock_by_stops_where_the_clock_would_overflow() {
    // At 2 Hz one tick is half a second. A firing due in the past makes the
    // clock move by a negative duration, which wraps to 2^32 - 1 ticks: far
    // past the last representable time once the clock is off zero.
    let provider = ClockProvider::new((), 2);
    let mut registry: Registry = CallbackRegistry::new(provider);
    let count = Rc::new(Cell::new(0));
    registry.register("x", Box::new(Count(count.clone())));
    assert!(registry.advance_clock_by(Duration::from_seconds(1)));
    let before = registry.now();
    assert_eq!(before, Uptime::epoch() + Duration::from_seconds(1));

    registry.schedule("x", before - Duration::new(1));
    assert!(!registry.advance_clock_by(Duration::from_seconds(1)));
    assert_eq!(count.get(), 0);
    assert_eq!(registry.now(), before);
}

#[test]
fn firmware_reads_the_clock_the_registry_moves() {
    let mut registry = registry();
    assert!(registry.advance_clock_by(Duration::from_millis(3)));
    let provider = registry.clock_provider();
    provider.advance_reference_point();
    let now = provider.get_clock().now();
    // The firmware's reading counts the registry's 3 ms.
    assert!(now >= Uptime::epoch() + Duration::from_millis(3));
}

#[test]
fn firmware_moving_the_clock_is_seen_by_the_registry() {
    let mut registry = registry();
    let count = Rc::new(Cell::new(0));
    registry.register("x", Box::new(Count(count.clone())));
    let at = registry.now() + Duration::from_millis(5);
    registry.schedule("x", at);
    registry.clock_provider().fake_mut().advance_by(Duration::from_millis(10));
    assert!(registry.poll());
    assert_eq!(count.get(), 1);
}

#[test]
fn a_callback_runs_once_per_firing_of_its_trigger() {
    let mut registry = registry();
    let log = Rc::new(RefCell::new(Vec::new()));
    registry.register("x", Box::new(Log("x", log.clone())));
    registry.register("y", Box::new(Log("y", log.clone())));
    let start = registry.now();
    registry.schedule("x", start + Duration::from_millis(1));
    registry.schedule("y", start + Duration::from_millis(2));
    registry.schedule("x", start + Duration::from_millis(3));
    assert!(registry.advance_clock_by(Duration::from_millis(5)));
    assert_eq!(
        *log.borrow(),
        vec![
            ("x", start + Duration::from_millis(1)),
            ("y", start + Duration::from_millis(2)),
            ("x", start + Duration::from_millis(3)),
        ]
    );
}
