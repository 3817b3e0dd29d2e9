//! Tests of the runtime side: latest-value observation semantics of the
//! channel, the published field and the signal.

use firmware_controller::published::PublishedField;
use firmware_controller::published::Signal;
use firmware_controller::watch::Watch;

#[derive(Debug, Clone, Copy, PartialEq, Eq)]
enum Mode {
    Normal,
    Debug,
}

#[derive(Debug, Clone, Copy, PartialEq, Eq)]
enum State {
    Idle,
    Active,
    Error,
}

#[test]
fn test_late_subscriber_first_poll_sees_latest() {
    let mut ch: Watch<u32> = Watch::new(16);
    ch.send(1);
    ch.send(2);
    ch.send(3);
    // A subscriber created after N writes yields the N-th write on its
    // first poll, not a replay of the earlier ones.
    let mut rc = ch.receiver().unwrap();
    assert_eq!(rc.poll(&ch), Some(3));
    assert_eq!(rc.poll(&ch), None);
}

#[test]
fn test_early_subscriber_sees_nothing_until_first_write() {
    let mut ch: Watch<u32> = Watch::new(16);
    let mut rc = ch.receiver().unwrap();
    assert_eq!(rc.poll(&ch), None);
    assert_eq!(rc.poll(&ch), None);
    ch.send(7);
    assert_eq!(rc.poll(&ch), Some(7));
    assert_eq!(rc.poll(&ch), None);
}

#[test]
fn test_slow_subscriber_misses_intermediate_values() {
    let mut ch: Watch<u32> = Watch::new(16);
    let mut rc = ch.receiver().unwrap();
    ch.send(1);
    assert_eq!(rc.poll(&ch), Some(1));
    ch.send(2);
    ch.send(3);
    // Only the newest value is retained; the intermediate one is lost to
    // a lagging reader, and the writer never waited.
    assert_eq!(rc.poll(&ch), Some(3));
    assert_eq!(rc.poll(&ch), None);
}

#[test]
fn test_each_subscriber_tracks_its_own_cursor() {
    let mut ch: Watch<u32> = Watch::new(16);
    let mut a = ch.receiver().unwrap();
    ch.send(5);
    let mut b = ch.receiver().unwrap();
    assert_eq!(a.poll(&ch), Some(5));
    assert_eq!(b.poll(&ch), Some(5));
    ch.send(6);
    assert_eq!(a.poll(&ch), Some(6));
    assert_eq!(a.poll(&ch), None);
    assert_eq!(b.poll(&ch), Some(6));
}

#[test]
fn test_subscriber_limit_enforced() {
    let mut ch: Watch<u32> = Watch::new(1);
    assert!(ch.receiver().is_some());
    assert!(ch.receiver().is_none());
}

#[test]
fn test_try_get_returns_current_value() {
    let mut ch: Watch<u32> = Watch::new(16);
    assert_eq!(ch.try_get(), None);
    ch.send(9);
    assert_eq!(ch.try_get(), Some(9));
}

#[test]
fn test_construction_publishes_initial_value() {
    // Building with an initial value and never mutating, then
    // subscribing, yields the initial value without requiring any write.
    let mut pf: PublishedField<u32> = PublishedField::new(42, 16);
    let mut rc = pf.subscribe().unwrap();
    assert_eq!(rc.poll(pf.watch_ref()), Some(42));
    assert_eq!(rc.poll(pf.watch_ref()), None);
    assert_eq!(pf.get(), 42);
}

#[test]
fn test_publish_observed_exactly_once_per_call() {
    let mut pf: PublishedField<u32> = PublishedField::new(0, 16);
    let mut rc = pf.subscribe().unwrap();
    assert_eq!(rc.poll(pf.watch_ref()), Some(0));
    pf.set(5);
    assert_eq!(rc.poll(pf.watch_ref()), Some(5));
    assert_eq!(rc.poll(pf.watch_ref()), None);
    // Setting the same value again still emits a change observation.
    pf.set(5);
    assert_eq!(rc.poll(pf.watch_ref()), Some(5));
    assert_eq!(rc.poll(pf.watch_ref()), None);
}

#[test]
fn test_mode_field_end_to_end() {
    // A state field `mode: Mode`, initialized to `Normal`, published,
    // with a getter.
    let mut pf: PublishedField<Mode> = PublishedField::new(Mode::Normal, 16);
    let mut rc = pf.subscribe().unwrap();
    assert_eq!(rc.poll(pf.watch_ref()), Some(Mode::Normal));
    pf.set(Mode::Debug);
    assert_eq!(rc.poll(pf.watch_ref()), Some(Mode::Debug));
    // The getter reflects the mutation regardless of subscriber activity.
    assert_eq!(pf.get(), Mode::Debug);
}

#[test]
fn test_state_transitions_observed_in_order() {
    let mut pf: PublishedField<State> = PublishedField::new(State::Idle, 16);
    let mut rc = pf.subscribe().unwrap();
    assert_eq!(rc.poll(pf.watch_ref()), Some(State::Idle));
    pf.set(State::Active);
    assert_eq!(rc.poll(pf.watch_ref()), Some(State::Active));
    pf.set(State::Error);
    assert_eq!(rc.poll(pf.watch_ref()), Some(State::Error));
    assert_eq!(pf.get(), State::Error);
}

#[test]
fn test_signal_emits_payload() {
    let mut sig: Signal<u32> = Signal::new(16);
    let mut rc = sig.subscribe().unwrap();
    // A signal has no backing storage: nothing is observed before the
    // first emission.
    assert_eq!(rc.poll(sig.watch_ref()), None);
    sig.emit(42);
    assert_eq!(rc.poll(sig.watch_ref()), Some(42));
    assert_eq!(rc.poll(sig.watch_ref()), None);
}

#[test]
fn test_signal_subscriber_limit() {
    let mut sig: Signal<u32> = Signal::new(2);
    assert!(sig.subscribe().is_some());
    assert!(sig.subscribe().is_some());
    assert!(sig.subscribe().is_none());
}
