use std::time::{Duration, Instant};

use parking::state::{
    decide_park_entry, decide_raced_take, decide_registration, decide_timed_wait, decide_unpark,
    Registration, UnparkAction,
};
use parking::{pair, ParkError, ParkState, Parker, EMPTY, NOTIFIED, PARKED};

#[test]
fn unpark_before_park_returns_at_once() {
    let (p, u) = pair();
    assert_eq!(u.unpark(), Ok(true));
    let start = Instant::now();
    assert_eq!(p.park(), Ok(()));
    assert!(start.elapsed() < Duration::from_millis(50));
}

#[test]
fn second_unpark_is_coalesced() {
    let (p, u) = pair();
    assert_eq!(u.unpark(), Ok(true));
    assert_eq!(u.unpark(), Ok(false));
    let start = Instant::now();
    assert_eq!(p.park(), Ok(()));
    assert!(start.elapsed() < Duration::from_millis(50));
    // Exactly one notification was pending, and it is gone.
    assert_eq!(p.park_timeout(Duration::from_millis(0)), Ok(false));
}

#[test]
fn park_timeout_without_unpark_returns_false() {
    let p = Parker::new();
    let start = Instant::now();
    assert_eq!(p.park_timeout(Duration::from_millis(100)), Ok(false));
    let waited = start.elapsed();
    assert!(waited >= Duration::from_millis(100));
    assert!(waited < Duration::from_millis(2000));
}

#[test]
fn zero_timeout_polls_without_blocking() {
    let p = Parker::new();
    let start = Instant::now();
    assert_eq!(p.park_timeout(Duration::from_millis(0)), Ok(false));
    assert!(start.elapsed() < Duration::from_millis(50));
    assert_eq!(p.unpark(), Ok(true));
    assert_eq!(p.park_timeout(Duration::from_millis(0)), Ok(true));
    assert_eq!(p.park_timeout(Duration::ZERO), Ok(false));
}

#[test]
fn unpark_before_timed_park_is_taken_at_once() {
    let (p, u) = pair();
    assert_eq!(u.unpark(), Ok(true));
    let start = Instant::now();
    assert_eq!(p.park_timeout(Duration::from_millis(100)), Ok(true));
    assert!(start.elapsed() < Duration::from_millis(50));
    // The notification was taken: nothing is left pending.
    assert_eq!(p.park_timeout(Duration::from_millis(0)), Ok(false));
    assert_eq!(p.park_timeout(Duration::from_millis(20)), Ok(false));
}

#[test]
fn cloned_unparkers_report_one_first_notification() {
    let (p, u) = pair();
    let clones: Vec<_> = (0..8).map(|_| u.clone()).collect();
    for round in 0..3 {
        let firsts = clones.iter().filter(|c| c.unpark() == Ok(true)).count();
        assert_eq!(firsts, 1, "round {}", round);
        assert_eq!(p.park_timeout(Duration::from_millis(0)), Ok(true));
        assert_eq!(p.park_timeout(Duration::from_millis(0)), Ok(false));
    }
}

#[test]
fn park_deadline_in_the_past_polls() {
    let p = Parker::new();
    let past = Instant::now();
    assert_eq!(p.park_deadline(past), Ok(false));
    assert_eq!(p.unpark(), Ok(true));
    assert_eq!(p.park_deadline(past), Ok(true));
}

#[test]
fn park_deadline_times_out() {
    let p = Parker::default();
    let start = Instant::now();
    assert_eq!(p.park_deadline(start + Duration::from_millis(80)), Ok(false));
    assert!(start.elapsed() >= Duration::from_millis(80));
}

#[test]
fn unparker_of_parker_notifies_it() {
    let p = Parker::new();
    let u = p.unparker();
    let v = u.clone();
    assert_eq!(v.unpark(), Ok(true));
    assert_eq!(p.unpark(), Ok(false));
    assert_eq!(u.unpark(), Ok(false));
    assert_eq!(p.park_timeout(Duration::from_millis(10)), Ok(true));
    assert_eq!(p.park_timeout(Duration::from_millis(10)), Ok(false));
}

#[test]
fn separate_pairs_do_not_share_notifications() {
    let (p1, u1) = pair();
    let (p2, _u2) = pair();
    assert_eq!(u1.unpark(), Ok(true));
    assert_eq!(p2.park_timeout(Duration::from_millis(0)), Ok(false));
    assert_eq!(p1.park_timeout(Duration::from_millis(0)), Ok(true));
}

#[test]
fn words_and_states_correspond() {
    assert_eq!((EMPTY, PARKED, NOTIFIED), (0, 1, 2));
    for s in [ParkState::Empty, ParkState::Parked, ParkState::Notified] {
        assert_eq!(ParkState::from_word(s.to_word()), Some(s));
    }
    assert_eq!(ParkState::Notified.to_word(), 2);
    assert_eq!(ParkState::from_word(3), None);
    assert_eq!(ParkState::from_word(usize::MAX), None);
}

#[test]
fn unpark_decisions() {
    assert_eq!(decide_unpark(EMPTY), UnparkAction::NoWaiter);
    assert_eq!(decide_unpark(NOTIFIED), UnparkAction::AlreadyNotified);
    assert_eq!(decide_unpark(PARKED), UnparkAction::WakeWaiter);
    assert_eq!(decide_unpark(7), UnparkAction::Inconsistent);
}

#[test]
fn park_entry_decisions() {
    assert_eq!(decide_park_entry(Ok(NOTIFIED), false), Some(true));
    assert_eq!(decide_park_entry(Ok(NOTIFIED), true), Some(true));
    assert_eq!(decide_park_entry(Err(EMPTY), true), Some(false));
    assert_eq!(decide_park_entry(Err(EMPTY), false), None);
}

#[test]
fn registration_decisions() {
    assert_eq!(decide_registration(Ok(EMPTY)), Ok(Registration::Wait));
    assert_eq!(decide_registration(Err(NOTIFIED)), Ok(Registration::TakeRaced));
    assert_eq!(decide_registration(Err(PARKED)), Err(ParkError::Inconsistent(PARKED)));
    assert_eq!(decide_registration(Err(9)), Err(ParkError::Inconsistent(9)));
}

#[test]
fn raced_take_decisions() {
    assert_eq!(decide_raced_take(NOTIFIED), Ok(true));
    assert_eq!(decide_raced_take(EMPTY), Err(ParkError::Inconsistent(EMPTY)));
    assert_eq!(decide_raced_take(PARKED), Err(ParkError::Inconsistent(PARKED)));
}

#[test]
fn timed_wait_decisions() {
    assert_eq!(decide_timed_wait(NOTIFIED), Ok(true));
    assert_eq!(decide_timed_wait(PARKED), Ok(false));
    assert_eq!(decide_timed_wait(EMPTY), Err(ParkError::Inconsistent(EMPTY)));
    assert_eq!(decide_timed_wait(5), Err(ParkError::Inconsistent(5)));
}
