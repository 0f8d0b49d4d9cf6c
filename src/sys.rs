//! The parts of std that the parker is built on: the mutex and condition
//! variable of the slow path, the shared pointer to the cell, and clock values.
//! Each item here names the std function it relies on.

use std::cell::Cell;
use std::sync::{Arc, Condvar, Mutex, MutexGuard};
use std::time::{Duration, Instant};

use vstd::prelude::*;

verus! {

/// `std::sync::Mutex`, carried opaque: the lock of the slow path.
#[verifier::external_type_specification]
#[verifier::external_body]
#[verifier::reject_recursive_types(T)]
pub struct ExMutex<T: ?Sized>(Mutex<T>);

/// `std::sync::MutexGuard`, carried opaque: the lock held until it is dropped.
#[verifier::external_type_specification]
#[verifier::external_body]
#[verifier::reject_recursive_types(T)]
pub struct ExMutexGuard<'a, T: ?Sized + 'a>(MutexGuard<'a, T>);

/// `std::sync::Condvar`, carried opaque: where the owner waits.
#[verifier::external_type_specification]
#[verifier::external_body]
pub struct ExCondvar(Condvar);

/// `std::time::Instant`, carried opaque: a deadline.
#[verifier::external_type_specification]
#[verifier::external_body]
pub struct ExInstant(Instant);

/// `std::cell::Cell`, only named in a marker that keeps a parker to one thread.
#[verifier::external_type_specification]
#[verifier::external_body]
#[verifier::reject_recursive_types(T)]
pub struct ExCell<T: ?Sized>(Cell<T>);

/// Relies on `Mutex::new`: an unlocked mutex around the value.
pub assume_specification<T>[ Mutex::<T>::new ](t: T) -> Mutex<T>;

/// Relies on `Condvar::new`: a condition variable that nobody waits on.
pub assume_specification[ Condvar::new ]() -> Condvar;

/// Relies on `Condvar::notify_one`: wakes one thread blocked on it, if any.
pub assume_specification[ Condvar::notify_one ](cvar: &Condvar);

/// Relies on `Instant::now`: the current time of the monotonic clock.
pub assume_specification[ Instant::now ]() -> Instant;

/// Relies on `Instant::saturating_duration_since`: the time from `earlier` to
/// `self`, or zero where `earlier` is the later one.
pub assume_specification[ Instant::saturating_duration_since ](
    instant: &Instant,
    earlier: Instant,
) -> Duration;

/// Relies on `Duration::is_zero`: whether the duration spans no time.
pub assume_specification[ Duration::is_zero ](d: &Duration) -> bool;

/// Relies on `Mutex::lock`: blocks until the calling thread holds the lock.
/// `None` where the lock was poisoned (the guard std hands back with the
/// poison is dropped, which releases the lock again). Every caller holds no
/// guard of this lock when it calls.
#[verifier::external_body]
pub(crate) fn lock<'a>(m: &'a Mutex<()>) -> Option<MutexGuard<'a, ()>> {
    m.lock().ok()
}

/// Relies on `Condvar::wait_timeout`: releases the lock, blocks until woken or
/// until `timeout` has passed, and takes the lock again. `None` where the lock
/// was found poisoned.
#[verifier::external_body]
pub(crate) fn wait_timeout<'a>(cvar: &Condvar, guard: MutexGuard<'a, ()>, timeout: Duration) -> Option<
    MutexGuard<'a, ()>,
> {
    cvar.wait_timeout(guard, timeout).ok().map(|(g, _)| g)
}

/// Relies on `Arc::clone`: a second pointer to the same value.
#[verifier::external_body]
pub(crate) fn share<T>(a: &Arc<T>) -> (r: Arc<T>)
    ensures
        r == *a,
{
    Arc::clone(a)
}

} // verus!
