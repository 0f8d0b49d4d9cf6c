//! The parker, its unparker handles, and the cell that they share.

use std::cell::Cell;
use std::marker::PhantomData;
use std::sync::atomic::AtomicUsize;
use std::sync::atomic::Ordering::SeqCst;
use std::sync::{Arc, Condvar, Mutex, MutexGuard};
use std::time::{Duration, Instant};

use vstd::prelude::*;

use crate::state::{
    decide_park_entry, decide_raced_take, decide_registration, decide_timed_wait, decide_unpark,
    park_entry, registration, unpark_action, unpark_result, ParkError, ParkState, Registration,
    UnparkAction, EMPTY, NOTIFIED, PARKED,
};
use crate::sys::{lock, share, wait_timeout};

verus! {

/// Makes a parker and an unparker that notifies it.
pub fn pair() -> (r: (Parker, Unparker))
    ensures
        r.0.handle().same_cell(&r.1),
{
    let p = Parker::new();
    let u = p.unparker();
    (p, u)
}

/// Waits for a notification. Only the thread that holds it can park: it is not
/// shared between threads.
#[derive(Debug)]
pub struct Parker {
    unparker: Unparker,
    _marker: PhantomData<Cell<()>>,
}

impl Parker {
    /// The handle that the parker keeps to its own cell.
    pub closed spec fn handle(&self) -> Unparker {
        self.unparker
    }

    /// Makes a parker with a fresh cell and no pending notification.
    pub fn new() -> Parker {
        Parker {
            unparker: Unparker {
                inner: Arc::new(
                    Inner { state: AtomicUsize::new(EMPTY), lock: Mutex::new(()), cvar: Condvar::new() },
                ),
            },
            _marker: PhantomData,
        }
    }

    /// Blocks until notified and then goes back into the unnotified state.
    /// An error reports a word that only a second waiting thread could have
    /// left.
    pub fn park(&self) -> (r: Result<(), ParkError>)
        ensures
            r matches Err(ParkError::Inconsistent(w)) ==> w != NOTIFIED,
    {
        match self.unparker.inner.park(None) {
            Ok(_) => Ok(()),
            Err(e) => Err(e),
        }
    }

    /// Blocks until notified and then goes back into the unnotified state, or
    /// times out after `duration`. Returns `true` where it was notified before
    /// the timeout.
    pub fn park_timeout(&self, duration: Duration) -> (r: Result<bool, ParkError>)
        ensures
            r matches Err(ParkError::Inconsistent(w)) ==> w != NOTIFIED,
    {
        self.unparker.inner.park(Some(duration))
    }

    /// Blocks until notified and then goes back into the unnotified state, or
    /// times out at `instant`. Returns `true` where it was notified before the
    /// deadline.
    pub fn park_deadline(&self, instant: Instant) -> (r: Result<bool, ParkError>)
        ensures
            r matches Err(ParkError::Inconsistent(w)) ==> w != NOTIFIED,
    {
        let now = Instant::now();
        self.unparker.inner.park(Some(instant.saturating_duration_since(now)))
    }

    /// Notifies the parker. Returns `true` where this call is the first to
    /// notify it since its last notification was taken, `false` where it was
    /// notified already.
    pub fn unpark(&self) -> (r: Result<bool, ParkError>)
        ensures
            r matches Err(ParkError::Inconsistent(w)) ==> ParkState::of_word(w) is None,
    {
        self.unparker.unpark()
    }

    /// A handle for unparking this parker.
    pub fn unparker(&self) -> (r: Unparker)
        ensures
            self.handle().same_cell(&r),
    {
        Unparker { inner: share(&self.unparker.inner) }
    }
}

impl Default for Parker {
    fn default() -> Self {
        Parker::new()
    }
}

/// Notifies a parker. Handles are cheap to clone and can be used from any
/// thread.
#[derive(Debug)]
pub struct Unparker {
    inner: Arc<Inner>,
}

impl Unparker {
    /// Whether the two handles' cells are equal as values; a handle and its
    /// clones always are.
    pub closed spec fn same_cell(&self, other: &Unparker) -> bool {
        self.inner == other.inner
    }

    /// Notifies the parker. Returns `true` where this call is the first to
    /// notify it since its last notification was taken, `false` where it was
    /// notified already.
    pub fn unpark(&self) -> (r: Result<bool, ParkError>)
        ensures
            r matches Err(ParkError::Inconsistent(w)) ==> ParkState::of_word(w) is None,
    {
        self.inner.unpark()
    }
}

impl Clone for Unparker {
    /// A second handle to the same cell.
    fn clone(&self) -> (r: Self)
        ensures
            self.same_cell(&r),
    {
        Unparker { inner: share(&self.inner) }
    }
}

/// Handles to one cell are related as equals: each to itself, both ways, and
/// on through a third.
pub proof fn lemma_same_cell_is_equivalence(a: Unparker, b: Unparker, c: Unparker)
    ensures
        a.same_cell(&a),
        a.same_cell(&b) ==> b.same_cell(&a),
        a.same_cell(&b) && b.same_cell(&c) ==> a.same_cell(&c),
{
}

/// The cell shared by a parker and its unparkers.
#[derive(Debug)]
struct Inner {
    state: AtomicUsize,
    lock: Mutex<()>,
    cvar: Condvar,
}

impl Inner {
    /// Takes a pending notification, or waits for one for at most `timeout`.
    /// Returns whether a notification was taken; without a timeout it returns
    /// only once one was.
    fn park(&self, timeout: Option<Duration>) -> (r: Result<bool, ParkError>)
        ensures
            timeout is None ==> r != Ok::<bool, ParkError>(false),
            r matches Err(ParkError::Inconsistent(w)) ==> w != NOTIFIED,
    {
        let fast = self.state.compare_exchange(NOTIFIED, EMPTY, SeqCst, SeqCst);
        let zero_timeout = match timeout {
            Some(d) => d.is_zero(),
            None => false,
        };
        self.park_after_fast_path(fast, zero_timeout, timeout)
    }

    /// Goes on with a `park`, given what its lock-free exchange of `NOTIFIED`
    /// for `EMPTY` returned: a notification taken there, or a zero timeout,
    /// ends the call at once.
    fn park_after_fast_path(
        &self,
        fast: Result<usize, usize>,
        zero_timeout: bool,
        timeout: Option<Duration>,
    ) -> (r: Result<bool, ParkError>)
        requires
            zero_timeout ==> timeout is Some,
        ensures
            park_entry(fast, zero_timeout) matches Some(done) ==> r == Ok::<
                bool,
                ParkError,
            >(done),
            timeout is None ==> r != Ok::<bool, ParkError>(false),
            r matches Err(ParkError::Inconsistent(w)) ==> w != NOTIFIED,
    {
        if let Some(done) = decide_park_entry(fast, zero_timeout) {
            return Ok(done);
        }
        // Going to sleep is coordinated under the lock, so that an unparker
        // that sees `PARKED` cannot signal before this thread waits.
        let guard = match lock(&self.lock) {
            Some(guard) => guard,
            None => {
                return Err(ParkError::Poisoned);
            },
        };
        let observed = self.state.compare_exchange(EMPTY, PARKED, SeqCst, SeqCst);
        self.park_registered(guard, observed, timeout)
    }

    /// Goes on with a `park` under the lock, given what its exchange of
    /// `EMPTY` for `PARKED` returned.
    fn park_registered<'a>(
        &self,
        guard: MutexGuard<'a, ()>,
        observed: Result<usize, usize>,
        timeout: Option<Duration>,
    ) -> (r: Result<bool, ParkError>)
        ensures
            registration(observed) matches Err(e) ==> r == Err::<bool, ParkError>(e),
            registration(observed) == Ok::<Registration, ParkError>(
                Registration::TakeRaced,
            ) ==> r != Ok::<bool, ParkError>(false),
            timeout is None ==> r != Ok::<bool, ParkError>(false),
            r matches Err(ParkError::Inconsistent(w)) ==> w != NOTIFIED,
    {
        match decide_registration(observed) {
            Err(e) => Err(e),
            Ok(Registration::TakeRaced) => {
                // Take this notification now, so that the next park does not
                // return on it.
                let previous = self.state.swap(EMPTY, SeqCst);
                decide_raced_take(previous)
            },
            Ok(Registration::Wait) => match timeout {
                None => match wait_until_notified(&self.cvar, guard, self) {
                    Some(_guard) => Ok(true),
                    None => self.withdraw_poisoned(),
                },
                Some(d) => match wait_timeout(&self.cvar, guard, d) {
                    Some(_guard) => {
                        // However the wait ended, put the word back to
                        // `EMPTY`: this either takes a notification or
                        // withdraws the parked flag.
                        let previous = self.state.swap(EMPTY, SeqCst);
                        decide_timed_wait(previous)
                    },
                    None => self.withdraw_poisoned(),
                },
            },
        }
    }

    /// Ends a wait that the poisoned lock cut short: the word goes back to
    /// `EMPTY`, so that the cell is not left marked as parked, and the poison
    /// is reported.
    fn withdraw_poisoned(&self) -> (r: Result<bool, ParkError>)
        ensures
            r == Err::<bool, ParkError>(ParkError::Poisoned),
    {
        self.state.swap(EMPTY, SeqCst);
        Err(ParkError::Poisoned)
    }

    /// Takes a pending notification; returns whether the owner has to go on
    /// waiting because none was pending.
    pub(crate) fn keep_waiting(&self) -> bool {
        self.state.compare_exchange(NOTIFIED, EMPTY, SeqCst, SeqCst).is_err()
    }

    /// Notifies the owner, waking it where it waits.
    pub fn unpark(&self) -> (r: Result<bool, ParkError>)
        ensures
            r matches Err(ParkError::Inconsistent(w)) ==> ParkState::of_word(w) is None,
    {
        // The swap writes `NOTIFIED` even where it is there already: the write
        // is what lets the woken owner see what this thread wrote before.
        let previous = self.state.swap(NOTIFIED, SeqCst);
        self.unpark_after_swap(previous)
    }

    /// Finishes an `unpark`, given the word that its swap to `NOTIFIED`
    /// replaced: wakes the owner where it had parked.
    fn unpark_after_swap(&self, previous: usize) -> (r: Result<bool, ParkError>)
        ensures
            !(unpark_action(previous) is WakeWaiter) ==> r == unpark_result(previous),
            unpark_action(previous) is WakeWaiter ==> r == unpark_result(previous) || r
                == Err::<bool, ParkError>(ParkError::Poisoned),
    {
        match decide_unpark(previous) {
            UnparkAction::NoWaiter => Ok(true),
            UnparkAction::AlreadyNotified => Ok(false),
            UnparkAction::WakeWaiter => {
                // The owner holds the lock from setting `PARKED` until it
                // waits: taking the lock here makes sure the signal is not
                // lost in between. A poisoned lock is still waited for, and
                // the owner is still woken, but the poison is reported.
                let locked = lock(&self.lock).is_some();
                self.cvar.notify_one();
                if locked {
                    Ok(true)
                } else {
                    Err(ParkError::Poisoned)
                }
            },
            UnparkAction::Inconsistent => Err(ParkError::Inconsistent(previous)),
        }
    }
}

/// Relies on `Condvar::wait_while`: asks the cell whether to go on waiting,
/// first under the lock it is handed and then each time it is woken and has
/// taken the lock again, and in between releases the lock and blocks; it
/// returns, holding the lock, once the cell has taken a notification. `None`
/// where the lock was found poisoned, which ends the wait early.
#[verifier::external_body]
fn wait_until_notified<'a>(cvar: &Condvar, guard: MutexGuard<'a, ()>, inner: &Inner) -> Option<
    MutexGuard<'a, ()>,
> {
    cvar.wait_while(guard, |_| inner.keep_waiting()).ok()
}

} // verus!
