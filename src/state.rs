//! The state word shared by a parker and its unparkers, and the decisions that
//! `park` and `unpark` take on the values they read from it.

use vstd::prelude::*;

verus! {

/// No notification is pending and nobody waits.
pub const EMPTY: usize = 0;

/// The owner of the parker is about to wait, or waits, and no notification has
/// arrived since.
pub const PARKED: usize = 1;

/// A notification is pending; the next `park` takes it.
pub const NOTIFIED: usize = 2;

/// The three states of the shared word.
#[derive(Clone, Copy, Debug, PartialEq, Eq, Structural)]
pub enum ParkState {
    Empty,
    Parked,
    Notified,
}

impl ParkState {
    /// The word that stands for this state.
    pub open spec fn word(self) -> usize {
        match self {
            ParkState::Empty => EMPTY,
            ParkState::Parked => PARKED,
            ParkState::Notified => NOTIFIED,
        }
    }

    /// The state a word stands for; `None` for a word that no operation writes.
    pub open spec fn of_word(w: usize) -> Option<ParkState> {
        if w == EMPTY {
            Some(ParkState::Empty)
        } else if w == PARKED {
            Some(ParkState::Parked)
        } else if w == NOTIFIED {
            Some(ParkState::Notified)
        } else {
            None
        }
    }

    /// The word that stands for this state.
    pub fn to_word(self) -> (r: usize)
        ensures
            r == self.word(),
            ParkState::of_word(r) == Some(self),
    {
        match self {
            ParkState::Empty => EMPTY,
            ParkState::Parked => PARKED,
            ParkState::Notified => NOTIFIED,
        }
    }

    /// The state a word stands for.
    pub fn from_word(w: usize) -> (r: Option<ParkState>)
        ensures
            r == ParkState::of_word(w),
            r matches Some(s) ==> s.word() == w,
    {
        if w == EMPTY {
            Some(ParkState::Empty)
        } else if w == PARKED {
            Some(ParkState::Parked)
        } else if w == NOTIFIED {
            Some(ParkState::Notified)
        } else {
            None
        }
    }
}

/// Why a `park` or `unpark` could not finish.
#[derive(Clone, Copy, Debug, PartialEq, Eq, Structural)]
pub enum ParkError {
    /// The word read is one that the calls of a single waiter never leave
    /// there: the cell was used against its rules, for instance by two threads
    /// parking at once.
    Inconsistent(usize),
    /// The cell's lock was poisoned: a thread panicked while holding it.
    Poisoned,
}

/// What `unpark` does after swapping `NOTIFIED` into the word, by the word
/// it replaced.
#[derive(Clone, Copy, Debug, PartialEq, Eq, Structural)]
pub enum UnparkAction {
    /// The word was empty: this call made the first pending notification.
    NoWaiter,
    /// A notification was already pending: this call adds nothing.
    AlreadyNotified,
    /// The owner had parked: wake it, and report the first notification.
    WakeWaiter,
    /// The word held no state this library writes.
    Inconsistent,
}

/// The action that `unpark` takes on the word it replaced.
pub open spec fn unpark_action(previous: usize) -> UnparkAction {
    match ParkState::of_word(previous) {
        Some(ParkState::Empty) => UnparkAction::NoWaiter,
        Some(ParkState::Notified) => UnparkAction::AlreadyNotified,
        Some(ParkState::Parked) => UnparkAction::WakeWaiter,
        None => UnparkAction::Inconsistent,
    }
}

/// What `unpark` returns, by the word that its swap replaced: `true` where no
/// notification was pending, `false` where one was, and an error for a word
/// that stands for no state.
pub open spec fn unpark_result(previous: usize) -> Result<bool, ParkError> {
    match unpark_action(previous) {
        UnparkAction::NoWaiter => Ok(true),
        UnparkAction::WakeWaiter => Ok(true),
        UnparkAction::AlreadyNotified => Ok(false),
        UnparkAction::Inconsistent => Err(ParkError::Inconsistent(previous)),
    }
}

/// Decides what `unpark` does, given the word that its swap to `NOTIFIED`
/// replaced.
pub fn decide_unpark(previous: usize) -> (r: UnparkAction)
    ensures
        r == unpark_action(previous),
{
    match ParkState::from_word(previous) {
        Some(ParkState::Empty) => UnparkAction::NoWaiter,
        Some(ParkState::Notified) => UnparkAction::AlreadyNotified,
        Some(ParkState::Parked) => UnparkAction::WakeWaiter,
        None => UnparkAction::Inconsistent,
    }
}

/// What a `park` call returns at once, given the outcome of its lock-free
/// exchange of `NOTIFIED` for `EMPTY` and whether its timeout is zero: `true`
/// where it took a notification, `false` where nothing was pending and the
/// timeout is zero, `None` where it has to block.
pub open spec fn park_entry(fast: Result<usize, usize>, zero_timeout: bool) -> Option<bool> {
    if fast is Ok {
        Some(true)
    } else if zero_timeout {
        Some(false)
    } else {
        None
    }
}

/// Decides what a `park` call returns after its lock-free attempt, or that it
/// blocks.
pub fn decide_park_entry(fast: Result<usize, usize>, zero_timeout: bool) -> (r: Option<bool>)
    ensures
        r == park_entry(fast, zero_timeout),
{
    match fast {
        Ok(_) => Some(true),
        Err(_) => if zero_timeout {
            Some(false)
        } else {
            None
        },
    }
}

/// How a `park` call goes on, under the lock, after trying to exchange
/// `EMPTY` for `PARKED`.
#[derive(Clone, Copy, Debug, PartialEq, Eq, Structural)]
pub enum Registration {
    /// The word now says that the owner waits: go and wait.
    Wait,
    /// A notification came in after the lock-free attempt: take it without
    /// waiting.
    TakeRaced,
}

/// The way a `park` call goes on after its exchange of `EMPTY` for `PARKED`;
/// an error where the word was neither `EMPTY` nor `NOTIFIED`, which only a
/// second waiter could have left.
pub open spec fn registration(observed: Result<usize, usize>) -> Result<
    Registration,
    ParkError,
> {
    match observed {
        Ok(_) => Ok(Registration::Wait),
        Err(w) => if w == NOTIFIED {
            Ok(Registration::TakeRaced)
        } else {
            Err(ParkError::Inconsistent(w))
        },
    }
}

/// Decides how a `park` call goes on after its exchange of `EMPTY` for
/// `PARKED`.
pub fn decide_registration(observed: Result<usize, usize>) -> (r: Result<
    Registration,
    ParkError,
>)
    ensures
        r == registration(observed),
{
    match observed {
        Ok(_) => Ok(Registration::Wait),
        Err(w) => if w == NOTIFIED {
            Ok(Registration::TakeRaced)
        } else {
            Err(ParkError::Inconsistent(w))
        },
    }
}

/// What a `park` returns after taking a notification that raced in, by the
/// word that its swap to `EMPTY` replaced: `true` for the notification, an
/// error for any other word.
pub open spec fn raced_take_outcome(previous: usize) -> Result<bool, ParkError> {
    if previous == NOTIFIED {
        Ok(true)
    } else {
        Err(ParkError::Inconsistent(previous))
    }
}

/// Decides what a `park` returns after taking a notification that raced in.
pub fn decide_raced_take(previous: usize) -> (r: Result<bool, ParkError>)
    ensures
        r == raced_take_outcome(previous),
{
    if previous == NOTIFIED {
        Ok(true)
    } else {
        Err(ParkError::Inconsistent(previous))
    }
}

/// What a timed `park` returns, by the word that its closing swap to `EMPTY`
/// replaced: `true` for a notification, `false` where the owner was still
/// parked, an error for any other word.
pub open spec fn timed_wait_outcome(previous: usize) -> Result<bool, ParkError> {
    match ParkState::of_word(previous) {
        Some(ParkState::Notified) => Ok(true),
        Some(ParkState::Parked) => Ok(false),
        _ => Err(ParkError::Inconsistent(previous)),
    }
}

/// Decides what a timed `park` returns once its wait has ended, given the
/// word that its swap to `EMPTY` replaced.
pub fn decide_timed_wait(previous: usize) -> (r: Result<bool, ParkError>)
    ensures
        r == timed_wait_outcome(previous),
{
    match ParkState::from_word(previous) {
        Some(ParkState::Notified) => Ok(true),
        Some(ParkState::Parked) => Ok(false),
        _ => Err(ParkError::Inconsistent(previous)),
    }
}

} // verus!
