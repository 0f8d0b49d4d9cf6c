//! What the decisions of `park` and `unpark` add up to when their operations on
//! the shared word come one after another, as the word's atomic operations make
//! them come.

use vstd::prelude::*;

use crate::state::{
    park_entry, raced_take_outcome, registration, timed_wait_outcome, unpark_action,
    unpark_result, ParkError, ParkState, Registration, UnparkAction,
};

verus! {

/// A swap that writes `new` into a word in state `s`: the state it leaves, and
/// the word it returns, which is the one it replaced.
pub open spec fn swap_word(s: ParkState, new: ParkState) -> (ParkState, usize) {
    (new, s.word())
}

/// A compare-exchange of `current` for `new` on a word in state `s`: the state
/// it leaves, and what it returns, `Ok` with the word where it matched and
/// `Err` with the word where it did not.
pub open spec fn exchange_word(s: ParkState, current: ParkState, new: ParkState) -> (
    ParkState,
    Result<usize, usize>,
) {
    if s == current {
        (new, Ok(s.word()))
    } else {
        (s, Err(s.word()))
    }
}

/// One `unpark` on a word in state `s`: the state it leaves and what it
/// returns.
pub open spec fn unpark_step(s: ParkState) -> (ParkState, Result<bool, ParkError>) {
    let (next, previous) = swap_word(s, ParkState::Notified);
    (next, unpark_result(previous))
}

/// The lock-free start of a `park` on a word in state `s`: the state it leaves
/// and what the call returns at once, `None` where it blocks.
pub open spec fn park_start(s: ParkState, zero_timeout: bool) -> (ParkState, Option<bool>) {
    let (next, fast) = exchange_word(s, ParkState::Notified, ParkState::Empty);
    (next, park_entry(fast, zero_timeout))
}

/// The step of a `park` under the lock that declares the owner parked: the
/// state it leaves and how the call goes on.
pub open spec fn park_register(s: ParkState) -> (ParkState, Result<Registration, ParkError>) {
    let (next, observed) = exchange_word(s, ParkState::Empty, ParkState::Parked);
    (next, registration(observed))
}

/// The swap of a `park` that takes a notification that raced in: the state it
/// leaves and what the call returns.
pub open spec fn raced_take(s: ParkState) -> (ParkState, Result<bool, ParkError>) {
    let (next, previous) = swap_word(s, ParkState::Empty);
    (next, raced_take_outcome(previous))
}

/// The check that a waiting owner makes on each wake: the state it leaves and
/// whether the owner goes on waiting.
pub open spec fn wait_check(s: ParkState) -> (ParkState, bool) {
    let (next, observed) = exchange_word(s, ParkState::Notified, ParkState::Empty);
    (next, observed is Err)
}

/// The closing swap of a timed `park`: the state it leaves and what the call
/// returns.
pub open spec fn timed_close(s: ParkState) -> (ParkState, Result<bool, ParkError>) {
    let (next, previous) = swap_word(s, ParkState::Empty);
    (next, timed_wait_outcome(previous))
}

/// `n` calls of `unpark`, through any handles, one after another from state
/// `s`: the state they leave, how many returned `true`, and how many woke the
/// owner.
pub open spec fn unpark_run(s: ParkState, n: nat) -> (ParkState, nat, nat)
    decreases n,
{
    if n == 0 {
        (s, 0, 0)
    } else {
        let (before, firsts, wakes) = unpark_run(s, (n - 1) as nat);
        let (after, result) = unpark_step(before);
        (
            after,
            firsts + if result == Ok::<bool, ParkError>(true) {
                1nat
            } else {
                0nat
            },
            wakes + if unpark_action(before.word()) is WakeWaiter {
                1nat
            } else {
                0nat
            },
        )
    }
}

/// An `unpark` before a `park` leaves a notification that the `park` takes on
/// its lock-free start, whatever its timeout: it returns `true` at once, and
/// the word is empty again.
pub proof fn lemma_unpark_then_park_returns_at_once(s: ParkState, zero_timeout: bool)
    ensures
        unpark_step(s).0 == ParkState::Notified,
        park_start(unpark_step(s).0, zero_timeout) == (ParkState::Empty, Some(true)),
{
}

/// Two `unpark` calls in a row coalesce: the first returns `true` exactly
/// where no notification was pending, the second returns `false`, one
/// notification is left, and one `park` takes it, after which none is left for
/// a second `park`.
pub proof fn lemma_unparks_coalesce(s: ParkState, zero_timeout: bool)
    ensures
        unpark_step(s).1 == Ok::<bool, ParkError>(s != ParkState::Notified),
        unpark_step(unpark_step(s).0).1 == Ok::<bool, ParkError>(false),
        unpark_step(unpark_step(s).0).0 == ParkState::Notified,
        park_start(unpark_step(unpark_step(s).0).0, zero_timeout) == (
            ParkState::Empty,
            Some(true),
        ),
        park_start(ParkState::Empty, zero_timeout).1 != Some(true),
{
}

/// A `park` that finds no notification declares itself parked and then goes
/// on waiting across any wake until an `unpark` comes; that `unpark` wakes it
/// and returns `true`, and the owner's next check takes the notification and
/// leaves the word empty.
pub proof fn lemma_parked_owner_wakes_on_unpark()
    ensures
        park_start(ParkState::Empty, false) == (ParkState::Empty, None::<bool>),
        park_register(ParkState::Empty) == (
            ParkState::Parked,
            Ok::<Registration, ParkError>(Registration::Wait),
        ),
        wait_check(ParkState::Parked) == (ParkState::Parked, true),
        unpark_action(ParkState::Parked.word()) == UnparkAction::WakeWaiter,
        unpark_step(ParkState::Parked) == (
            ParkState::Notified,
            Ok::<bool, ParkError>(true),
        ),
        wait_check(ParkState::Notified) == (ParkState::Empty, false),
{
}

/// A timed `park` with no `unpark` blocks, and when its time is up it returns
/// `false` and leaves the word empty.
pub proof fn lemma_timeout_without_unpark()
    ensures
        park_start(ParkState::Empty, false) == (ParkState::Empty, None::<bool>),
        park_register(ParkState::Empty) == (
            ParkState::Parked,
            Ok::<Registration, ParkError>(Registration::Wait),
        ),
        timed_close(ParkState::Parked) == (ParkState::Empty, Ok::<bool, ParkError>(false)),
{
}

/// A timed `park` that races with `n` calls of `unpark` ends with the word
/// empty, and returns `true` exactly where one of them came first: whether
/// they come between its lock-free start and its registration, or while it
/// waits.
pub proof fn lemma_timeout_race(n: nat)
    ensures
        n > 0 ==> park_register(unpark_run(ParkState::Empty, n).0) == (
            ParkState::Notified,
            Ok::<Registration, ParkError>(Registration::TakeRaced),
        ),
        n > 0 ==> raced_take(unpark_run(ParkState::Empty, n).0) == (
            ParkState::Empty,
            Ok::<bool, ParkError>(true),
        ),
        timed_close(unpark_run(ParkState::Parked, n).0) == (
            ParkState::Empty,
            Ok::<bool, ParkError>(n > 0),
        ),
{
    lemma_unpark_run(ParkState::Empty, n);
    lemma_unpark_run(ParkState::Parked, n);
}

/// A `park` with a zero timeout never blocks: with nothing pending it returns
/// `false` and leaves the word as it was, and with a notification pending it
/// takes it and returns `true`.
pub proof fn lemma_zero_timeout_polls()
    ensures
        park_start(ParkState::Empty, true) == (ParkState::Empty, Some(false)),
        park_start(ParkState::Notified, true) == (ParkState::Empty, Some(true)),
{
}

/// Any number of `unpark` calls, through any number of handles, one after
/// another: they leave one pending notification, exactly one of them returns
/// `true` unless one was pending already, and only one wakes
/// the owner, and only where it was parked.
pub proof fn lemma_unpark_run(s: ParkState, n: nat)
    ensures
        n > 0 ==> unpark_run(s, n).0 == ParkState::Notified,
        n > 0 ==> unpark_run(s, n).1 == if s == ParkState::Notified {
            0nat
        } else {
            1nat
        },
        n > 0 ==> unpark_run(s, n).2 == if s == ParkState::Parked {
            1nat
        } else {
            0nat
        },
        n == 0 ==> unpark_run(s, n) == (s, 0nat, 0nat),
    decreases n,
{
    if n > 0 {
        lemma_unpark_run(s, (n - 1) as nat);
        assert(unpark_run(s, 0) == (s, 0nat, 0nat));
    }
}

} // verus!
