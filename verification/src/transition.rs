//! The two-state machine of a flag: what one atomic step does to the value,
//! and whether it wakes the waiters.
//!
//! A flag is `true` or `false`, and each writer moves it with a single
//! indivisible step. A [`Transition`] records such a step from the inside: the
//! value it found, the value it left, and whether it broadcast. The laws at
//! the end of this file compose steps by feeding the value one step left to
//! the next as the value it finds, which is how steps follow each other on a
//! flag that no other task writes to in between.
use vstd::prelude::*;

verus! {

/// One atomic step on a flag, as the task that made it saw it.
#[derive(Clone, Copy, Debug, PartialEq, Eq, Structural)]
pub struct Transition {
    /// The value the step found.
    pub previous: bool,
    /// The value the step left.
    pub current: bool,
    /// Whether the step woke the waiters.
    pub notified: bool,
}

/// The step that sets a flag holding `previous` to `target`: the flag ends at
/// `target`, and the waiters are woken exactly when that changed the value.
pub open spec fn set_transition(target: bool, previous: bool) -> Transition {
    Transition { previous, current: target, notified: previous != target }
}

/// The step that inverts a flag holding `previous`: the value flips, and the
/// waiters are woken whatever it was.
pub open spec fn toggle_transition(previous: bool) -> Transition {
    Transition { previous, current: !previous, notified: true }
}

/// What a compare-and-swap that expects `current` may return: the value it
/// found, as `Ok` when that was `current` and as `Err` when it was not.
pub open spec fn is_swap_result(current: bool, swapped: Result<bool, bool>) -> bool {
    match swapped {
        Ok(previous) => previous == current,
        Err(previous) => previous != current,
    }
}

/// The value that a compare-and-swap found, whichever way it went.
pub open spec fn found(swapped: Result<bool, bool>) -> bool {
    match swapped {
        Ok(previous) => previous,
        Err(previous) => previous,
    }
}

/// The step read off the result of a compare-and-swap towards `target`: a
/// swap that took place wrote `target` and wakes the waiters, one that did
/// not left the value it found and wakes nobody.
pub open spec fn swap_transition(target: bool, swapped: Result<bool, bool>) -> Transition {
    match swapped {
        Ok(previous) => Transition { previous, current: target, notified: true },
        Err(previous) => Transition { previous, current: previous, notified: false },
    }
}

/// Whether a flag whose value was read as `observed` is at `target`.
pub open spec fn is_at(target: bool, observed: bool) -> bool {
    observed == target
}

/// Answers, for a value that was just read from a flag, whether the flag is
/// at `target`. Both predicates of a flag are this question, asked of one
/// read: for `true` the answer is the value read, for `false` its negation.
pub fn reads_as(target: bool, observed: bool) -> (at: bool)
    ensures
        at == is_at(target, observed),
{
    observed == target
}

impl Transition {
    /// Whether the step left another value than it found.
    pub open spec fn changed(self) -> bool {
        self.previous != self.current
    }

    /// Whether the step is one that a flag can make: a set to either value,
    /// or a toggle.
    pub open spec fn is_step(self) -> bool {
        ||| self == set_transition(true, self.previous)
        ||| self == set_transition(false, self.previous)
        ||| self == toggle_transition(self.previous)
    }

    /// Reads the step off the result of a compare-and-swap towards `target`.
    pub fn from_swap(target: bool, swapped: Result<bool, bool>) -> (step: Transition)
        ensures
            step == swap_transition(target, swapped),
            is_swap_result(!target, swapped) ==> step == set_transition(target, found(swapped)),
    {
        match swapped {
            Ok(previous) => Transition { previous, current: target, notified: true },
            Err(previous) => Transition { previous, current: previous, notified: false },
        }
    }

    /// The step of a toggle that found `previous`.
    pub fn from_toggle(previous: bool) -> (step: Transition)
        ensures
            step == toggle_transition(previous),
    {
        Transition { previous, current: !previous, notified: true }
    }
}

/// Of one and the same value read, "is true" reports that value and "is
/// false" its negation, so exactly one of the two holds.
pub proof fn lemma_true_and_false_are_complementary(observed: bool)
    ensures
        is_at(true, observed) == observed,
        is_at(false, observed) == !observed,
        is_at(true, observed) != is_at(false, observed),
{
}

/// Setting a flag leaves it at the target, whatever it held.
pub proof fn lemma_set_reaches_target(target: bool, previous: bool)
    ensures
        set_transition(target, previous).current == target,
{
}

/// Setting is idempotent: a second set to the same target, made on the value
/// that the first one left, finds the target, leaves it and wakes nobody.
pub proof fn lemma_set_is_idempotent(target: bool, previous: bool)
    ensures
        set_transition(target, set_transition(target, previous).current) == (Transition {
            previous: target,
            current: target,
            notified: false,
        }),
{
}

/// A toggle flips the value once, so two toggles, the second made on the
/// value that the first one left, end at the value the first one found; both
/// wake the waiters.
pub proof fn lemma_toggle_twice_restores(previous: bool)
    ensures
        toggle_transition(previous).current != previous,
        toggle_transition(toggle_transition(previous).current).current == previous,
        toggle_transition(previous).notified,
        toggle_transition(toggle_transition(previous).current).notified,
{
}

/// A step wakes the waiters exactly when it changes the value: no change
/// goes unannounced, and nobody is woken for a value that stayed. A toggle
/// always does both.
pub proof fn lemma_notified_iff_changed(step: Transition)
    requires
        step.is_step(),
    ensures
        step.notified <==> step.changed(),
        step == toggle_transition(step.previous) ==> step.changed(),
{
}

} // verus!
