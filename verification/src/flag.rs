//! The flag: an atomic boolean and the notifier that announces its changes.
//!
//! Every writer makes one atomic step on the cell and then, if the step calls
//! for it, one broadcast. Every reader sees whatever the cell holds at that
//! moment. A wait never blocks in here: [`AwaitableBool::wait`] and
//! [`AwaitableBool::wait_step`] hand out a listener, and awaiting it is left
//! to the task.
use core::sync::atomic::{AtomicBool, Ordering};
use tokio::sync::futures::Notified;
use tokio::sync::Notify;
use vstd::prelude::*;
use vstd::std_specs::convert::{FromSpecImpl, IntoSpec};

use crate::sync::compare_exchange;
use crate::transition::{reads_as, set_transition, toggle_transition, Transition};
use crate::waiting::WaitStep;

verus! {

/// A bool whose value changes can be waited on.
///
/// All methods take `&self`; share a flag between tasks by placing it in an
/// `Arc`. The type is deliberately not `Clone`: a copy would have a notifier
/// of its own, and its waiters would never hear of a change made to the flag
/// it was copied from.
#[derive(Debug)]
pub struct AwaitableBool {
    value: AtomicBool,
    notifier: Notify,
}

impl AwaitableBool {
    /// The atomic cell that holds the value. This is the cell's identity, not
    /// its content: the content can change under a shared reference.
    pub closed spec fn cell(self) -> AtomicBool {
        self.value
    }

    /// Creates a flag from a `bool`, or around an existing `AtomicBool`. The
    /// notifier is fresh: it has no waiters and no wake-up pending.
    pub fn new<T: Into<AtomicBool>>(value: T) -> (flag: Self)
        ensures
            T::obeys_into_spec() ==> flag.cell() == value.into_spec(),
    {
        AwaitableBool::from(value)
    }

    /// Sets the value to `target` with one compare-and-swap and wakes the
    /// waiters if that changed it.
    fn set(&self, target: bool) -> (step: Transition)
        ensures
            step == set_transition(target, step.previous),
    {
        let swapped = compare_exchange(&self.value, !target, target);
        let step = Transition::from_swap(target, swapped);
        if step.notified {
            self.notifier.notify_waiters();
        }
        step
    }

    /// Sets the flag to `true` (releasing), and wakes every waiter if it was
    /// `false`. A flag that is already `true` is left alone and nobody is
    /// woken.
    ///
    /// Returns the step as this call made it. Where several tasks race to set
    /// the flag, only the one that finds it `false` reports a change.
    pub fn set_true(&self) -> (step: Transition)
        ensures
            step == set_transition(true, step.previous),
    {
        self.set(true)
    }

    /// Sets the flag to `false` (releasing), and wakes every waiter if it was
    /// `true`. A flag that is already `false` is left alone and nobody is
    /// woken.
    pub fn set_false(&self) -> (step: Transition)
        ensures
            step == set_transition(false, step.previous),
    {
        self.set(false)
    }

    /// Inverts the flag (releasing) and wakes every waiter, whatever the
    /// value was. Two toggles that race still wake the waiters twice, though
    /// the flag ends where it began: a waiter reads the value again after
    /// every wake-up and takes no wake-up for a particular change.
    pub fn toggle(&self) -> (step: Transition)
        ensures
            step == toggle_transition(step.previous),
    {
        let previous = self.value.fetch_xor(true, Ordering::Release);
        self.notifier.notify_waiters();
        Transition::from_toggle(previous)
    }

    /// Reads the current value (acquiring). Never blocks.
    pub fn load(&self) -> bool {
        self.value.load(Ordering::Acquire)
    }

    /// Whether the value is currently `true`.
    pub fn is_true(&self) -> bool {
        reads_as(true, self.load())
    }

    /// Whether the value is currently `false`.
    pub fn is_false(&self) -> bool {
        reads_as(false, self.load())
    }

    /// Returns a listener that completes at the next wake-up after this
    /// call. Await it to wait for the value to change; the listener does not
    /// say what to, so `load` afterwards.
    ///
    /// A wake-up that came before the call is not kept for it.
    pub fn wait(&self) -> Notified<'_> {
        self.notifier.notified()
    }

    /// Makes one round of waiting for `target`: takes a listener, then reads
    /// the value, and lets [`WaitStep::decide`] say whether the wait is over.
    ///
    /// The listener is taken before the value is read, so a change that
    /// lands between the read and the suspension still wakes the waiter.
    pub fn wait_step(&self, target: bool) -> WaitStep<'_> {
        let listener = self.wait();
        let observed = self.load();
        WaitStep::decide(target, observed, listener)
    }

    /// Consumes the flag and returns its atomic cell; the notifier is dropped.
    pub fn into_inner(self) -> (cell: AtomicBool)
        ensures
            cell == self.cell(),
    {
        self.value
    }
}

impl<T: Into<AtomicBool>> From<T> for AwaitableBool {
    /// Builds a flag around whatever converts into an `AtomicBool`, with a
    /// notifier that has no waiters yet.
    fn from(value: T) -> (flag: Self)
        ensures
            T::obeys_into_spec() ==> flag.cell() == value.into_spec(),
    {
        AwaitableBool { value: value.into(), notifier: Notify::new() }
    }
}

impl<T: Into<AtomicBool>> FromSpecImpl<T> for AwaitableBool {
    /// A flag is more than the value it is built from: each one gets a
    /// notifier of its own, so no function of the argument gives the result.
    open spec fn obeys_from_spec() -> bool {
        false
    }

    open spec fn from_spec(v: T) -> Self {
        arbitrary()
    }
}

impl Default for AwaitableBool {
    /// A flag that starts at `false`.
    fn default() -> Self {
        AwaitableBool::new(false)
    }
}

} // verus!
