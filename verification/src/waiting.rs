//! One round of a conditional wait.
//!
//! A waiter for a value first takes a listener, then reads the flag, and
//! suspends on the listener only if the value read is not the one it waits
//! for. Taking the listener first closes the window in which a change could
//! slip in between the read and the suspension; reading again after every
//! wake-up makes a broadcast for the other value harmless.
use tokio::sync::futures::Notified;
use vstd::prelude::*;

verus! {

/// What a waiter does after one round.
pub enum WaitStep<'a> {
    /// The value read was the one waited for: return.
    Ready,
    /// The value read was the other one: await the listener, then make
    /// another round.
    Pending(Notified<'a>),
}

impl<'a> WaitStep<'a> {
    /// Decides a round of waiting for `target` in which `observed` was read
    /// after `listener` was taken: the waiter is done exactly when the two
    /// values agree, and otherwise suspends on that very listener.
    pub fn decide(target: bool, observed: bool, listener: Notified<'a>) -> (step: WaitStep<'a>)
        ensures
            observed == target ==> step == WaitStep::<'a>::Ready,
            observed != target ==> step == WaitStep::Pending(listener),
    {
        if observed == target {
            WaitStep::Ready
        } else {
            WaitStep::Pending(listener)
        }
    }
}

} // verus!
