//! The two primitives under a flag, as far as the library relies on them: the
//! atomic boolean of the standard library and tokio's `Notify`.
//!
//! Nothing in this file is proved: these are the statements that the rest
//! of the library takes on trust. None of them speaks of the value that a
//! read returns, which any other task may have written. (Loads and
//! `fetch_xor` on the atomic need no entry here; they are called as they are
//! and likewise promise nothing about what comes back.)
use core::sync::atomic::{AtomicBool, Ordering};
use tokio::sync::futures::Notified;
use tokio::sync::Notify;
use vstd::prelude::*;

use crate::transition::is_swap_result;

verus! {

/// `tokio::sync::Notify`, opaque to the verifier.
#[verifier::external_type_specification]
#[verifier::external_body]
pub struct ExNotify(Notify);

/// `tokio::sync::futures::Notified`, the future that completes at the next
/// broadcast after it was created; opaque to the verifier.
#[verifier::external_type_specification]
#[verifier::external_body]
pub struct ExNotified<'a>(Notified<'a>);

/// `Notify::new` returns a notifier; nothing is claimed of it.
pub assume_specification[ Notify::new ]() -> Notify;

/// `Notify::notified` returns a listener; nothing is claimed of it.
pub assume_specification<'a>[ Notify::notified ](notify: &'a Notify) -> Notified<'a>;

/// `Notify::notify_waiters` returns; nothing is claimed of whom it woke.
pub assume_specification[ Notify::notify_waiters ](notify: &Notify);

/// `AtomicBool::compare_exchange`, releasing on success and relaxed on
/// failure (an ordering pair it accepts without panicking).
///
/// The contract claims what the method's documentation says of its result:
/// it holds the value that was found, as `Ok` only when that was `current`
/// and as `Err` only when it was not (unlike the weak variant, this one does
/// not fail on a value that matches). Which of the two comes back is not
/// claimed: that depends on what other tasks wrote.
#[verifier::external_body]
pub(crate) fn compare_exchange(cell: &AtomicBool, current: bool, new: bool) -> (swapped: Result<bool, bool>)
    ensures
        is_swap_result(current, swapped),
{
    cell.compare_exchange(current, new, Ordering::Release, Ordering::Relaxed)
}

} // verus!
