//! A boolean flag whose changes can be awaited.
//!
//! [`AwaitableBool`] pairs an atomic boolean with a broadcast notifier. Every
//! operation takes a shared reference, so one flag can be handed to any number
//! of tasks behind an `Arc` with no lock around it.
//!
//! The value of a shared cell is not a fact that a contract can hold on to:
//! another task may write between any two calls. What the contracts state is
//! what each atomic step did, as the task that made it saw it: the
//! [`Transition`] that every writer returns, and the [`WaitStep`] that a
//! waiter acts on.
pub mod flag;
pub mod sync;
pub mod transition;
pub mod waiting;

pub use flag::AwaitableBool;
pub use transition::Transition;
pub use waiting::WaitStep;
