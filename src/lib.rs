//! Suspension and resumption primitives for cooperatively scheduled tasks.
//!
//! [`Waiter`] is a one-shot cell that hands a value to exactly one suspended
//! continuation. [`Event`] is a re-armable, broadcast signal built on a
//! registry of `Waiter<()>` cells. Both are plain state machines: the
//! decisions of the suspend/resume protocol are verified here, and a caller
//! shares them between tasks behind a lock of its choosing.

mod notify;
pub mod event;
pub mod laws;
pub mod waiter;

pub use event::{Event, EventModel};
pub use waiter::{Waiter, WaiterModel};
