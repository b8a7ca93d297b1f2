//! A hardware-counter time driver: a monotonic logical clock derived from a
//! free-running counter, and one pending deadline served by a compare-match
//! interrupt.
//!
//! The driver here holds the decisions only. Whoever owns the hardware reads
//! the counter, hands its value to these functions, writes back the compare
//! value they return, and invokes the waker they hand out.

pub mod clock;
pub mod alarm;
pub mod driver;

pub use alarm::{AlarmState, DriverState};
pub use clock::{CLOCK_DIVIDER, NO_DEADLINE};
pub use driver::{AlarmAction, SystickDriver};

