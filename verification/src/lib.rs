//! Interrupt-virtualization and timer core for a small embedded kernel.
//!
//! The crate models the hardware-facing state of one chip family as plain
//! values (control and status registers, an external interrupt controller,
//! a countdown timer) and verifies the logic that a kernel main loop runs
//! against that state: wraparound-safe tick arithmetic, nesting-safe atomic
//! sections, trap decode and fault policy, the pending-interrupt drain, and
//! the alarm multiplexer that shares one compare register among many clients.

pub mod alarm_test;
pub mod board;
pub mod chip;
pub mod csr;
pub mod ioarea;
pub mod jclulow1;
pub mod mux;
pub mod plic;
pub mod regs;
pub mod support;
pub mod test_alarm;
pub mod ticks;
pub mod timer;
pub mod trap;
