//! Register-level model of a small MSP430-style LED-blink firmware.
//!
//! The crate models the microcontroller's memory-mapped registers as plain
//! values (watchdog control, GPIO ports, power-management lock, a compare
//! timer), the one-time acquisition of the peripheral handle, the three
//! idioms for sharing that handle between the main context and interrupt
//! handlers, the hardware-initialization sequence, and the blink loop's
//! state machine. Every register write and every decision is verified; the
//! volatile stores that carry the computed values to real hardware are the
//! surrounding program's concern.

pub mod bits;
pub mod regs;
pub mod init;
pub mod blink;
pub mod isr;
pub mod share;
pub mod program;
