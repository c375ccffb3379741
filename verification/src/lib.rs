//! A register-level model of a minimal MSP430-style LED blinker.
//!
//! The firmware modelled here disables the watchdog, selects the internal
//! clock, arms a hardware timer, and then sleeps; a compare-match interrupt
//! handler toggles one output pin per timer period, forever.  The model keeps
//! the full register file, the working register and stack the handler touches,
//! and the ordered list of stores to memory-mapped registers, so that the
//! order-sensitive parts of the boot sequence (watchdog first, output level
//! before pin direction, timer started last) are stated and proved, not just
//! executed.

pub mod fault;
pub mod handler;
pub mod init;
pub mod machine;
