//! Low-power mode entry controller for a single-core microcontroller.
//!
//! The controller selects a sleep depth, arms wake sources, optionally keeps
//! the debug clocks running, and finally issues the CPU wait instruction.
//! Register writes are modelled as a recorded trace applied to a register
//! bank, so the ordered write protocol is stated and verified as such;
//! the thin glue that replays a trace onto the real hardware lives outside
//! the verified core.

pub mod regs;
pub mod sleep;
