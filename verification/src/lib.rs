//! Core of a minimal native-process debugger: software-breakpoint code
//! patching, the address-keyed breakpoint table, command parsing, the
//! tracee run-state machine, and the register descriptor table.
//!
//! The operating-system side (forking the tracee, reading and writing its
//! memory, signalling) is left to the embedding program; this crate works
//! on plain values: addresses as 64-bit integers and machine words read
//! from or destined for the tracee's memory.

pub mod breakpoint;
pub mod command;
pub mod registers;
pub mod session;
pub mod table;
