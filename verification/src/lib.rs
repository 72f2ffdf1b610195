//! A registry of named countdown timers, with the small helpers that the
//! study application builds around it.
//!
//! Time is explicit: every transition that depends on the clock exists in a
//! form that takes the current [`time::Moment`] as an argument and has an
//! exact contract. The forms without that argument read the system clock and
//! then run the explicit form.

pub mod buddy_chat;
pub mod functions;
pub mod reader;
pub mod time;
pub mod timer;
