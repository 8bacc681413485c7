//! Verified core of a dual-core gateway node.
//!
//! One core drives a display and three buttons; the other core manages a
//! long-range radio link and a removable-storage logger.  The modules here
//! hold the part of that firmware that is pure logic: the bounded command
//! channel that carries button events across the two cores, the state
//! machines of the display, input and storage tasks, and the fixed task and
//! initialization plans of the two core runtimes.  The peripheral drivers
//! and the executors that run the tasks live outside this crate.

pub mod channel;
pub mod commands;
pub mod clock;
pub mod display;
pub mod input;
pub mod runtime;
pub mod storage;
