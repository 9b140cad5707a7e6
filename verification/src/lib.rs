//! Control logic of a booster test-bench emulator: the state machine of a test
//! run, the operator commands, the per-tick decisions of the simulation, and
//! the event messages sent to clients.
pub mod structs;
pub mod messages;
pub mod commands;
pub mod physics;
pub mod laws;
