//! Remote control of three dimmable outputs and one on/off output by
//! one-byte messages.
//!
//! The crate holds the decisions only: which command a payload stands for,
//! what a command does to the state of the outputs, and how the two loops
//! around them move from step to step. Fetching messages, sleeping and
//! driving the pins are the caller's part: every function here takes plain
//! values and says which write the caller owes to the hardware.

pub mod command;
pub mod consumer;
pub mod dispatch;
pub mod intensity;
pub mod liveness;
pub mod toggle;
