//! The message queue: polling for messages and acknowledging them.

pub mod ack;
pub mod poll;
