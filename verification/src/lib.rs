//! FIFO containers for a message-passing system, and the message type they
//! are meant to carry.
//!
//! [`queue`] holds an unbounded queue and a fixed-capacity circular buffer
//! behind one shared trait; [`types`] holds the message and its header.

pub mod queue;
pub mod types;
