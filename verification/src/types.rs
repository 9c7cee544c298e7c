//! Value types carried through the queues.

pub mod message;
