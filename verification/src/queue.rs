//! Queue-like containers: the shared trait, its two implementations, and the
//! mathematical model their contracts are stated over.

pub mod error;
pub mod lemmas;
pub mod model;
pub mod queues;
