//! A first-in, first-out work queue that can grow while it is being walked.
//!
//! The queue keeps every item it was given, in insertion order, together with
//! a cursor that separates the items already visited from those still
//! pending. Visited items stay in place until the queue is compacted.
//!
//! [`state::QueueState`] is the mathematical model; [`queue::WorkQueue`] is
//! the executable container, whose every operation is stated over that model;
//! [`laws`] holds what follows for every queue.

pub mod laws;
pub mod queue;
pub mod state;

pub use queue::WorkQueue;
pub use state::QueueState;
