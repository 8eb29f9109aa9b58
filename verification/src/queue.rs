//! Queues: the kinds of game a match can belong to.

pub mod queue_type;
pub mod ranked;
