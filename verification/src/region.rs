//! Platform regions, routing regions and the fixed mapping between them.

pub mod routing;
pub mod server;
