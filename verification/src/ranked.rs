//! Ranked standings: tiers and the divisions inside them.

pub mod division;
pub mod tier;
