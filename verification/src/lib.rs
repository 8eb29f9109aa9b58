//! A typed client core for a region-partitioned gaming-platform REST API.
//!
//! The crate holds the part that every endpoint shares and that can be
//! reasoned about without touching the network: resolving platform regions
//! to routing regions, composing requests, interpreting responses and
//! decoding payloads. Every function is verified against the contract
//! written next to it.
//!
//! A call goes through the modules in one direction: a resource type (in
//! [`player`], [`league`] or [`lol_match`]) composes a [`request`]; the
//! caller sends it; [`response`] classifies what came back, and the
//! [`schema`] of the resource type decodes the payload. [`call`] holds the
//! steps of one call as a state machine, for callers that drive the network
//! themselves.

pub mod call;
pub mod encoding;
pub mod failure;
pub mod json;
pub mod league;
pub mod lol_match;
pub mod player;
pub mod queue;
pub mod ranked;
pub mod region;
pub mod request;
pub mod response;
pub mod schema;
pub mod text;
