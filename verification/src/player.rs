//! Players: accounts and summoner profiles.

pub mod account;
pub mod summoner;
