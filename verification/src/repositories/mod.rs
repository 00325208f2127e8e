//! The records the database holds and the rules their fields follow.

pub mod config;
pub mod memory;
