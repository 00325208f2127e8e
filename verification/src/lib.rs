//! VoxVerse core library: prompt construction, validation rules, provider
//! capabilities, CLI argument handling and the other decisions of the
//! voice-first practice app, each stated with a contract and proved.

pub mod text;
pub mod commands;
pub mod error;
pub mod state;
pub mod protocol;
pub mod providers;
pub mod repositories;
pub mod services;
pub mod cli;
mod fresh;
