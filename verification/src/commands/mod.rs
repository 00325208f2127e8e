//! The application's commands: the checks and derivations each makes before
//! and after it touches the database.

pub mod character;
pub mod chat;
pub mod diagnostics;
pub mod feedback;
pub mod memory;
pub mod practice;
pub mod relationship;
pub mod scenario;
pub mod session;
pub mod stats;
pub mod tts;
pub mod vocabulary;
