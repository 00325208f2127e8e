//! The events exchanged between the session orchestrator and the user
//! interface.

pub mod session_event;
