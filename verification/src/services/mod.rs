//! The application services: prompt construction for feedback, the rules for
//! speech input and output, the chat protocol, memory and session assembly.

pub mod feedback;
pub mod llm;
pub mod memory_service;
pub mod orchestrator;
pub mod stt;
pub mod tool_router;
pub mod tts;
