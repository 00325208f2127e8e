//! The provider abstractions: language model, speech-to-text and text-to-speech
//! back ends, and the error type they share.

pub mod llm_provider;
pub mod provider_error;
pub mod stt_provider;
pub mod tts_provider;
