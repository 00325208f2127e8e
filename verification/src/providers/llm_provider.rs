//! The language-model provider: chat messages, token accounting and the
//! OpenAI-compatible back end.

use vstd::prelude::*;

verus! {

/// One message of a chat exchange.
#[derive(Debug, Clone)]
pub struct ChatMessage {
    pub role: String,
    pub content: String,
}

/// Token usage reported by a provider, when it reports any.
#[derive(Debug, Clone, Copy)]
pub struct TokenUsage {
    pub prompt_tokens: Option<u32>,
    pub completion_tokens: Option<u32>,
    pub total_tokens: Option<u32>,
}

/// An endpoint that speaks the OpenAI chat-completions protocol.
#[derive(Debug, Clone)]
pub struct OpenAiCompatibleProvider {
    pub base_url: String,
    pub api_key: String,
}

impl OpenAiCompatibleProvider {
    /// The provider's display name.
    pub fn name(&self) -> (r: &'static str)
        ensures
            r@ == "OpenAI Compatible"@,
    {
        "OpenAI Compatible"
    }
}

} // verus!
