//! The session orchestrator: the system prompt of a conversation, the
//! messages sent to the model, and the tools the model may call.

use vstd::prelude::*;
use crate::providers::llm_provider::ChatMessage;
use crate::services::tool_router::{SaveMemoryTool, ToolDefinition, ToolRouter};
use crate::text;

verus! {

/// What an orchestrated session is set up with.
#[derive(Debug, Clone)]
pub struct SessionConfig {
    /// The character's system prompt.
    pub system_prompt: String,
    /// The character, whose memory the session uses.
    pub character_id: String,
    pub session_id: String,
    /// The language model to use.
    pub model: String,
    /// What the practice mode and scenario add to the prompt.
    pub prompt_suffix: String,
}

/// One conversation session: its configuration and its tools.
#[derive(Debug)]
pub struct SessionOrchestrator {
    config: SessionConfig,
    tool_router: ToolRouter,
}

/// The system prompt: the character's prompt, the suffix on a line of its
/// own when there is one, and the memory context under a `[Memory Context]`
/// heading when there is one.
pub open spec fn system_prompt(config: SessionConfig, memory: Option<Seq<char>>) -> Seq<char> {
    let base = if config.prompt_suffix@.len() == 0 {
        config.system_prompt@
    } else {
        config.system_prompt@ + "\n"@ + config.prompt_suffix@
    };
    match memory {
        Some(m) => base + "\n\n[Memory Context]\n"@ + m,
        None => base,
    }
}

pub open spec fn opt_str(o: Option<&str>) -> Option<Seq<char>> {
    match o {
        Some(s) => Some(s@),
        None => None,
    }
}

impl SessionOrchestrator {
    /// The session's configuration.
    pub closed spec fn config_spec(&self) -> SessionConfig {
        self.config
    }

    /// The session's tools.
    pub closed spec fn router(&self) -> ToolRouter {
        self.tool_router
    }

    /// A session with the built-in tools registered.
    pub fn new(config: SessionConfig) -> (r: SessionOrchestrator)
        ensures
            r.config_spec() == config,
            r.router().wf(),
            r.router().entry("save_memory"@) is Some,
    {
        let mut tool_router = ToolRouter::new();
        let def = SaveMemoryTool.definition();
        tool_router.register(def);
        SessionOrchestrator { config, tool_router }
    }

    /// The system prompt, with the memory context when one is given.
    pub fn build_system_prompt(&self, memory_context: Option<&str>) -> (r: String)
        ensures
            r@ == system_prompt(self.config_spec(), opt_str(memory_context)),
    {
        let mut prompt = self.config.system_prompt.clone();
        if self.config.prompt_suffix.as_str().unicode_len() > 0 {
            prompt.append("\n");
            prompt.append(self.config.prompt_suffix.as_str());
        }
        if let Some(memory) = memory_context {
            prompt.append("\n\n[Memory Context]\n");
            prompt.append(memory);
        }
        prompt
    }

    /// The messages for the model: the system prompt, then the history in
    /// order.
    pub fn build_messages(&self, history: &[ChatMessage], memory_context: Option<&str>) -> (r: Vec<ChatMessage>)
        ensures
            r@.len() == history@.len() + 1,
            r@[0].role@ == "system"@,
            r@[0].content@ == system_prompt(self.config_spec(), opt_str(memory_context)),
            forall|i: int| 0 <= i < history@.len() ==> (#[trigger] r@[i + 1]).role@ == history@[i].role@
                && r@[i + 1].content@ == history@[i].content@,
    {
        let system = self.build_system_prompt(memory_context);
        let mut messages: Vec<ChatMessage> = Vec::new();
        messages.push(ChatMessage { role: text::owned("system"), content: system });
        let mut i: usize = 0;
        while i < history.len()
            invariant
                i <= history@.len(),
                messages@.len() == i + 1,
                messages@[0].role@ == "system"@,
                messages@[0].content@ == system_prompt(self.config_spec(), opt_str(memory_context)),
                forall|k: int| 0 <= k < i ==> (#[trigger] messages@[k + 1]).role@ == history@[k].role@
                    && messages@[k + 1].content@ == history@[k].content@,
            decreases history.len() - i,
        {
            messages.push(ChatMessage { role: history[i].role.clone(), content: history[i].content.clone() });
            i = i + 1;
        }
        messages
    }

    /// The tools the model may call.
    pub fn tool_definitions(&self) -> (r: Vec<ToolDefinition>)
        ensures
            r@.len() == self.router().tools().len(),
            forall|i: int| 0 <= i < r@.len() ==> (#[trigger] r@[i]).name@ == self.router().tools()[i].name@,
    {
        self.tool_router.tool_definitions()
    }

    /// The session's configuration.
    pub fn config(&self) -> (r: &SessionConfig)
        ensures
            *r == self.config_spec(),
    {
        &self.config
    }
}

} // verus!
