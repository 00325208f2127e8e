//! The tools the language model may call during a session: their
//! registration and lookup, and the built-in `save_memory` tool.

use vstd::prelude::*;
use crate::cli::opt_view;
use crate::providers::provider_error::ProviderError;
use crate::text;

verus! {

/// A tool as offered to the language model for function calling.
#[derive(Debug, Clone)]
pub struct ToolDefinition {
    /// Unique tool name.
    pub name: String,
    /// What the tool does, for the model.
    pub description: String,
    /// The JSON Schema of the tool's arguments, as JSON text.
    pub parameters: String,
}

/// The registered tools, at most one per name; a later registration under
/// a name replaces the earlier one.
#[derive(Debug)]
pub struct ToolRouter {
    tools: Vec<ToolDefinition>,
}

/// The position of the tool registered under `name`, if any.
pub open spec fn position_of(tools: Seq<ToolDefinition>, name: Seq<char>) -> Option<int> {
    if exists|i: int| 0 <= i < tools.len() && tools[i].name@ == name {
        Some(choose|i: int| 0 <= i < tools.len() && tools[i].name@ == name)
    } else {
        None
    }
}

/// No two tools share a name.
pub open spec fn names_unique(tools: Seq<ToolDefinition>) -> bool {
    forall|i: int, j: int| 0 <= i < tools.len() && 0 <= j < tools.len() && i != j ==> tools[i].name@ != tools[j].name@
}

/// The tool registered under `name`, if any.
pub open spec fn lookup(tools: Seq<ToolDefinition>, name: Seq<char>) -> Option<ToolDefinition> {
    match position_of(tools, name) {
        Some(i) => Some(tools[i]),
        None => None,
    }
}

impl ToolRouter {
    /// The registered tools.
    pub closed spec fn tools(&self) -> Seq<ToolDefinition> {
        self.tools@
    }

    /// The router's invariant: one tool per name.
    pub closed spec fn wf(&self) -> bool {
        names_unique(self.tools@)
    }

    /// The tool registered under `name`, if any.
    pub open spec fn entry(&self, name: Seq<char>) -> Option<ToolDefinition> {
        lookup(self.tools(), name)
    }

    /// A router with no tools.
    pub fn new() -> (r: ToolRouter)
        ensures
            r.wf(),
            r.tools().len() == 0,
            forall|n: Seq<char>| r.entry(n) is None,
    {
        ToolRouter { tools: Vec::new() }
    }

    /// Registers a tool under its name, replacing any tool of that name;
    /// the other tools stay as they were.
    pub fn register(&mut self, tool: ToolDefinition)
        requires
            old(self).wf(),
        ensures
            final(self).wf(),
            final(self).entry(tool.name@) == Some(tool),
            forall|n: Seq<char>| n != tool.name@ ==> final(self).entry(n) == old(self).entry(n),
    {
        let ghost old_tools = self.tools@;
        let ghost name = tool.name@;
        match self.position(tool.name.as_str()) {
            Some(i) => {
                self.tools.set(i, tool);
                proof {
                    let t = self.tools@;
                    assert(t[i as int].name@ == name);
                    assert forall|a: int, b: int| 0 <= a < t.len() && 0 <= b < t.len() && a != b implies t[a].name@
                        != t[b].name@ by {
                        if a != i && b != i {
                            assert(t[a] == old_tools[a] && t[b] == old_tools[b]);
                        } else if a == i {
                            assert(t[b] == old_tools[b]);
                        } else {
                            assert(t[a] == old_tools[a]);
                        }
                    }
                    assert(lookup(t, name) == Some(t[i as int])) by {
                        let k = choose|k: int| 0 <= k < t.len() && t[k].name@ == name;
                        if k != i {
                            assert(old_tools[k].name@ == name);
                            assert(old_tools[i as int].name@ == name);
                        }
                    }
                    assert forall|n: Seq<char>| n != name implies lookup(t, n) == lookup(old_tools, n) by {
                        if exists|k: int| 0 <= k < old_tools.len() && old_tools[k].name@ == n {
                            let k = choose|k: int| 0 <= k < old_tools.len() && old_tools[k].name@ == n;
                            assert(k != i);
                            assert(t[k] == old_tools[k]);
                            let k2 = choose|k2: int| 0 <= k2 < t.len() && t[k2].name@ == n;
                            assert(k2 == k);
                        } else {
                            if exists|k: int| 0 <= k < t.len() && t[k].name@ == n {
                                let k = choose|k: int| 0 <= k < t.len() && t[k].name@ == n;
                                assert(k != i);
                                assert(old_tools[k] == t[k]);
                            }
                        }
                    }
                }
            },
            None => {
                self.tools.push(tool);
                proof {
                    let t = self.tools@;
                    let last = t.len() - 1;
                    assert(t[last].name@ == name);
                    assert(lookup(t, name) == Some(t[last])) by {
                        let k = choose|k: int| 0 <= k < t.len() && t[k].name@ == name;
                        if k != last {
                            assert(old_tools[k].name@ == name);
                        }
                    }
                    assert forall|n: Seq<char>| n != name implies lookup(t, n) == lookup(old_tools, n) by {
                        if exists|k: int| 0 <= k < old_tools.len() && old_tools[k].name@ == n {
                            let k = choose|k: int| 0 <= k < old_tools.len() && old_tools[k].name@ == n;
                            assert(t[k] == old_tools[k]);
                            let k2 = choose|k2: int| 0 <= k2 < t.len() && t[k2].name@ == n;
                            if k2 != k {
                                assert(k2 != last);
                                assert(old_tools[k2].name@ == n);
                            }
                        }
                        if exists|k: int| 0 <= k < t.len() && t[k].name@ == n {
                            let k = choose|k: int| 0 <= k < t.len() && t[k].name@ == n;
                            assert(k != last);
                            assert(old_tools[k].name@ == n);
                        }
                    }
                }
            },
        }
    }

    /// The position of the tool named `name`.
    fn position(&self, name: &str) -> (r: Option<usize>)
        ensures
            r matches Some(i) ==> i < self.tools@.len() && self.tools@[i as int].name@ == name@,
            r is None ==> forall|j: int| 0 <= j < self.tools@.len() ==> self.tools@[j].name@ != name@,
    {
        let mut i: usize = 0;
        while i < self.tools.len()
            invariant
                i <= self.tools@.len(),
                forall|j: int| 0 <= j < i ==> self.tools@[j].name@ != name@,
            decreases self.tools.len() - i,
        {
            if text::str_eq(self.tools[i].name.as_str(), name) {
                return Some(i);
            }
            i = i + 1;
        }
        None
    }

    /// The definitions of all registered tools.
    pub fn tool_definitions(&self) -> (r: Vec<ToolDefinition>)
        ensures
            r@.len() == self.tools().len(),
            forall|i: int| 0 <= i < r@.len() ==> (#[trigger] r@[i]).name@ == self.tools()[i].name@
                && r@[i].description@ == self.tools()[i].description@ && r@[i].parameters@
                == self.tools()[i].parameters@,
    {
        let mut out: Vec<ToolDefinition> = Vec::new();
        let mut i: usize = 0;
        while i < self.tools.len()
            invariant
                i <= self.tools@.len(),
                out@.len() == i,
                forall|k: int| 0 <= k < i ==> (#[trigger] out@[k]).name@ == self.tools@[k].name@
                    && out@[k].description@ == self.tools@[k].description@ && out@[k].parameters@
                    == self.tools@[k].parameters@,
            decreases self.tools.len() - i,
        {
            let t = &self.tools[i];
            out.push(ToolDefinition {
                name: t.name.clone(),
                description: t.description.clone(),
                parameters: t.parameters.clone(),
            });
            i = i + 1;
        }
        out
    }

    /// Whether a tool is registered under `name`.
    pub fn has_tool(&self, name: &str) -> (r: bool)
        ensures
            r == self.entry(name@) is Some,
    {
        match self.position(name) {
            Some(i) => {
                assert(self.tools@[i as int].name@ == name@);
                true
            },
            None => false,
        }
    }

    /// Finds the tool a call names; an unknown name is invalid input.
    pub fn find(&self, tool_name: &str) -> (r: Result<(), ProviderError>)
        ensures
            self.entry(tool_name@) is Some ==> r is Ok,
            self.entry(tool_name@) is None ==> r is Err && r->Err_0 is InvalidInput && r->Err_0->InvalidInput_0@
                == "Unknown tool: "@ + tool_name@,
    {
        if self.has_tool(tool_name) {
            Ok(())
        } else {
            Err(ProviderError::InvalidInput(crate::error::prefixed("Unknown tool: ", tool_name)))
        }
    }

    /// Runs a `save_memory` call named `tool_name`: the name must be
    /// registered, then the call is checked as `SaveMemoryTool::prepare` does.
    pub fn execute_with_context(&self, tool_name: &str, input: &SaveMemoryArgs, context: &ToolExecutionContext) -> (r:
        Result<MemoryFactDraft, ProviderError>)
        ensures
            self.entry(tool_name@) is None ==> r is Err && r->Err_0 is InvalidInput && r->Err_0->InvalidInput_0@
                == "Unknown tool: "@ + tool_name@,
            self.entry(tool_name@) is Some ==> save_memory_matches(r, *input, *context),
    {
        match self.find(tool_name) {
            Err(e) => Err(e),
            Ok(()) => SaveMemoryTool.prepare(input, context),
        }
    }
}

impl Default for ToolRouter {
    fn default() -> (r: ToolRouter)
        ensures
            r.wf(),
            r.tools().len() == 0,
    {
        ToolRouter::new()
    }
}

// ───────────────────────── save_memory ─────────────────────────

/// What a session offers a tool while it runs.
#[derive(Debug, Clone)]
pub struct ToolExecutionContext {
    /// Whether a database is at hand.
    pub has_database: bool,
    pub character_id: Option<String>,
    pub session_id: Option<String>,
    pub source_turn_id: Option<String>,
}

impl Default for ToolExecutionContext {
    fn default() -> (r: ToolExecutionContext)
        ensures
            !r.has_database,
            r.character_id is None,
            r.session_id is None,
            r.source_turn_id is None,
    {
        ToolExecutionContext { has_database: false, character_id: None, session_id: None, source_turn_id: None }
    }
}

/// The string arguments of a `save_memory` call (absent when the call's
/// JSON lacks them or they are not strings).
#[derive(Debug, Clone)]
pub struct SaveMemoryArgs {
    pub content: Option<String>,
    pub fact_type: Option<String>,
}

/// The memory fact a `save_memory` call asks to store.
#[derive(Debug, Clone)]
pub struct MemoryFactDraft {
    pub character_id: String,
    pub session_id: Option<String>,
    pub fact_type: String,
    pub content: String,
    pub source_turn_id: Option<String>,
}

/// The tool that saves a fact about the user to the character's memory.
#[derive(Debug, Clone, Copy)]
pub struct SaveMemoryTool;

/// A present, non-blank argument, trimmed.
pub open spec fn filled(o: Option<Seq<char>>) -> Option<Seq<char>> {
    match o {
        Some(v) => if text::trim(v).len() > 0 {
            Some(text::trim(v))
        } else {
            None
        },
        None => None,
    }
}

/// Whether `r` is what a `save_memory` call with `input` in `context` comes
/// to: the content and the fact type must be given (else invalid input),
/// a database and a character must be at hand (else the tool is
/// unavailable); the fact then holds the trimmed arguments and character.
pub open spec fn save_memory_matches(r: Result<MemoryFactDraft, ProviderError>, input: SaveMemoryArgs, context: ToolExecutionContext) -> bool {
    let content = filled(opt_view(input.content));
    let fact_type = filled(opt_view(input.fact_type));
    let character = filled(opt_view(context.character_id));
    if content is None {
        r is Err && r->Err_0 is InvalidInput && r->Err_0->InvalidInput_0@ == "save_memory requires content."@
    } else if fact_type is None {
        r is Err && r->Err_0 is InvalidInput && r->Err_0->InvalidInput_0@ == "save_memory requires fact_type."@
    } else if !context.has_database {
        r is Err && r->Err_0 is Unavailable && r->Err_0->Unavailable_0@ == "save_memory requires database context."@
    } else if character is None {
        r is Err && r->Err_0 is Unavailable && r->Err_0->Unavailable_0@ == "save_memory requires character context."@
    } else {
        r is Ok && r->Ok_0.content@ == content->Some_0 && r->Ok_0.fact_type@ == fact_type->Some_0
            && r->Ok_0.character_id@ == character->Some_0 && opt_view(r->Ok_0.session_id) == opt_view(
            context.session_id,
        ) && opt_view(r->Ok_0.source_turn_id) == opt_view(context.source_turn_id)
    }
}

fn filled_arg(o: &Option<String>) -> (r: Option<String>)
    ensures
        opt_view(r) == filled(opt_view(*o)),
{
    match o {
        Some(v) => {
            let t = text::trim_string(v.as_str());
            if t.as_str().unicode_len() > 0 {
                Some(t)
            } else {
                None
            }
        },
        None => None,
    }
}

impl SaveMemoryTool {
    /// The tool as offered to the model.
    pub fn definition(&self) -> (r: ToolDefinition)
        ensures
            r.name@ == "save_memory"@,
            r.description@ == "Save an important fact about the user or the conversation to long-term memory."@,
            r.parameters@ == SAVE_MEMORY_PARAMETERS@,
    {
        ToolDefinition {
            name: text::owned("save_memory"),
            description: text::owned("Save an important fact about the user or the conversation to long-term memory."),
            parameters: text::owned(SAVE_MEMORY_PARAMETERS),
        }
    }

    /// Checks a call and says which fact to store.
    pub fn prepare(&self, input: &SaveMemoryArgs, context: &ToolExecutionContext) -> (r: Result<MemoryFactDraft, ProviderError>)
        ensures
            save_memory_matches(r, *input, *context),
    {
        let content = match filled_arg(&input.content) {
            Some(c) => c,
            None => return Err(ProviderError::InvalidInput(text::owned("save_memory requires content."))),
        };
        let fact_type = match filled_arg(&input.fact_type) {
            Some(f) => f,
            None => return Err(ProviderError::InvalidInput(text::owned("save_memory requires fact_type."))),
        };
        if !context.has_database {
            return Err(ProviderError::Unavailable(text::owned("save_memory requires database context.")));
        }
        let character_id = match filled_arg(&context.character_id) {
            Some(c) => c,
            None => return Err(ProviderError::Unavailable(text::owned("save_memory requires character context."))),
        };
        Ok(MemoryFactDraft {
            character_id,
            session_id: crate::cli::clone_opt(&context.session_id),
            fact_type,
            content,
            source_turn_id: crate::cli::clone_opt(&context.source_turn_id),
        })
    }
}

/// The JSON Schema of `save_memory`'s arguments.
pub const SAVE_MEMORY_PARAMETERS: &'static str = "{\"type\":\"object\",\"properties\":{\"content\":{\"type\":\"string\",\"description\":\"The fact to remember.\"},\"fact_type\":{\"type\":\"string\",\"enum\":[\"event\",\"preference\",\"commitment\",\"trait\",\"custom\"],\"description\":\"Category of the memory fact.\"}},\"required\":[\"content\",\"fact_type\"]}";

} // verus!
