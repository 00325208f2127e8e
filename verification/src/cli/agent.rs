//! The agent server's tool catalogue, the gates that guard its write and
//! network tools, and the routing of its requests.

use vstd::prelude::*;
use crate::cli::{clone_strings, strs_view};
use crate::text;

verus! {

// ───────────────────────── catalogue ─────────────────────────

#[derive(Debug, Clone)]
pub struct AgentToolArgument {
    pub name: String,
    pub kind: String,
    pub required: bool,
    pub description: String,
}

#[derive(Debug, Clone)]
pub struct AgentToolInfo {
    pub name: String,
    pub description: String,
    pub read_only: bool,
    pub arguments: Vec<AgentToolArgument>,
}

#[derive(Debug, Clone)]
pub struct AgentToolsReport {
    pub mode: String,
    pub protocol: String,
    pub network_enabled: bool,
    pub write_allowlist: Vec<String>,
    pub tools: Vec<AgentToolInfo>,
}

pub struct AgentToolArgumentView {
    pub name: Seq<char>,
    pub kind: Seq<char>,
    pub required: bool,
    pub description: Seq<char>,
}

pub struct AgentToolInfoView {
    pub name: Seq<char>,
    pub description: Seq<char>,
    pub read_only: bool,
    pub arguments: Seq<AgentToolArgumentView>,
}

pub struct AgentToolsReportView {
    pub mode: Seq<char>,
    pub protocol: Seq<char>,
    pub network_enabled: bool,
    pub write_allowlist: Seq<Seq<char>>,
    pub tools: Seq<AgentToolInfoView>,
}

impl View for AgentToolArgument {
    type V = AgentToolArgumentView;

    open spec fn view(&self) -> AgentToolArgumentView {
        AgentToolArgumentView {
            name: self.name@,
            kind: self.kind@,
            required: self.required,
            description: self.description@,
        }
    }
}

pub open spec fn arguments_view(v: Seq<AgentToolArgument>) -> Seq<AgentToolArgumentView> {
    v.map_values(|a: AgentToolArgument| a@)
}

impl View for AgentToolInfo {
    type V = AgentToolInfoView;

    open spec fn view(&self) -> AgentToolInfoView {
        AgentToolInfoView {
            name: self.name@,
            description: self.description@,
            read_only: self.read_only,
            arguments: arguments_view(self.arguments@),
        }
    }
}

pub open spec fn tools_view(v: Seq<AgentToolInfo>) -> Seq<AgentToolInfoView> {
    v.map_values(|t: AgentToolInfo| t@)
}

impl View for AgentToolsReport {
    type V = AgentToolsReportView;

    open spec fn view(&self) -> AgentToolsReportView {
        AgentToolsReportView {
            mode: self.mode@,
            protocol: self.protocol@,
            network_enabled: self.network_enabled,
            write_allowlist: strs_view(self.write_allowlist@),
            tools: tools_view(self.tools@),
        }
    }
}

pub open spec fn arg_view(name: Seq<char>, kind: Seq<char>, required: bool, description: Seq<char>) -> AgentToolArgumentView {
    AgentToolArgumentView { name, kind, required, description }
}

fn argument(name: &str, kind: &str, required: bool, description: &str) -> (a: AgentToolArgument)
    ensures
        a@ == arg_view(name@, kind@, required, description@),
{
    AgentToolArgument {
        name: text::owned(name),
        kind: text::owned(kind),
        required,
        description: text::owned(description),
    }
}

fn tool(name: &str, description: &str, read_only: bool, arguments: Vec<AgentToolArgument>) -> (t: AgentToolInfo)
    ensures
        t@ == (AgentToolInfoView {
            name: name@,
            description: description@,
            read_only,
            arguments: arguments_view(arguments@),
        }),
{
    AgentToolInfo {
        name: text::owned(name),
        description: text::owned(description),
        read_only,
        arguments,
    }
}

pub open spec fn status_tool() -> AgentToolInfoView {
    AgentToolInfoView {
        name: "get_app_status"@,
        description: "Return local database discovery, active profile, and data counts."@,
        read_only: true,
        arguments: Seq::empty(),
    }
}

fn make_status_tool() -> (t: AgentToolInfo)
    ensures
        t@ == status_tool(),
{
    let mut arguments: Vec<AgentToolArgument> = Vec::new();
    let t = tool("get_app_status", "Return local database discovery, active profile, and data counts.", true, arguments);
    assert(t@.arguments =~= status_tool().arguments);
    t
}

pub open spec fn profiles_tool() -> AgentToolInfoView {
    AgentToolInfoView {
        name: "list_provider_profiles"@,
        description: "List provider profiles without reading keychain secrets."@,
        read_only: true,
        arguments: Seq::empty(),
    }
}

fn make_profiles_tool() -> (t: AgentToolInfo)
    ensures
        t@ == profiles_tool(),
{
    let mut arguments: Vec<AgentToolArgument> = Vec::new();
    let t = tool("list_provider_profiles", "List provider profiles without reading keychain secrets.", true, arguments);
    assert(t@.arguments =~= profiles_tool().arguments);
    t
}

pub open spec fn characters_tool() -> AgentToolInfoView {
    AgentToolInfoView {
        name: "list_characters"@,
        description: "List local speaking-practice characters without exporting prompts."@,
        read_only: true,
        arguments: seq![arg_view("limit"@, "number"@, false, "Maximum number of characters to return, capped at 500."@)],
    }
}

fn make_characters_tool() -> (t: AgentToolInfo)
    ensures
        t@ == characters_tool(),
{
    let mut arguments: Vec<AgentToolArgument> = Vec::new();
    arguments.push(argument("limit", "number", false, "Maximum number of characters to return, capped at 500."));
    let t = tool("list_characters", "List local speaking-practice characters without exporting prompts.", true, arguments);
    assert(t@.arguments =~= characters_tool().arguments);
    t
}

pub open spec fn diagnostics_tool() -> AgentToolInfoView {
    AgentToolInfoView {
        name: "run_runtime_diagnostics"@,
        description: "Return read-only CLI diagnostics and schema warnings."@,
        read_only: true,
        arguments: Seq::empty(),
    }
}

fn make_diagnostics_tool() -> (t: AgentToolInfo)
    ensures
        t@ == diagnostics_tool(),
{
    let mut arguments: Vec<AgentToolArgument> = Vec::new();
    let t = tool("run_runtime_diagnostics", "Return read-only CLI diagnostics and schema warnings.", true, arguments);
    assert(t@.arguments =~= diagnostics_tool().arguments);
    t
}

pub open spec fn sessions_tool() -> AgentToolInfoView {
    AgentToolInfoView {
        name: "list_sessions"@,
        description: "List recent chat sessions with character and message counts."@,
        read_only: true,
        arguments: seq![arg_view("limit"@, "number"@, false, "Maximum number of sessions to return, capped at 500."@)],
    }
}

fn make_sessions_tool() -> (t: AgentToolInfo)
    ensures
        t@ == sessions_tool(),
{
    let mut arguments: Vec<AgentToolArgument> = Vec::new();
    arguments.push(argument("limit", "number", false, "Maximum number of sessions to return, capped at 500."));
    let t = tool("list_sessions", "List recent chat sessions with character and message counts.", true, arguments);
    assert(t@.arguments =~= sessions_tool().arguments);
    t
}

pub open spec fn export_tool() -> AgentToolInfoView {
    AgentToolInfoView {
        name: "export_session"@,
        description: "Export one chat session with ordered messages, local summary, and Markdown transcript."@,
        read_only: true,
        arguments: seq![arg_view("session_id"@, "string"@, true, "Session id to export."@)],
    }
}

fn make_export_tool() -> (t: AgentToolInfo)
    ensures
        t@ == export_tool(),
{
    let mut arguments: Vec<AgentToolArgument> = Vec::new();
    arguments.push(argument("session_id", "string", true, "Session id to export."));
    let t = tool("export_session", "Export one chat session with ordered messages, local summary, and Markdown transcript.", true, arguments);
    assert(t@.arguments =~= export_tool().arguments);
    t
}

pub open spec fn audit_tool() -> AgentToolInfoView {
    AgentToolInfoView {
        name: "list_audit_events"@,
        description: "List recent CLI audit events without exposing secrets, optionally filtered by operation, actor, result, or target ids."@,
        read_only: true,
        arguments: seq![arg_view("limit"@, "number"@, false, "Maximum number of audit events to return, capped at 500."@), arg_view("operation"@, "string"@, false, "Optional operation filter, for example practice.message.send."@), arg_view("actor"@, "string"@, false, "Optional actor filter, for example speakmate-cli or speakmate-agent."@), arg_view("result"@, "string"@, false, "Optional result filter, for example success or failure."@), arg_view("session_id"@, "string"@, false, "Optional target session id filter."@)],
    }
}

fn make_audit_tool() -> (t: AgentToolInfo)
    ensures
        t@ == audit_tool(),
{
    let mut arguments: Vec<AgentToolArgument> = Vec::new();
    arguments.push(argument("limit", "number", false, "Maximum number of audit events to return, capped at 500."));
    arguments.push(argument("operation", "string", false, "Optional operation filter, for example practice.message.send."));
    arguments.push(argument("actor", "string", false, "Optional actor filter, for example speakmate-cli or speakmate-agent."));
    arguments.push(argument("result", "string", false, "Optional result filter, for example success or failure."));
    arguments.push(argument("session_id", "string", false, "Optional target session id filter."));
    let t = tool("list_audit_events", "List recent CLI audit events without exposing secrets, optionally filtered by operation, actor, result, or target ids.", true, arguments);
    assert(t@.arguments =~= audit_tool().arguments);
    t
}

pub open spec fn coaching_tool() -> AgentToolInfoView {
    AgentToolInfoView {
        name: "generate_session_coaching_report"@,
        description: "Network read-only operation: export one local session and ask the active model for a Markdown coaching report without writing the database or audit log."@,
        read_only: true,
        arguments: seq![arg_view("session_id"@, "string"@, true, "Session id to analyze with the active model."@)],
    }
}

fn make_coaching_tool() -> (t: AgentToolInfo)
    ensures
        t@ == coaching_tool(),
{
    let mut arguments: Vec<AgentToolArgument> = Vec::new();
    arguments.push(argument("session_id", "string", true, "Session id to analyze with the active model."));
    let t = tool("generate_session_coaching_report", "Network read-only operation: export one local session and ask the active model for a Markdown coaching report without writing the database or audit log.", true, arguments);
    assert(t@.arguments =~= coaching_tool().arguments);
    t
}

pub open spec fn start_tool() -> AgentToolInfoView {
    AgentToolInfoView {
        name: "start_practice_session"@,
        description: "Write operation: create a practice session for a character and append an audit event."@,
        read_only: false,
        arguments: seq![arg_view("character_id"@, "string"@, true, "Character id to use for the new practice session."@), arg_view("title"@, "string"@, false, "Optional session title."@), arg_view("mode_id"@, "string"@, false, "Optional practice mode id, defaults to free_talk."@), arg_view("scenario_id"@, "string"@, false, "Optional scenario id to bind to the new session."@)],
    }
}

fn make_start_tool() -> (t: AgentToolInfo)
    ensures
        t@ == start_tool(),
{
    let mut arguments: Vec<AgentToolArgument> = Vec::new();
    arguments.push(argument("character_id", "string", true, "Character id to use for the new practice session."));
    arguments.push(argument("title", "string", false, "Optional session title."));
    arguments.push(argument("mode_id", "string", false, "Optional practice mode id, defaults to free_talk."));
    arguments.push(argument("scenario_id", "string", false, "Optional scenario id to bind to the new session."));
    let t = tool("start_practice_session", "Write operation: create a practice session for a character and append an audit event.", false, arguments);
    assert(t@.arguments =~= start_tool().arguments);
    t
}

pub open spec fn append_tool() -> AgentToolInfoView {
    AgentToolInfoView {
        name: "append_session_message"@,
        description: "Write operation: append a local user or assistant message to a session and append an audit event."@,
        read_only: false,
        arguments: seq![arg_view("session_id"@, "string"@, true, "Session id to append the message to."@), arg_view("role"@, "string"@, true, "Message role: user or assistant."@), arg_view("content"@, "string"@, true, "Message content to store locally."@)],
    }
}

fn make_append_tool() -> (t: AgentToolInfo)
    ensures
        t@ == append_tool(),
{
    let mut arguments: Vec<AgentToolArgument> = Vec::new();
    arguments.push(argument("session_id", "string", true, "Session id to append the message to."));
    arguments.push(argument("role", "string", true, "Message role: user or assistant."));
    arguments.push(argument("content", "string", true, "Message content to store locally."));
    let t = tool("append_session_message", "Write operation: append a local user or assistant message to a session and append an audit event.", false, arguments);
    assert(t@.arguments =~= append_tool().arguments);
    t
}

pub open spec fn send_tool() -> AgentToolInfoView {
    AgentToolInfoView {
        name: "send_message"@,
        description: "Network write operation: append a user message, call the active model, append the assistant response, and audit the run."@,
        read_only: false,
        arguments: seq![arg_view("session_id"@, "string"@, true, "Session id to send the message in."@), arg_view("content"@, "string"@, true, "User message content to send to the active model."@)],
    }
}

fn make_send_tool() -> (t: AgentToolInfo)
    ensures
        t@ == send_tool(),
{
    let mut arguments: Vec<AgentToolArgument> = Vec::new();
    arguments.push(argument("session_id", "string", true, "Session id to send the message in."));
    arguments.push(argument("content", "string", true, "User message content to send to the active model."));
    let t = tool("send_message", "Network write operation: append a user message, call the active model, append the assistant response, and audit the run.", false, arguments);
    assert(t@.arguments =~= send_tool().arguments);
    t
}

pub open spec fn retry_tool() -> AgentToolInfoView {
    AgentToolInfoView {
        name: "retry_last_message"@,
        description: "Network recovery operation: retry the last user message in a session, append only the assistant response, and audit the run."@,
        read_only: false,
        arguments: seq![arg_view("session_id"@, "string"@, true, "Session id whose last user message should be retried."@)],
    }
}

fn make_retry_tool() -> (t: AgentToolInfo)
    ensures
        t@ == retry_tool(),
{
    let mut arguments: Vec<AgentToolArgument> = Vec::new();
    arguments.push(argument("session_id", "string", true, "Session id whose last user message should be retried."));
    let t = tool("retry_last_message", "Network recovery operation: retry the last user message in a session, append only the assistant response, and audit the run.", false, arguments);
    assert(t@.arguments =~= retry_tool().arguments);
    t
}

pub open spec fn switch_tool() -> AgentToolInfoView {
    AgentToolInfoView {
        name: "switch_provider_profile"@,
        description: "Write operation: switch the active provider profile and append an audit event."@,
        read_only: false,
        arguments: seq![arg_view("profile_id"@, "string"@, true, "Provider profile id to activate."@)],
    }
}

fn make_switch_tool() -> (t: AgentToolInfo)
    ensures
        t@ == switch_tool(),
{
    let mut arguments: Vec<AgentToolArgument> = Vec::new();
    arguments.push(argument("profile_id", "string", true, "Provider profile id to activate."));
    let t = tool("switch_provider_profile", "Write operation: switch the active provider profile and append an audit event.", false, arguments);
    assert(t@.arguments =~= switch_tool().arguments);
    t
}

/// Whether the allowlist lets a write tool through: an empty allowlist lets
/// every write tool through.
pub open spec fn tool_enabled(name: Seq<char>, allowed: Seq<Seq<char>>) -> bool {
    allowed.len() == 0 || allowed.contains(name)
}

pub fn write_tool_enabled(tool_name: &str, allowed_tools: &[String]) -> (r: bool)
    ensures
        r == tool_enabled(tool_name@, strs_view(allowed_tools@)),
{
    if allowed_tools.len() == 0 {
        return true;
    }
    let mut i: usize = 0;
    while i < allowed_tools.len()
        invariant
            i <= allowed_tools@.len(),
            forall|k: int| 0 <= k < i ==> allowed_tools@[k]@ != tool_name@,
        decreases allowed_tools.len() - i,
    {
        if text::str_eq(allowed_tools[i].as_str(), tool_name) {
            assert(strs_view(allowed_tools@)[i as int] == tool_name@);
            return true;
        }
        i = i + 1;
    }
    assert forall|k: int| 0 <= k < strs_view(allowed_tools@).len() implies strs_view(allowed_tools@)[k] != tool_name@ by {
        assert(strs_view(allowed_tools@)[k] == allowed_tools@[k]@);
    }
    false
}

/// The tools the agent server offers: the read-only tools always; the
/// coaching report with network access; and, with writes allowed, each write
/// tool that the allowlist lets through, the model-calling ones only with
/// network access.
pub open spec fn catalogue(
    allow_writes: bool,
    allow_network: bool,
    allowed: Seq<Seq<char>>,
) -> Seq<AgentToolInfoView> {
    let base = seq![
        status_tool(),
        profiles_tool(),
        characters_tool(),
        diagnostics_tool(),
        sessions_tool(),
        export_tool(),
        audit_tool(),
    ];
    let a = if allow_network {
        base.push(coaching_tool())
    } else {
        base
    };
    if !allow_writes {
        a
    } else {
        let b = if tool_enabled("start_practice_session"@, allowed) {
            a.push(start_tool())
        } else {
            a
        };
        let c = if tool_enabled("append_session_message"@, allowed) {
            b.push(append_tool())
        } else {
            b
        };
        let d = if allow_network && tool_enabled("send_message"@, allowed) {
            c.push(send_tool())
        } else {
            c
        };
        let e = if allow_network && tool_enabled("retry_last_message"@, allowed) {
            d.push(retry_tool())
        } else {
            d
        };
        if tool_enabled("switch_provider_profile"@, allowed) {
            e.push(switch_tool())
        } else {
            e
        }
    }
}

pub open spec fn tools_report(
    allow_writes: bool,
    allow_network: bool,
    allowed: Seq<Seq<char>>,
) -> AgentToolsReportView {
    AgentToolsReportView {
        mode: if allow_writes {
            "allow-writes"@
        } else {
            "read-only"@
        },
        protocol: "speakmate-jsonl-rpc-v1+mcp-jsonrpc-2.0"@,
        network_enabled: allow_network,
        write_allowlist: if allow_writes {
            allowed
        } else {
            Seq::empty()
        },
        tools: catalogue(allow_writes, allow_network, allowed),
    }
}

fn push_tool(tools: &mut Vec<AgentToolInfo>, t: AgentToolInfo)
    ensures
        tools_view(final(tools)@) == tools_view(old(tools)@).push(t@),
{
    tools.push(t);
    assert(tools_view(tools@) =~= tools_view(old(tools)@).push(t@));
}

pub fn build_agent_tools_report(
    allow_writes: bool,
    allow_network: bool,
    allowed_tools: &[String],
) -> (r: AgentToolsReport)
    ensures
        r@ == tools_report(allow_writes, allow_network, strs_view(allowed_tools@)),
{
    let mut tools: Vec<AgentToolInfo> = Vec::new();
    push_tool(&mut tools, make_status_tool());
    push_tool(&mut tools, make_profiles_tool());
    push_tool(&mut tools, make_characters_tool());
    push_tool(&mut tools, make_diagnostics_tool());
    push_tool(&mut tools, make_sessions_tool());
    push_tool(&mut tools, make_export_tool());
    push_tool(&mut tools, make_audit_tool());
    if allow_network {
        push_tool(&mut tools, make_coaching_tool());
    }
    if allow_writes {
        if write_tool_enabled("start_practice_session", allowed_tools) {
            push_tool(&mut tools, make_start_tool());
        }
        if write_tool_enabled("append_session_message", allowed_tools) {
            push_tool(&mut tools, make_append_tool());
        }
        if allow_network && write_tool_enabled("send_message", allowed_tools) {
            push_tool(&mut tools, make_send_tool());
        }
        if allow_network && write_tool_enabled("retry_last_message", allowed_tools) {
            push_tool(&mut tools, make_retry_tool());
        }
        if write_tool_enabled("switch_provider_profile", allowed_tools) {
            push_tool(&mut tools, make_switch_tool());
        }
    }
    let write_allowlist = if allow_writes {
        let mut v: Vec<String> = Vec::new();
        let mut i: usize = 0;
        while i < allowed_tools.len()
            invariant
                i <= allowed_tools@.len(),
                v@ == allowed_tools@.subrange(0, i as int),
            decreases allowed_tools.len() - i,
        {
            v.push(allowed_tools[i].clone());
            i = i + 1;
            assert(v@ =~= allowed_tools@.subrange(0, i as int));
        }
        assert(v@ =~= allowed_tools@);
        v
    } else {
        Vec::new()
    };
    assert(strs_view(write_allowlist@) =~= (if allow_writes {
        strs_view(allowed_tools@)
    } else {
        Seq::<Seq<char>>::empty()
    }));
    assert(tools_view(tools@) =~= catalogue(allow_writes, allow_network, strs_view(allowed_tools@)));
    AgentToolsReport {
        mode: if allow_writes {
            text::owned("allow-writes")
        } else {
            text::owned("read-only")
        },
        protocol: text::owned("speakmate-jsonl-rpc-v1+mcp-jsonrpc-2.0"),
        network_enabled: allow_network,
        write_allowlist,
        tools,
    }
}

/// Without `--allow-writes` the catalogue holds read-only tools only.
pub proof fn lemma_read_only_catalogue(allow_network: bool, allowed: Seq<Seq<char>>)
    ensures
        forall|i: int|
            0 <= i < catalogue(false, allow_network, allowed).len() ==> (#[trigger] catalogue(
                false,
                allow_network,
                allowed,
            )[i]).read_only,
{
}

/// Every write tool in the catalogue is one that the allowlist lets through.
pub proof fn lemma_write_tools_allowed(
    allow_writes: bool,
    allow_network: bool,
    allowed: Seq<Seq<char>>,
)
    ensures
        forall|i: int|
            0 <= i < catalogue(allow_writes, allow_network, allowed).len() && !(
            #[trigger] catalogue(allow_writes, allow_network, allowed)[i]).read_only ==> allow_writes
                && tool_enabled(catalogue(allow_writes, allow_network, allowed)[i].name, allowed),
{
}


// ───────────────────────── gates ─────────────────────────

pub open spec fn write_gate(tool: Seq<char>, allow_writes: bool, allowed: Seq<Seq<char>>) -> Result<(), Seq<char>> {
    if !allow_writes {
        Err(tool + " requires agent serve --allow-writes --yes."@)
    } else if !tool_enabled(tool, allowed) {
        Err(tool + " is not enabled by this agent server allowlist."@)
    } else {
        Ok(())
    }
}

pub open spec fn network_gate(tool: Seq<char>, allow_network: bool) -> Result<(), Seq<char>> {
    if allow_network {
        Ok(())
    } else {
        Err(tool + " requires agent serve --allow-network."@)
    }
}

pub fn ensure_write_tool_enabled(tool_name: &str, allow_writes: bool, allowed_tools: &[String]) -> (r: Result<(), String>)
    ensures
        match r {
            Ok(()) => write_gate(tool_name@, allow_writes, strs_view(allowed_tools@)) is Ok,
            Err(m) => write_gate(tool_name@, allow_writes, strs_view(allowed_tools@)) == Err::<(), Seq<char>>(m@),
        },
{
    if !allow_writes {
        let mut m = text::owned(tool_name);
        m.append(" requires agent serve --allow-writes --yes.");
        return Err(m);
    }
    if !write_tool_enabled(tool_name, allowed_tools) {
        let mut m = text::owned(tool_name);
        m.append(" is not enabled by this agent server allowlist.");
        return Err(m);
    }
    Ok(())
}

pub fn ensure_network_enabled(tool_name: &str, allow_network: bool) -> (r: Result<(), String>)
    ensures
        match r {
            Ok(()) => network_gate(tool_name@, allow_network) is Ok,
            Err(m) => network_gate(tool_name@, allow_network) == Err::<(), Seq<char>>(m@),
        },
{
    if allow_network {
        Ok(())
    } else {
        let mut m = text::owned(tool_name);
        m.append(" requires agent serve --allow-network.");
        Err(m)
    }
}

/// The options of `agent serve` that the server accepts: stdio transport,
/// and either read-only mode or confirmed writes, with an allowlist only for
/// writes and network access only in one of those two modes.
pub open spec fn serve_options_check(
    read_only: bool,
    stdio: bool,
    allow_writes: bool,
    yes: bool,
    allow_network: bool,
    allowlist_empty: bool,
) -> Result<(), Seq<char>> {
    if !stdio {
        Err("agent serve currently requires --stdio."@)
    } else if read_only && allow_writes {
        Err("agent serve cannot combine --read-only and --allow-writes."@)
    } else if !allow_writes && !allowlist_empty {
        Err("agent serve --allow-tool requires --allow-writes."@)
    } else if allow_network && !allow_writes && !read_only {
        Err("agent serve --allow-network requires --read-only or --allow-writes --yes."@)
    } else if allow_writes && !yes {
        Err("agent serve --allow-writes requires --yes."@)
    } else if !allow_writes && !read_only {
        Err("agent serve currently requires either --read-only or --allow-writes --yes."@)
    } else {
        Ok(())
    }
}

fn fail(m: &str) -> (r: Result<(), String>)
    ensures
        r matches Err(e) && e@ == m@,
{
    Err(text::owned(m))
}

/// Checks the options of `agent serve` before the server reads any request.
pub fn check_serve_options(
    read_only: bool,
    stdio: bool,
    allow_writes: bool,
    yes: bool,
    allow_network: bool,
    allowed_tools: &[String],
) -> (r: Result<(), String>)
    ensures
        match r {
            Ok(()) => serve_options_check(read_only, stdio, allow_writes, yes, allow_network, allowed_tools@.len() == 0) is Ok,
            Err(m) => serve_options_check(read_only, stdio, allow_writes, yes, allow_network, allowed_tools@.len() == 0) == Err::<(), Seq<char>>(m@),
        },
{
    if !stdio {
        return fail("agent serve currently requires --stdio.");
    }
    if read_only && allow_writes {
        return fail("agent serve cannot combine --read-only and --allow-writes.");
    }
    if !allow_writes && allowed_tools.len() != 0 {
        return fail("agent serve --allow-tool requires --allow-writes.");
    }
    if allow_network && !allow_writes && !read_only {
        return fail("agent serve --allow-network requires --read-only or --allow-writes --yes.");
    }
    if allow_writes {
        if !yes {
            return fail("agent serve --allow-writes requires --yes.");
        }
    } else if !read_only {
        return fail("agent serve currently requires either --read-only or --allow-writes --yes.");
    }
    Ok(())
}

/// An accepted `agent serve` runs in exactly one of the two modes, and
/// writes only when confirmed.
pub proof fn lemma_serve_modes_exclusive(
    read_only: bool,
    stdio: bool,
    allow_writes: bool,
    yes: bool,
    allow_network: bool,
    allowlist_empty: bool,
)
    requires
        serve_options_check(read_only, stdio, allow_writes, yes, allow_network, allowlist_empty) is Ok,
    ensures
        stdio,
        read_only != allow_writes,
        allow_writes ==> yes,
        !allow_writes ==> allowlist_empty,
{
}

// ───────────────────────── tool calls ─────────────────────────

/// The tools that a request may call, by their canonical names.
#[derive(Debug, Clone, Copy, PartialEq, Eq, Structural)]
pub enum AgentTool {
    Status,
    ListProfiles,
    ListCharacters,
    Diagnostics,
    ListSessions,
    ExportSession,
    CoachingReport,
    ListAuditEvents,
    StartPracticeSession,
    AppendSessionMessage,
    SendMessage,
    RetryLastMessage,
    SwitchProviderProfile,
}

/// The tool that a request names, by its canonical name or an alias.
pub open spec fn agent_tool_named(name: Seq<char>) -> Option<AgentTool> {
    if name == "get_app_status"@ || name == "status"@ {
        Some(AgentTool::Status)
    } else if name == "list_provider_profiles"@ || name == "list_config_profiles"@ {
        Some(AgentTool::ListProfiles)
    } else if name == "list_characters"@ || name == "characters_list"@ {
        Some(AgentTool::ListCharacters)
    } else if name == "run_runtime_diagnostics"@ || name == "diagnostics"@ {
        Some(AgentTool::Diagnostics)
    } else if name == "list_sessions"@ {
        Some(AgentTool::ListSessions)
    } else if name == "export_session"@ {
        Some(AgentTool::ExportSession)
    } else if name == "generate_session_coaching_report"@ || name == "session_coach_report"@
        || name == "coach_report"@ {
        Some(AgentTool::CoachingReport)
    } else if name == "list_audit_events"@ || name == "audit_list"@ {
        Some(AgentTool::ListAuditEvents)
    } else if name == "start_practice_session"@ {
        Some(AgentTool::StartPracticeSession)
    } else if name == "append_session_message"@ {
        Some(AgentTool::AppendSessionMessage)
    } else if name == "send_message"@ {
        Some(AgentTool::SendMessage)
    } else if name == "retry_last_message"@ || name == "retry_last"@ {
        Some(AgentTool::RetryLastMessage)
    } else if name == "switch_provider_profile"@ {
        Some(AgentTool::SwitchProviderProfile)
    } else {
        None
    }
}

pub open spec fn is_write_tool(t: AgentTool) -> bool {
    t == AgentTool::StartPracticeSession || t == AgentTool::AppendSessionMessage || t
        == AgentTool::SendMessage || t == AgentTool::RetryLastMessage || t
        == AgentTool::SwitchProviderProfile
}

pub open spec fn needs_network(t: AgentTool) -> bool {
    t == AgentTool::CoachingReport || t == AgentTool::SendMessage || t
        == AgentTool::RetryLastMessage
}

pub open spec fn canonical_name(t: AgentTool) -> Seq<char> {
    match t {
        AgentTool::Status => "get_app_status"@,
        AgentTool::ListProfiles => "list_provider_profiles"@,
        AgentTool::ListCharacters => "list_characters"@,
        AgentTool::Diagnostics => "run_runtime_diagnostics"@,
        AgentTool::ListSessions => "list_sessions"@,
        AgentTool::ExportSession => "export_session"@,
        AgentTool::CoachingReport => "generate_session_coaching_report"@,
        AgentTool::ListAuditEvents => "list_audit_events"@,
        AgentTool::StartPracticeSession => "start_practice_session"@,
        AgentTool::AppendSessionMessage => "append_session_message"@,
        AgentTool::SendMessage => "send_message"@,
        AgentTool::RetryLastMessage => "retry_last_message"@,
        AgentTool::SwitchProviderProfile => "switch_provider_profile"@,
    }
}

/// The gates a tool passes before it runs: the write gate for write tools,
/// then the network gate for tools that call the model.
pub open spec fn tool_gates(t: AgentTool, allow_writes: bool, allow_network: bool, allowed: Seq<Seq<char>>) -> Result<(), Seq<char>> {
    let name = canonical_name(t);
    if is_write_tool(t) && write_gate(name, allow_writes, allowed) is Err {
        write_gate(name, allow_writes, allowed)
    } else if needs_network(t) {
        network_gate(name, allow_network)
    } else {
        Ok(())
    }
}

pub open spec fn resolve_tool(name: Seq<char>, allow_writes: bool, allow_network: bool, allowed: Seq<Seq<char>>) -> Result<AgentTool, Seq<char>> {
    match agent_tool_named(name) {
        None => Err("Unknown read-only agent tool: "@ + name),
        Some(t) => match tool_gates(t, allow_writes, allow_network, allowed) {
            Err(m) => Err(m),
            Ok(()) => Ok(t),
        },
    }
}

pub fn agent_tool_by_name(name: &str) -> (r: Option<AgentTool>)
    ensures
        r == agent_tool_named(name@),
{
    let n = text::to_chars(name);
    let n = n.as_slice();
    let is = |lit: &str| -> (b: bool)
        ensures
            b == (n@ == lit@),
        { text::str_eq_chars(lit, n) };
    if is("get_app_status") || is("status") {
        Some(AgentTool::Status)
    } else if is("list_provider_profiles") || is("list_config_profiles") {
        Some(AgentTool::ListProfiles)
    } else if is("list_characters") || is("characters_list") {
        Some(AgentTool::ListCharacters)
    } else if is("run_runtime_diagnostics") || is("diagnostics") {
        Some(AgentTool::Diagnostics)
    } else if is("list_sessions") {
        Some(AgentTool::ListSessions)
    } else if is("export_session") {
        Some(AgentTool::ExportSession)
    } else if is("generate_session_coaching_report") || is("session_coach_report") || is(
        "coach_report",
    ) {
        Some(AgentTool::CoachingReport)
    } else if is("list_audit_events") || is("audit_list") {
        Some(AgentTool::ListAuditEvents)
    } else if is("start_practice_session") {
        Some(AgentTool::StartPracticeSession)
    } else if is("append_session_message") {
        Some(AgentTool::AppendSessionMessage)
    } else if is("send_message") {
        Some(AgentTool::SendMessage)
    } else if is("retry_last_message") || is("retry_last") {
        Some(AgentTool::RetryLastMessage)
    } else if is("switch_provider_profile") {
        Some(AgentTool::SwitchProviderProfile)
    } else {
        None
    }
}

fn canonical_tool_name(t: AgentTool) -> (r: &'static str)
    ensures
        r@ == canonical_name(t),
{
    match t {
        AgentTool::Status => "get_app_status",
        AgentTool::ListProfiles => "list_provider_profiles",
        AgentTool::ListCharacters => "list_characters",
        AgentTool::Diagnostics => "run_runtime_diagnostics",
        AgentTool::ListSessions => "list_sessions",
        AgentTool::ExportSession => "export_session",
        AgentTool::CoachingReport => "generate_session_coaching_report",
        AgentTool::ListAuditEvents => "list_audit_events",
        AgentTool::StartPracticeSession => "start_practice_session",
        AgentTool::AppendSessionMessage => "append_session_message",
        AgentTool::SendMessage => "send_message",
        AgentTool::RetryLastMessage => "retry_last_message",
        AgentTool::SwitchProviderProfile => "switch_provider_profile",
    }
}

/// Finds the tool that a request calls and checks its gates, in the order
/// in which the agent server checks them.
pub fn resolve_agent_tool(
    tool_name: &str,
    allow_writes: bool,
    allow_network: bool,
    allowed_tools: &[String],
) -> (r: Result<AgentTool, String>)
    ensures
        match r {
            Ok(t) => resolve_tool(tool_name@, allow_writes, allow_network, strs_view(allowed_tools@)) == Ok::<AgentTool, Seq<char>>(t),
            Err(m) => resolve_tool(tool_name@, allow_writes, allow_network, strs_view(allowed_tools@)) == Err::<AgentTool, Seq<char>>(m@),
        },
{
    let t = match agent_tool_by_name(tool_name) {
        Some(t) => t,
        None => {
            let mut m = text::owned("Unknown read-only agent tool: ");
            m.append(tool_name);
            return Err(m);
        },
    };
    let name = canonical_tool_name(t);
    let write = match t {
        AgentTool::StartPracticeSession | AgentTool::AppendSessionMessage | AgentTool::SendMessage
        | AgentTool::RetryLastMessage | AgentTool::SwitchProviderProfile => true,
        _ => false,
    };
    let network = match t {
        AgentTool::CoachingReport | AgentTool::SendMessage | AgentTool::RetryLastMessage => true,
        _ => false,
    };
    if write {
        match ensure_write_tool_enabled(name, allow_writes, allowed_tools) {
            Ok(()) => {},
            Err(m) => {
                return Err(m);
            },
        }
    }
    if network {
        match ensure_network_enabled(name, allow_network) {
            Ok(()) => {},
            Err(m) => {
                return Err(m);
            },
        }
    }
    Ok(t)
}

/// A tool call that gets through is within the server's permissions.
pub proof fn lemma_resolved_tool_permitted(
    name: Seq<char>,
    allow_writes: bool,
    allow_network: bool,
    allowed: Seq<Seq<char>>,
)
    requires
        resolve_tool(name, allow_writes, allow_network, allowed) is Ok,
    ensures
        ({
            let t = resolve_tool(name, allow_writes, allow_network, allowed)->Ok_0;
            &&& is_write_tool(t) ==> allow_writes && tool_enabled(canonical_name(t), allowed)
            &&& needs_network(t) ==> allow_network
        }),
{
}

/// The `limit` argument of a listing tool: 50 when absent, else between 1
/// and 500.
pub open spec fn agent_limit_value(requested: Option<u64>) -> nat {
    let l: nat = match requested {
        Some(v) => (v as usize) as nat,
        None => 50,
    };
    if l < 1 {
        1
    } else if l > 500 {
        500
    } else {
        l
    }
}

pub fn agent_limit(requested: Option<u64>) -> (r: usize)
    ensures
        r as nat == agent_limit_value(requested),
        1 <= r <= 500,
{
    let l: usize = match requested {
        Some(v) => v as usize,
        None => 50,
    };
    if l < 1 {
        1
    } else if l > 500 {
        500
    } else {
        l
    }
}

/// The JSON-RPC error code for a failed request, by the words of its message.
pub open spec fn error_code_for(message: Seq<char>) -> int {
    if text::contains(message, "requires"@) || text::contains(message, "Invalid"@)
        || text::contains(message, "not enabled"@) {
        -32602
    } else if text::contains(message, "Unknown MCP method"@) || text::contains(
        message,
        "Unknown read-only agent tool"@,
    ) {
        -32601
    } else {
        -32603
    }
}

pub fn jsonrpc_error_code(message: &str) -> (r: i64)
    ensures
        r as int == error_code_for(message@),
{
    if text::str_contains(message, "requires") || text::str_contains(message, "Invalid")
        || text::str_contains(message, "not enabled") {
        -32602
    } else if text::str_contains(message, "Unknown MCP method") || text::str_contains(
        message,
        "Unknown read-only agent tool",
    ) {
        -32601
    } else {
        -32603
    }
}

// ───────────────────────── request routing ─────────────────────────

/// What the agent server does with one request.
#[derive(Debug, Clone)]
pub enum AgentRoute {
    /// A JSON-RPC 2.0 notification that gets no reply.
    NoReply,
    Initialize { mcp: bool },
    ListTools { mcp: bool },
    CallTool { mcp: bool },
    Ping,
    Shutdown { mcp: bool },
    /// A legacy request that names its tool directly.
    NamedTool { name: String },
    /// An error reply.
    Reject { mcp: bool, message: String },
}

pub enum AgentRouteView {
    NoReply,
    Initialize { mcp: bool },
    ListTools { mcp: bool },
    CallTool { mcp: bool },
    Ping,
    Shutdown { mcp: bool },
    NamedTool { name: Seq<char> },
    Reject { mcp: bool, message: Seq<char> },
}

impl View for AgentRoute {
    type V = AgentRouteView;

    open spec fn view(&self) -> AgentRouteView {
        match self {
            AgentRoute::NoReply => AgentRouteView::NoReply,
            AgentRoute::Initialize { mcp } => AgentRouteView::Initialize { mcp: *mcp },
            AgentRoute::ListTools { mcp } => AgentRouteView::ListTools { mcp: *mcp },
            AgentRoute::CallTool { mcp } => AgentRouteView::CallTool { mcp: *mcp },
            AgentRoute::Ping => AgentRouteView::Ping,
            AgentRoute::Shutdown { mcp } => AgentRouteView::Shutdown { mcp: *mcp },
            AgentRoute::NamedTool { name } => AgentRouteView::NamedTool { name: name@ },
            AgentRoute::Reject { mcp, message } => AgentRouteView::Reject { mcp: *mcp, message: message@ },
        }
    }
}

pub open spec fn opt_str_view(o: Option<&str>) -> Option<Seq<char>> {
    match o {
        Some(s) => Some(s@),
        None => None,
    }
}

/// Requests that declare `"jsonrpc": "2.0"` follow MCP; the others follow the
/// line protocol, where a request may name a tool by `tool` or by `method`.
pub open spec fn route(jsonrpc: Option<Seq<char>>, method: Option<Seq<char>>, tool: Option<Seq<char>>) -> AgentRouteView {
    let m = match method {
        Some(m) => m,
        None => Seq::<char>::empty(),
    };
    if jsonrpc == Some("2.0"@) {
        if m == "notifications/initialized"@ {
            AgentRouteView::NoReply
        } else if m == "initialize"@ {
            AgentRouteView::Initialize { mcp: true }
        } else if m == "tools/list"@ {
            AgentRouteView::ListTools { mcp: true }
        } else if m == "tools/call"@ {
            AgentRouteView::CallTool { mcp: true }
        } else if m == "ping"@ {
            AgentRouteView::Ping
        } else if m == "shutdown"@ {
            AgentRouteView::Shutdown { mcp: true }
        } else {
            AgentRouteView::Reject { mcp: true, message: "Unknown MCP method: "@ + m }
        }
    } else if m == "initialize"@ {
        AgentRouteView::Initialize { mcp: false }
    } else if m == "tools/list"@ || m == "list_tools"@ {
        AgentRouteView::ListTools { mcp: false }
    } else if m == "tools/call"@ {
        AgentRouteView::CallTool { mcp: false }
    } else if m == "shutdown"@ {
        AgentRouteView::Shutdown { mcp: false }
    } else {
        let named = match tool {
            Some(t) => Some(t),
            None => method,
        };
        match named {
            Some(n) => if n == "shutdown"@ {
                AgentRouteView::Shutdown { mcp: false }
            } else {
                AgentRouteView::NamedTool { name: n }
            },
            None => AgentRouteView::Reject {
                mcp: false,
                message: "Agent request requires method or tool."@,
            },
        }
    }
}

pub fn route_agent_request(jsonrpc: Option<&str>, method: Option<&str>, tool: Option<&str>) -> (r: AgentRoute)
    ensures
        r@ == route(opt_str_view(jsonrpc), opt_str_view(method), opt_str_view(tool)),
{
    let m: &str = match method {
        Some(m) => m,
        None => "",
    };
    proof {
        reveal_strlit("");
        assert(""@ =~= Seq::<char>::empty());
    }
    let mcp = match jsonrpc {
        Some(j) => text::str_eq(j, "2.0"),
        None => false,
    };
    if mcp {
        if text::str_eq(m, "notifications/initialized") {
            AgentRoute::NoReply
        } else if text::str_eq(m, "initialize") {
            AgentRoute::Initialize { mcp: true }
        } else if text::str_eq(m, "tools/list") {
            AgentRoute::ListTools { mcp: true }
        } else if text::str_eq(m, "tools/call") {
            AgentRoute::CallTool { mcp: true }
        } else if text::str_eq(m, "ping") {
            AgentRoute::Ping
        } else if text::str_eq(m, "shutdown") {
            AgentRoute::Shutdown { mcp: true }
        } else {
            let mut message = text::owned("Unknown MCP method: ");
            message.append(m);
            AgentRoute::Reject { mcp: true, message }
        }
    } else if text::str_eq(m, "initialize") {
        AgentRoute::Initialize { mcp: false }
    } else if text::str_eq(m, "tools/list") || text::str_eq(m, "list_tools") {
        AgentRoute::ListTools { mcp: false }
    } else if text::str_eq(m, "tools/call") {
        AgentRoute::CallTool { mcp: false }
    } else if text::str_eq(m, "shutdown") {
        AgentRoute::Shutdown { mcp: false }
    } else {
        let named = match tool {
            Some(t) => Some(t),
            None => method,
        };
        match named {
            Some(n) => if text::str_eq(n, "shutdown") {
                AgentRoute::Shutdown { mcp: false }
            } else {
                AgentRoute::NamedTool { name: text::owned(n) }
            },
            None => AgentRoute::Reject {
                mcp: false,
                message: text::owned("Agent request requires method or tool."),
            },
        }
    }
}

// ───────────────────────── tool arguments ─────────────────────────

/// The arguments of a tool call: each member of the JSON object with its
/// string value (none when the member is not a string), and the `limit`
/// member when it is a non-negative integer.
#[derive(Debug, Clone)]
pub struct AgentArguments {
    pub members: Vec<(String, Option<String>)>,
    pub limit: Option<u64>,
}

/// The member named `key`, if the arguments have one.
#[verifier::opaque]
pub open spec fn member(members: Seq<(String, Option<String>)>, key: Seq<char>) -> Option<Option<Seq<char>>> {
    if exists|i: int| 0 <= i < members.len() && members[i].0@ == key {
        let i = choose|i: int| 0 <= i < members.len() && members[i].0@ == key && forall|j: int| 0 <= j < i ==> members[j].0@ != key;
        Some(crate::cli::opt_view(members[i].1))
    } else {
        None
    }
}

/// The string value of the member named `key`.
pub open spec fn arg_str(members: Seq<(String, Option<String>)>, key: Seq<char>) -> Option<Seq<char>> {
    match member(members, key) {
        Some(Some(v)) => Some(v),
        _ => None,
    }
}

/// The string value of the member `a`, or, when there is no member `a`,
/// of the member `b` (a member `a` that is not a string gives nothing).
pub open spec fn arg_either(members: Seq<(String, Option<String>)>, a: Seq<char>, b: Seq<char>) -> Option<Seq<char>> {
    match member(members, a) {
        Some(v) => v,
        None => match member(members, b) {
            Some(v) => v,
            None => None,
        },
    }
}

/// The string value of `a`, else that of `b`.
pub open spec fn arg_or(members: Seq<(String, Option<String>)>, a: Seq<char>, b: Seq<char>) -> Option<Seq<char>> {
    match arg_str(members, a) {
        Some(v) => Some(v),
        None => arg_str(members, b),
    }
}

fn find_member(members: &Vec<(String, Option<String>)>, key: &str) -> (r: Option<Option<String>>)
    ensures
        match r {
            Some(v) => member(members@, key@) == Some(crate::cli::opt_view(v)),
            None => member(members@, key@) is None,
        },
{
    let mut i: usize = 0;
    while i < members.len()
        invariant
            i <= members@.len(),
            forall|j: int| 0 <= j < i ==> members@[j].0@ != key@,
        decreases members.len() - i,
    {
        if text::str_eq(members[i].0.as_str(), key) {
            proof {
                reveal(member);
                let m = members@;
                let k = choose|k: int| 0 <= k < m.len() && m[k].0@ == key@ && forall|j: int| 0 <= j < k ==> m[j].0@ != key@;
                if k < i {
                    assert(m[k].0@ != key@);
                }
                if k > i {
                    assert(m[i as int].0@ != key@);
                }
            }
            return Some(crate::cli::clone_opt(&members[i].1));
        }
        i = i + 1;
    }
    proof {
        reveal(member);
    }
    None
}

fn string_arg(members: &Vec<(String, Option<String>)>, key: &str) -> (r: Option<String>)
    ensures
        crate::cli::opt_view(r) == arg_str(members@, key@),
{
    match find_member(members, key) {
        Some(Some(v)) => Some(v),
        _ => None,
    }
}

fn either_arg(members: &Vec<(String, Option<String>)>, a: &str, b: &str) -> (r: Option<String>)
    ensures
        crate::cli::opt_view(r) == arg_either(members@, a@, b@),
{
    match find_member(members, a) {
        Some(v) => v,
        None => match find_member(members, b) {
            Some(v) => v,
            None => None,
        },
    }
}

fn or_arg(members: &Vec<(String, Option<String>)>, a: &str, b: &str) -> (r: Option<String>)
    ensures
        crate::cli::opt_view(r) == arg_or(members@, a@, b@),
{
    match string_arg(members, a) {
        Some(v) => Some(v),
        None => string_arg(members, b),
    }
}

/// What a tool call asks the server to do, with its arguments settled.
#[derive(Debug, Clone)]
pub enum AgentCall {
    Status,
    ListProfiles,
    ListCharacters { limit: usize },
    Diagnostics,
    ListSessions { limit: usize },
    ExportSession { session_id: String },
    CoachingReport { session_id: String },
    ListAuditEvents { limit: usize, filter: crate::cli::audit::AuditFilter },
    StartPracticeSession { character_id: String, title: Option<String>, mode_id: Option<String>, scenario_id: Option<String> },
    AppendSessionMessage { session_id: String, role: String, content: String },
    SendMessage { session_id: String, content: String },
    RetryLastMessage { session_id: String },
    SwitchProviderProfile { profile_id: String },
}

pub enum AgentCallView {
    Status,
    ListProfiles,
    ListCharacters { limit: nat },
    Diagnostics,
    ListSessions { limit: nat },
    ExportSession { session_id: Seq<char> },
    CoachingReport { session_id: Seq<char> },
    ListAuditEvents { limit: nat, filter: crate::cli::audit::AuditFilterView },
    StartPracticeSession {
        character_id: Seq<char>,
        title: Option<Seq<char>>,
        mode_id: Option<Seq<char>>,
        scenario_id: Option<Seq<char>>,
    },
    AppendSessionMessage { session_id: Seq<char>, role: Seq<char>, content: Seq<char> },
    SendMessage { session_id: Seq<char>, content: Seq<char> },
    RetryLastMessage { session_id: Seq<char> },
    SwitchProviderProfile { profile_id: Seq<char> },
}

impl View for AgentCall {
    type V = AgentCallView;

    open spec fn view(&self) -> AgentCallView {
        match self {
            AgentCall::Status => AgentCallView::Status,
            AgentCall::ListProfiles => AgentCallView::ListProfiles,
            AgentCall::ListCharacters { limit } => AgentCallView::ListCharacters { limit: *limit as nat },
            AgentCall::Diagnostics => AgentCallView::Diagnostics,
            AgentCall::ListSessions { limit } => AgentCallView::ListSessions { limit: *limit as nat },
            AgentCall::ExportSession { session_id } => AgentCallView::ExportSession { session_id: session_id@ },
            AgentCall::CoachingReport { session_id } => AgentCallView::CoachingReport { session_id: session_id@ },
            AgentCall::ListAuditEvents { limit, filter } => AgentCallView::ListAuditEvents {
                limit: *limit as nat,
                filter: filter@,
            },
            AgentCall::StartPracticeSession { character_id, title, mode_id, scenario_id } =>
                AgentCallView::StartPracticeSession {
                character_id: character_id@,
                title: crate::cli::opt_view(*title),
                mode_id: crate::cli::opt_view(*mode_id),
                scenario_id: crate::cli::opt_view(*scenario_id),
            },
            AgentCall::AppendSessionMessage { session_id, role, content } => AgentCallView::AppendSessionMessage {
                session_id: session_id@,
                role: role@,
                content: content@,
            },
            AgentCall::SendMessage { session_id, content } => AgentCallView::SendMessage {
                session_id: session_id@,
                content: content@,
            },
            AgentCall::RetryLastMessage { session_id } => AgentCallView::RetryLastMessage { session_id: session_id@ },
            AgentCall::SwitchProviderProfile { profile_id } => AgentCallView::SwitchProviderProfile {
                profile_id: profile_id@,
            },
        }
    }
}

/// A required argument, or the error that names it.
pub open spec fn required(v: Option<Seq<char>>, tool: Seq<char>, arg: Seq<char>) -> Result<Seq<char>, Seq<char>> {
    match v {
        Some(x) => Ok(x),
        None => Err(tool + " requires arguments."@ + arg + "."@),
    }
}

/// The call a request makes: the tool must exist and pass its gates, then
/// its required arguments must be present.
pub open spec fn agent_call(
    tool_name: Seq<char>,
    members: Seq<(String, Option<String>)>,
    limit: Option<u64>,
    allow_writes: bool,
    allow_network: bool,
    allowed: Seq<Seq<char>>,
) -> Result<AgentCallView, Seq<char>> {
    match resolve_tool(tool_name, allow_writes, allow_network, allowed) {
        Err(m) => Err(m),
        Ok(t) => call_for_tool(t, members, limit),
    }
}

/// The call a resolved tool makes with the given arguments.
pub open spec fn call_for_tool(t: AgentTool, members: Seq<(String, Option<String>)>, limit: Option<u64>) -> Result<
    AgentCallView,
    Seq<char>,
> {
    let lim = agent_limit_value(limit);
    match t {
            AgentTool::Status => Ok(AgentCallView::Status),
            AgentTool::ListProfiles => Ok(AgentCallView::ListProfiles),
            AgentTool::ListCharacters => Ok(AgentCallView::ListCharacters { limit: lim }),
            AgentTool::Diagnostics => Ok(AgentCallView::Diagnostics),
            AgentTool::ListSessions => Ok(AgentCallView::ListSessions { limit: lim }),
            AgentTool::ExportSession => match required(arg_either(members, "session_id"@, "session"@), "export_session"@, "session_id"@) {
                Ok(s) => Ok(AgentCallView::ExportSession { session_id: s }),
                Err(m) => Err(m),
            },
            AgentTool::CoachingReport => match required(
                arg_either(members, "session_id"@, "session"@),
                "generate_session_coaching_report"@,
                "session_id"@,
            ) {
                Ok(s) => Ok(AgentCallView::CoachingReport { session_id: s }),
                Err(m) => Err(m),
            },
            AgentTool::ListAuditEvents => Ok(
                AgentCallView::ListAuditEvents {
                    limit: lim,
                    filter: crate::cli::audit::filter_from(
                        arg_str(members, "operation"@),
                        arg_str(members, "actor"@),
                        arg_str(members, "result"@),
                        arg_or(members, "profile_id"@, "profile"@),
                        arg_or(members, "session_id"@, "session"@),
                        arg_or(members, "message_id"@, "message"@),
                        arg_or(members, "character_id"@, "character"@),
                    ),
                },
            ),
            AgentTool::StartPracticeSession => match required(
                arg_either(members, "character_id"@, "character"@),
                "start_practice_session"@,
                "character_id"@,
            ) {
                Ok(c) => Ok(
                    AgentCallView::StartPracticeSession {
                        character_id: c,
                        title: arg_str(members, "title"@),
                        mode_id: arg_either(members, "mode_id"@, "mode"@),
                        scenario_id: arg_either(members, "scenario_id"@, "scenario"@),
                    },
                ),
                Err(m) => Err(m),
            },
            AgentTool::AppendSessionMessage => match required(
                arg_either(members, "session_id"@, "session"@),
                "append_session_message"@,
                "session_id"@,
            ) {
                Err(m) => Err(m),
                Ok(s) => match required(arg_str(members, "role"@), "append_session_message"@, "role"@) {
                    Err(m) => Err(m),
                    Ok(r) => match required(arg_str(members, "content"@), "append_session_message"@, "content"@) {
                        Err(m) => Err(m),
                        Ok(c) => Ok(AgentCallView::AppendSessionMessage { session_id: s, role: r, content: c }),
                    },
                },
            },
            AgentTool::SendMessage => match required(arg_either(members, "session_id"@, "session"@), "send_message"@, "session_id"@) {
                Err(m) => Err(m),
                Ok(s) => match required(arg_str(members, "content"@), "send_message"@, "content"@) {
                    Err(m) => Err(m),
                    Ok(c) => Ok(AgentCallView::SendMessage { session_id: s, content: c }),
                },
            },
            AgentTool::RetryLastMessage => match required(
                arg_either(members, "session_id"@, "session"@),
                "retry_last_message"@,
                "session_id"@,
            ) {
                Ok(s) => Ok(AgentCallView::RetryLastMessage { session_id: s }),
                Err(m) => Err(m),
            },
            AgentTool::SwitchProviderProfile => match required(
                arg_either(members, "profile_id"@, "profile"@),
                "switch_provider_profile"@,
                "profile_id"@,
            ) {
                Ok(p) => Ok(AgentCallView::SwitchProviderProfile { profile_id: p }),
                Err(m) => Err(m),
            },
    }
}

fn require_arg(v: Option<String>, tool: &str, arg: &str) -> (r: Result<String, String>)
    ensures
        match required(crate::cli::opt_view(v), tool@, arg@) {
            Ok(x) => r is Ok && r->Ok_0@ == x,
            Err(m) => r is Err && r->Err_0@ == m,
        },
{
    match v {
        Some(x) => Ok(x),
        None => {
            let mut m = text::owned(tool);
            m.append(" requires arguments.");
            m.append(arg);
            m.append(".");
            Err(m)
        },
    }
}

/// Settles what a tool call asks for.
pub fn plan_agent_call(
    tool_name: &str,
    arguments: &AgentArguments,
    allow_writes: bool,
    allow_network: bool,
    allowed_tools: &[String],
) -> (r: Result<AgentCall, String>)
    ensures
        match agent_call(tool_name@, arguments.members@, arguments.limit, allow_writes, allow_network, strs_view(allowed_tools@)) {
            Ok(c) => r is Ok && r->Ok_0@ == c,
            Err(m) => r is Err && r->Err_0@ == m,
        },
{
    let t = resolve_agent_tool(tool_name, allow_writes, allow_network, allowed_tools)?;
    call_with_tool(t, arguments)
}

/// Whether `r` is the call `call_for_tool` gives.
pub open spec fn call_matches(r: Result<AgentCall, String>, t: AgentTool, members: Seq<(String, Option<String>)>, limit: Option<u64>) -> bool {
    match call_for_tool(t, members, limit) {
        Ok(c) => r is Ok && r->Ok_0@ == c,
        Err(m) => r is Err && r->Err_0@ == m,
    }
}

fn session_tool_call(t: AgentTool, arguments: &AgentArguments) -> (r: Result<AgentCall, String>)
    requires
        t == AgentTool::ExportSession || t == AgentTool::CoachingReport || t == AgentTool::RetryLastMessage,
    ensures
        call_matches(r, t, arguments.members@, arguments.limit),
{
    let members = &arguments.members;
    let v = either_arg(members, "session_id", "session");
    match t {
        AgentTool::ExportSession => {
            let s = require_arg(v, "export_session", "session_id")?;
            Ok(AgentCall::ExportSession { session_id: s })
        },
        AgentTool::CoachingReport => {
            let s = require_arg(v, "generate_session_coaching_report", "session_id")?;
            Ok(AgentCall::CoachingReport { session_id: s })
        },
        _ => {
            let s = require_arg(v, "retry_last_message", "session_id")?;
            Ok(AgentCall::RetryLastMessage { session_id: s })
        },
    }
}

fn audit_tool_call(arguments: &AgentArguments) -> (r: Result<AgentCall, String>)
    ensures
        call_matches(r, AgentTool::ListAuditEvents, arguments.members@, arguments.limit),
{
    let members = &arguments.members;
    let lim = agent_limit(arguments.limit);
    let filter = crate::cli::audit::build_audit_filter(
        string_arg(members, "operation"),
        string_arg(members, "actor"),
        string_arg(members, "result"),
        or_arg(members, "profile_id", "profile"),
        or_arg(members, "session_id", "session"),
        or_arg(members, "message_id", "message"),
        or_arg(members, "character_id", "character"),
    );
    Ok(AgentCall::ListAuditEvents { limit: lim, filter })
}

fn start_tool_call(arguments: &AgentArguments) -> (r: Result<AgentCall, String>)
    ensures
        call_matches(r, AgentTool::StartPracticeSession, arguments.members@, arguments.limit),
{
    let members = &arguments.members;
    let c = require_arg(either_arg(members, "character_id", "character"), "start_practice_session", "character_id")?;
    Ok(
        AgentCall::StartPracticeSession {
            character_id: c,
            title: string_arg(members, "title"),
            mode_id: either_arg(members, "mode_id", "mode"),
            scenario_id: either_arg(members, "scenario_id", "scenario"),
        },
    )
}

fn append_tool_call(arguments: &AgentArguments) -> (r: Result<AgentCall, String>)
    ensures
        call_matches(r, AgentTool::AppendSessionMessage, arguments.members@, arguments.limit),
{
    let members = &arguments.members;
    let s = require_arg(either_arg(members, "session_id", "session"), "append_session_message", "session_id")?;
    let role = require_arg(string_arg(members, "role"), "append_session_message", "role")?;
    let content = require_arg(string_arg(members, "content"), "append_session_message", "content")?;
    Ok(AgentCall::AppendSessionMessage { session_id: s, role, content })
}

fn send_tool_call(arguments: &AgentArguments) -> (r: Result<AgentCall, String>)
    ensures
        call_matches(r, AgentTool::SendMessage, arguments.members@, arguments.limit),
{
    let members = &arguments.members;
    let s = require_arg(either_arg(members, "session_id", "session"), "send_message", "session_id")?;
    let content = require_arg(string_arg(members, "content"), "send_message", "content")?;
    Ok(AgentCall::SendMessage { session_id: s, content })
}

fn switch_tool_call(arguments: &AgentArguments) -> (r: Result<AgentCall, String>)
    ensures
        call_matches(r, AgentTool::SwitchProviderProfile, arguments.members@, arguments.limit),
{
    let p = require_arg(
        either_arg(&arguments.members, "profile_id", "profile"),
        "switch_provider_profile",
        "profile_id",
    )?;
    Ok(AgentCall::SwitchProviderProfile { profile_id: p })
}

fn call_with_tool(t: AgentTool, arguments: &AgentArguments) -> (r: Result<AgentCall, String>)
    ensures
        call_matches(r, t, arguments.members@, arguments.limit),
{
    let lim = agent_limit(arguments.limit);
    match t {
        AgentTool::Status => Ok(AgentCall::Status),
        AgentTool::ListProfiles => Ok(AgentCall::ListProfiles),
        AgentTool::ListCharacters => Ok(AgentCall::ListCharacters { limit: lim }),
        AgentTool::Diagnostics => Ok(AgentCall::Diagnostics),
        AgentTool::ListSessions => Ok(AgentCall::ListSessions { limit: lim }),
        AgentTool::ExportSession | AgentTool::CoachingReport | AgentTool::RetryLastMessage => session_tool_call(t, arguments),
        AgentTool::ListAuditEvents => audit_tool_call(arguments),
        AgentTool::StartPracticeSession => start_tool_call(arguments),
        AgentTool::AppendSessionMessage => append_tool_call(arguments),
        AgentTool::SendMessage => send_tool_call(arguments),
        AgentTool::SwitchProviderProfile => switch_tool_call(arguments),
    }
}

// ───────────────────────── MCP ─────────────────────────

/// The name a `tools/call` request calls.
pub fn tool_call_name(name: Option<&str>) -> (r: Result<&str, String>)
    ensures
        match name {
            Some(n) => r is Ok && r->Ok_0@ == n@,
            None => r is Err && r->Err_0@ == "tools/call requires params.name."@,
        },
{
    match name {
        Some(n) => Ok(n),
        None => Err(text::owned("tools/call requires params.name.")),
    }
}

/// The JSON Schema type of an argument kind: numbers and booleans as such,
/// anything else as a string.
pub open spec fn schema_type(kind: Seq<char>) -> Seq<char> {
    if kind == "number"@ {
        "number"@
    } else if kind == "boolean"@ {
        "boolean"@
    } else {
        "string"@
    }
}

pub fn input_schema_type(kind: &str) -> (r: &'static str)
    ensures
        r@ == schema_type(kind@),
{
    if text::str_eq(kind, "number") {
        "number"
    } else if text::str_eq(kind, "boolean") {
        "boolean"
    } else {
        "string"
    }
}

/// The names of the required arguments, in order.
pub open spec fn required_names(arguments: Seq<AgentToolArgument>) -> Seq<Seq<char>>
    decreases arguments.len(),
{
    if arguments.len() == 0 {
        Seq::empty()
    } else {
        let prev = required_names(arguments.drop_last());
        if arguments.last().required {
            prev.push(arguments.last().name@)
        } else {
            prev
        }
    }
}

pub fn required_arguments(arguments: &[AgentToolArgument]) -> (r: Vec<String>)
    ensures
        strs_view(r@) == required_names(arguments@),
{
    let mut out: Vec<String> = Vec::new();
    let mut i: usize = 0;
    while i < arguments.len()
        invariant
            i <= arguments@.len(),
            strs_view(out@) == required_names(arguments@.subrange(0, i as int)),
        decreases arguments.len() - i,
    {
        proof {
            assert(arguments@.subrange(0, i + 1).drop_last() =~= arguments@.subrange(0, i as int));
        }
        if arguments[i].required {
            let ghost before = strs_view(out@);
            out.push(arguments[i].name.clone());
            assert(strs_view(out@) =~= before.push(arguments@[i as int].name@));
        }
        i = i + 1;
    }
    proof {
        assert(arguments@.subrange(0, i as int) =~= arguments@);
    }
    out
}

/// What an MCP client is told the server offers.
pub fn mcp_instructions(allow_writes: bool) -> (r: &'static str)
    ensures
        allow_writes ==> r@ == "SpeakMate exposes local speaking-practice diagnostics, profiles, sessions, audit events, and a guarded provider-profile switch tool. Tools never return API keys. Write mode is enabled only because the server was started with --allow-writes --yes."@,
        !allow_writes ==> r@ == "SpeakMate exposes local speaking-practice diagnostics, profiles, sessions, and audit events. Tools are read-only in MCP mode and never return API keys."@,
{
    if allow_writes {
        "SpeakMate exposes local speaking-practice diagnostics, profiles, sessions, audit events, and a guarded provider-profile switch tool. Tools never return API keys. Write mode is enabled only because the server was started with --allow-writes --yes."
    } else {
        "SpeakMate exposes local speaking-practice diagnostics, profiles, sessions, and audit events. Tools are read-only in MCP mode and never return API keys."
    }
}

} // verus!
