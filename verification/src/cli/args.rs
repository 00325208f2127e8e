//! Command-line argument parsing for the CLI companion.
//!
//! Arguments are read left to right. Flags set switches, options take the next
//! argument (or the text after `=`) as their value, and everything that does
//! not start with `-` is a word of the command. The words then select the
//! command.

use vstd::prelude::*;
use crate::cli::{clone_opt, clone_strings, opt_view, strs_view};
use crate::cli::audit::{build_audit_filter, filter_from, AuditFilter, AuditFilterView};
use crate::text;

verus! {

// ───────────────────────── commands ─────────────────────────

#[derive(Debug, Clone)]
pub enum Command {
    Help,
    Status,
    ProfilesList,
    ProfileSwitch { profile_id: String, yes: bool },
    CharacterList { limit: usize },
    DiagnosticsRun,
    SessionList { limit: usize },
    SessionStart {
        character_id: String,
        title: Option<String>,
        mode_id: Option<String>,
        scenario_id: Option<String>,
        yes: bool,
    },
    SessionAppendMessage { session_id: String, role: String, content: String, yes: bool },
    SessionSendMessage { session_id: String, content: String, yes: bool, allow_network: bool },
    SessionRetryLastMessage { session_id: String, yes: bool, allow_network: bool },
    SessionCoachReport { session_id: String, allow_network: bool },
    SessionExport { session_id: String },
    AuditList { limit: usize, filter: AuditFilter },
    AuditExport { filter: AuditFilter },
    AgentToolsList { allow_writes: bool, allow_network: bool, allowed_tools: Vec<String> },
    AgentServe {
        read_only: bool,
        stdio: bool,
        allow_writes: bool,
        yes: bool,
        allow_network: bool,
        allowed_tools: Vec<String>,
    },
}

pub enum CommandView {
    Help,
    Status,
    ProfilesList,
    ProfileSwitch { profile_id: Seq<char>, yes: bool },
    CharacterList { limit: nat },
    DiagnosticsRun,
    SessionList { limit: nat },
    SessionStart {
        character_id: Seq<char>,
        title: Option<Seq<char>>,
        mode_id: Option<Seq<char>>,
        scenario_id: Option<Seq<char>>,
        yes: bool,
    },
    SessionAppendMessage { session_id: Seq<char>, role: Seq<char>, content: Seq<char>, yes: bool },
    SessionSendMessage { session_id: Seq<char>, content: Seq<char>, yes: bool, allow_network: bool },
    SessionRetryLastMessage { session_id: Seq<char>, yes: bool, allow_network: bool },
    SessionCoachReport { session_id: Seq<char>, allow_network: bool },
    SessionExport { session_id: Seq<char> },
    AuditList { limit: nat, filter: AuditFilterView },
    AuditExport { filter: AuditFilterView },
    AgentToolsList { allow_writes: bool, allow_network: bool, allowed_tools: Seq<Seq<char>> },
    AgentServe {
        read_only: bool,
        stdio: bool,
        allow_writes: bool,
        yes: bool,
        allow_network: bool,
        allowed_tools: Seq<Seq<char>>,
    },
}

impl View for Command {
    type V = CommandView;

    open spec fn view(&self) -> CommandView {
        match self {
            Command::Help => CommandView::Help,
            Command::Status => CommandView::Status,
            Command::ProfilesList => CommandView::ProfilesList,
            Command::ProfileSwitch { profile_id, yes } => CommandView::ProfileSwitch {
                profile_id: profile_id@,
                yes: *yes,
            },
            Command::CharacterList { limit } => CommandView::CharacterList { limit: *limit as nat },
            Command::DiagnosticsRun => CommandView::DiagnosticsRun,
            Command::SessionList { limit } => CommandView::SessionList { limit: *limit as nat },
            Command::SessionStart { character_id, title, mode_id, scenario_id, yes } =>
                CommandView::SessionStart {
                character_id: character_id@,
                title: opt_view(*title),
                mode_id: opt_view(*mode_id),
                scenario_id: opt_view(*scenario_id),
                yes: *yes,
            },
            Command::SessionAppendMessage { session_id, role, content, yes } =>
                CommandView::SessionAppendMessage {
                session_id: session_id@,
                role: role@,
                content: content@,
                yes: *yes,
            },
            Command::SessionSendMessage { session_id, content, yes, allow_network } =>
                CommandView::SessionSendMessage {
                session_id: session_id@,
                content: content@,
                yes: *yes,
                allow_network: *allow_network,
            },
            Command::SessionRetryLastMessage { session_id, yes, allow_network } =>
                CommandView::SessionRetryLastMessage {
                session_id: session_id@,
                yes: *yes,
                allow_network: *allow_network,
            },
            Command::SessionCoachReport { session_id, allow_network } =>
                CommandView::SessionCoachReport {
                session_id: session_id@,
                allow_network: *allow_network,
            },
            Command::SessionExport { session_id } => CommandView::SessionExport {
                session_id: session_id@,
            },
            Command::AuditList { limit, filter } => CommandView::AuditList {
                limit: *limit as nat,
                filter: filter@,
            },
            Command::AuditExport { filter } => CommandView::AuditExport { filter: filter@ },
            Command::AgentToolsList { allow_writes, allow_network, allowed_tools } =>
                CommandView::AgentToolsList {
                allow_writes: *allow_writes,
                allow_network: *allow_network,
                allowed_tools: strs_view(allowed_tools@),
            },
            Command::AgentServe {
                read_only,
                stdio,
                allow_writes,
                yes,
                allow_network,
                allowed_tools,
            } => CommandView::AgentServe {
                read_only: *read_only,
                stdio: *stdio,
                allow_writes: *allow_writes,
                yes: *yes,
                allow_network: *allow_network,
                allowed_tools: strs_view(allowed_tools@),
            },
        }
    }
}

/// A parsed command line.
#[derive(Debug, Clone)]
pub struct CliOptions {
    pub command: Command,
    pub json: bool,
    pub db_override: Option<String>,
}

pub struct CliOptionsView {
    pub command: CommandView,
    pub json: bool,
    pub db_override: Option<Seq<char>>,
}

impl View for CliOptions {
    type V = CliOptionsView;

    open spec fn view(&self) -> CliOptionsView {
        CliOptionsView { command: self.command@, json: self.json, db_override: opt_view(self.db_override) }
    }
}

// ───────────────────────── --limit ─────────────────────────

/// The value of `--limit`: a positive number, capped at 500.
pub open spec fn limit_value(value: Seq<char>) -> Result<nat, Seq<char>> {
    match text::parse_usize(value) {
        None => Err("Invalid --limit value: "@ + value),
        Some(n) => if n == 0 {
            Err("--limit must be greater than 0."@)
        } else if n > 500 {
            Ok(500)
        } else {
            Ok(n)
        },
    }
}

pub fn parse_limit(value: &str) -> (r: Result<usize, String>)
    ensures
        match r {
            Ok(n) => limit_value(value@) == Ok::<nat, Seq<char>>(n as nat),
            Err(m) => limit_value(value@) == Err::<nat, Seq<char>>(m@),
        },
{
    match text::str_to_usize(value) {
        None => {
            let mut m = text::owned("Invalid --limit value: ");
            m.append(value);
            Err(m)
        },
        Some(n) => {
            if n == 0 {
                Err(text::owned("--limit must be greater than 0."))
            } else if n > 500 {
                Ok(500)
            } else {
                Ok(n)
            }
        },
    }
}

// ───────────────────────── write tools ─────────────────────────

/// The canonical name of a write tool that `--allow-tool` may name, by any of
/// its accepted spellings (trimmed, ASCII case ignored).
pub open spec fn canonical_tool(name: Seq<char>) -> Option<Seq<char>> {
    let n = text::lower(text::trim(name));
    if n == "start_practice_session"@ || n == "session_start"@ || n == "start_session"@ {
        Some("start_practice_session"@)
    } else if n == "append_session_message"@ || n == "session_append_message"@ || n
        == "append_message"@ {
        Some("append_session_message"@)
    } else if n == "send_message"@ || n == "session_send_message"@ || n == "send_session_message"@ {
        Some("send_message"@)
    } else if n == "retry_last_message"@ || n == "retry_last"@ || n == "session_retry_last"@ || n
        == "retry_last_user_message"@ {
        Some("retry_last_message"@)
    } else if n == "switch_provider_profile"@ || n == "profile_switch"@ || n == "switch_profile"@ {
        Some("switch_provider_profile"@)
    } else {
        None
    }
}

fn is_lit(s: &[char], lit: &str) -> (r: bool)
    ensures
        r == (s@ == lit@),
{
    text::str_eq_chars(lit, s)
}

pub fn canonical_write_tool_name(tool_name: &str) -> (r: Option<&'static str>)
    ensures
        match r {
            Some(c) => canonical_tool(tool_name@) == Some(c@),
            None => canonical_tool(tool_name@) is None,
        },
{
    let n = text::lower_chars(text::trim_chars(text::to_chars(tool_name).as_slice()).as_slice());
    let n = n.as_slice();
    if is_lit(n, "start_practice_session") || is_lit(n, "session_start") || is_lit(
        n,
        "start_session",
    ) {
        Some("start_practice_session")
    } else if is_lit(n, "append_session_message") || is_lit(n, "session_append_message")
        || is_lit(n, "append_message") {
        Some("append_session_message")
    } else if is_lit(n, "send_message") || is_lit(n, "session_send_message") || is_lit(
        n,
        "send_session_message",
    ) {
        Some("send_message")
    } else if is_lit(n, "retry_last_message") || is_lit(n, "retry_last") || is_lit(
        n,
        "session_retry_last",
    ) || is_lit(n, "retry_last_user_message") {
        Some("retry_last_message")
    } else if is_lit(n, "switch_provider_profile") || is_lit(n, "profile_switch") || is_lit(
        n,
        "switch_profile",
    ) {
        Some("switch_provider_profile")
    } else {
        None
    }
}

/// The comma-separated items of every `--allow-tool` value, in order.
pub open spec fn tool_items(raw: Seq<Seq<char>>) -> Seq<Seq<char>>
    decreases raw.len(),
{
    if raw.len() == 0 {
        Seq::empty()
    } else {
        tool_items(raw.drop_last()) + text::split_on(raw.last(), ',')
    }
}

pub open spec fn unknown_tool_message(item: Seq<char>) -> Seq<char> {
    "Unknown --allow-tool value '"@ + item
        + "'. Supported values: start_practice_session, append_session_message, switch_provider_profile, send_message, retry_last_message, all."@
}

/// Reads the items left to right: blank items are skipped, `all` (any case)
/// clears the allowlist and ends the reading, an unknown name is an error, and
/// each canonical name is kept once, at its first mention.
pub open spec fn normalize_items(items: Seq<Seq<char>>, acc: Seq<Seq<char>>) -> Result<
    Seq<Seq<char>>,
    Seq<char>,
>
    decreases items.len(),
{
    if items.len() == 0 {
        Ok(acc)
    } else {
        let t = text::trim(items[0]);
        if t.len() == 0 {
            normalize_items(items.drop_first(), acc)
        } else if text::eq_ignore_case(t, "all"@) {
            Ok(Seq::empty())
        } else {
            match canonical_tool(t) {
                None => Err(unknown_tool_message(t)),
                Some(name) => normalize_items(
                    items.drop_first(),
                    if acc.contains(name) {
                        acc
                    } else {
                        acc.push(name)
                    },
                ),
            }
        }
    }
}

pub open spec fn allowed_tools_from(raw: Seq<Seq<char>>) -> Result<Seq<Seq<char>>, Seq<char>> {
    normalize_items(tool_items(raw), Seq::empty())
}

/// The canonical names of the write tools.
pub open spec fn is_write_tool_name(n: Seq<char>) -> bool {
    n == "start_practice_session"@ || n == "append_session_message"@ || n == "send_message"@ || n
        == "retry_last_message"@ || n == "switch_provider_profile"@
}

/// A list of distinct canonical write-tool names.
pub open spec fn clean_allowlist(names: Seq<Seq<char>>) -> bool {
    &&& forall|i: int| 0 <= i < names.len() ==> is_write_tool_name(#[trigger] names[i])
    &&& forall|i: int, j: int| 0 <= i < j < names.len() ==> names[i] != names[j]
}

proof fn lemma_normalize_items_clean(items: Seq<Seq<char>>, acc: Seq<Seq<char>>)
    requires
        clean_allowlist(acc),
    ensures
        normalize_items(items, acc) matches Ok(r) ==> clean_allowlist(r),
    decreases items.len(),
{
    if items.len() > 0 {
        let t = text::trim(items[0]);
        if t.len() == 0 {
            lemma_normalize_items_clean(items.drop_first(), acc);
        } else if text::eq_ignore_case(t, "all"@) {
        } else {
            match canonical_tool(t) {
                None => {},
                Some(name) => {
                    let next = if acc.contains(name) {
                        acc
                    } else {
                        acc.push(name)
                    };
                    assert(clean_allowlist(next)) by {
                        if !acc.contains(name) {
                            assert forall|i: int, j: int| 0 <= i < j < next.len() implies next[i] != next[j] by {
                                if j == acc.len() {
                                    assert(next[i] == acc[i]);
                                    assert(next[j] == name);
                                    if acc[i] == name {
                                        assert(acc.contains(name));
                                    }
                                }
                            }
                        }
                    }
                    lemma_normalize_items_clean(items.drop_first(), next);
                },
            }
        }
    }
}

/// The allowlist read from `--allow-tool` names each write tool at most
/// once, always by its canonical name.
pub proof fn lemma_allowlist_is_clean(raw: Seq<Seq<char>>)
    ensures
        allowed_tools_from(raw) matches Ok(r) ==> clean_allowlist(r),
{
    lemma_normalize_items_clean(tool_items(raw), Seq::empty());
}

pub open spec fn chars_views(v: Seq<Vec<char>>) -> Seq<Seq<char>> {
    v.map_values(|x: Vec<char>| x@)
}

fn flatten_tool_items(raw: &Vec<String>) -> (r: Vec<Vec<char>>)
    ensures
        chars_views(r@) == tool_items(strs_view(raw@)),
{
    let mut out: Vec<Vec<char>> = Vec::new();
    let mut i: usize = 0;
    while i < raw.len()
        invariant
            i <= raw@.len(),
            chars_views(out@) == tool_items(strs_view(raw@).subrange(0, i as int)),
        decreases raw.len() - i,
    {
        let pieces = text::split_chars(text::to_chars(raw[i].as_str()).as_slice(), ',');
        let ghost before = out@;
        let mut k: usize = 0;
        let ghost all_pieces = pieces@;
        while k < pieces.len()
            invariant
                k <= pieces@.len(),
                pieces@ == all_pieces,
                chars_views(out@) == chars_views(before) + chars_views(all_pieces.subrange(0, k as int)),
            decreases pieces.len() - k,
        {
            let piece = text::slice_range(pieces[k].as_slice(), 0, pieces[k].len());
            assert(pieces[k as int]@.subrange(0, pieces[k as int]@.len() as int) =~= pieces[k as int]@);
            let ghost prev = out@;
            out.push(piece);
            assert(chars_views(out@) =~= chars_views(prev).push(all_pieces[k as int]@));
            assert(chars_views(all_pieces.subrange(0, k + 1)) =~= chars_views(
                all_pieces.subrange(0, k as int),
            ).push(all_pieces[k as int]@));
            k = k + 1;
            assert(chars_views(out@) =~= chars_views(before) + chars_views(all_pieces.subrange(0, k as int)));
        }
        assert(all_pieces.subrange(0, k as int) =~= all_pieces);
        let ghost sv = strs_view(raw@);
        assert(sv.subrange(0, i + 1).drop_last() =~= sv.subrange(0, i as int));
        assert(chars_views(all_pieces) =~= text::split_on(sv[i as int], ','));
        i = i + 1;
    }
    assert(strs_view(raw@).subrange(0, i as int) =~= strs_view(raw@));
    out
}

fn contains_string(v: &Vec<String>, s: &str) -> (r: bool)
    ensures
        r == strs_view(v@).contains(s@),
{
    let mut i: usize = 0;
    while i < v.len()
        invariant
            i <= v@.len(),
            forall|k: int| 0 <= k < i ==> v@[k]@ != s@,
        decreases v.len() - i,
    {
        if text::str_eq(v[i].as_str(), s) {
            assert(strs_view(v@)[i as int] == s@);
            return true;
        }
        i = i + 1;
    }
    assert forall|k: int| 0 <= k < strs_view(v@).len() implies strs_view(v@)[k] != s@ by {
        assert(strs_view(v@)[k] == v@[k]@);
    }
    false
}

/// Reads the `--allow-tool` values into the write-tool allowlist.
pub fn normalize_allowed_write_tools(raw_tools: Vec<String>) -> (r: Result<Vec<String>, String>)
    ensures
        match r {
            Ok(v) => allowed_tools_from(strs_view(raw_tools@)) == Ok::<
                Seq<Seq<char>>,
                Seq<char>,
            >(strs_view(v@)),
            Err(m) => allowed_tools_from(strs_view(raw_tools@)) == Err::<
                Seq<Seq<char>>,
                Seq<char>,
            >(m@),
        },
{
    let items = flatten_tool_items(&raw_tools);
    let ghost all = chars_views(items@);
    let mut allowed: Vec<String> = Vec::new();
    let mut i: usize = 0;
    assert(all.subrange(0, all.len() as int) =~= all);
    assert(strs_view(allowed@) =~= Seq::<Seq<char>>::empty());
    while i < items.len()
        invariant
            i <= items@.len(),
            all == chars_views(items@),
            all == tool_items(strs_view(raw_tools@)),
            normalize_items(all, Seq::empty()) == normalize_items(
                all.subrange(i as int, all.len() as int),
                strs_view(allowed@),
            ),
        decreases items.len() - i,
    {
        let ghost rest = all.subrange(i as int, all.len() as int);
        assert(rest.drop_first() =~= all.subrange(i + 1, all.len() as int));
        assert(rest[0] == items@[i as int]@);
        let trimmed = text::trim_chars(items[i].as_slice());
        if trimmed.len() == 0 {
            i = i + 1;
            continue;
        }
        let trimmed_str = text::string_of(trimmed.as_slice());
        if text::str_eq_ignore_case(trimmed_str.as_str(), "all") {
            let none: Vec<String> = Vec::new();
            assert(strs_view(none@) =~= Seq::<Seq<char>>::empty());
            return Ok(none);
        }
        match canonical_write_tool_name(trimmed_str.as_str()) {
            None => {
                proof {
                    text::lemma_trim_idempotent(rest[0]);
                }
                let mut m = text::owned("Unknown --allow-tool value '");
                m.append(trimmed_str.as_str());
                m.append(
                    "'. Supported values: start_practice_session, append_session_message, switch_provider_profile, send_message, retry_last_message, all.",
                );
                return Err(m);
            },
            Some(name) => {
                proof {
                    text::lemma_trim_idempotent(rest[0]);
                }
                if !contains_string(&allowed, name) {
                    let ghost prev = strs_view(allowed@);
                    allowed.push(text::owned(name));
                    assert(strs_view(allowed@) =~= prev.push(name@));
                }
            },
        }
        i = i + 1;
    }
    assert(all.subrange(i as int, all.len() as int) =~= Seq::<Seq<char>>::empty());
    Ok(allowed)
}


// ───────────────────────── reading the arguments ─────────────────────────

/// A switch that takes no value.
#[derive(Debug, Clone, Copy, PartialEq, Eq, Structural)]
pub enum Flag {
    Json,
    ReadOnly,
    Stdio,
    AllowWrites,
    AllowNetwork,
    Yes,
}

/// Where the value of an option goes.
#[derive(Debug, Clone, Copy, PartialEq, Eq, Structural)]
pub enum Slot {
    Db,
    Limit,
    Session,
    Profile,
    Character,
    Title,
    Mode,
    Scenario,
    Role,
    Content,
    Operation,
    Actor,
    Outcome,
    Message,
    Tool,
    Tools,
}

/// What one argument is.
#[derive(Debug, Clone, Copy)]
pub enum ArgKind {
    /// `-h` or `--help`: stop and show the usage.
    Help,
    Flag(Flag),
    /// An option whose value is the next argument.
    Valued(Slot),
    /// An option written `--name=value`; the value is what follows every
    /// leading copy of `prefix`.
    Inline(Slot, &'static str),
    /// Anything else that starts with `-`.
    UnknownOption,
    /// A word of the command.
    Word,
}

pub open spec fn classify(a: Seq<char>) -> ArgKind {
    if a == "-h"@ || a == "--help"@ {
        ArgKind::Help
    } else if a == "--json"@ {
        ArgKind::Flag(Flag::Json)
    } else if a == "--read-only"@ {
        ArgKind::Flag(Flag::ReadOnly)
    } else if a == "--stdio"@ {
        ArgKind::Flag(Flag::Stdio)
    } else if a == "--allow-writes"@ {
        ArgKind::Flag(Flag::AllowWrites)
    } else if a == "--allow-network"@ {
        ArgKind::Flag(Flag::AllowNetwork)
    } else if a == "--yes"@ {
        ArgKind::Flag(Flag::Yes)
    } else if a == "--db"@ {
        ArgKind::Valued(Slot::Db)
    } else if text::has_prefix(a, "--db="@) {
        ArgKind::Inline(Slot::Db, "--db=")
    } else if a == "--limit"@ {
        ArgKind::Valued(Slot::Limit)
    } else if text::has_prefix(a, "--limit="@) {
        ArgKind::Inline(Slot::Limit, "--limit=")
    } else if a == "--session"@ || a == "--id"@ {
        ArgKind::Valued(Slot::Session)
    } else if text::has_prefix(a, "--session="@) {
        ArgKind::Inline(Slot::Session, "--session=")
    } else if text::has_prefix(a, "--id="@) {
        ArgKind::Inline(Slot::Session, "--id=")
    } else if a == "--profile"@ || a == "--profile-id"@ {
        ArgKind::Valued(Slot::Profile)
    } else if text::has_prefix(a, "--profile="@) {
        ArgKind::Inline(Slot::Profile, "--profile=")
    } else if text::has_prefix(a, "--profile-id="@) {
        ArgKind::Inline(Slot::Profile, "--profile-id=")
    } else if a == "--character"@ || a == "--character-id"@ {
        ArgKind::Valued(Slot::Character)
    } else if text::has_prefix(a, "--character="@) {
        ArgKind::Inline(Slot::Character, "--character=")
    } else if text::has_prefix(a, "--character-id="@) {
        ArgKind::Inline(Slot::Character, "--character-id=")
    } else if a == "--title"@ {
        ArgKind::Valued(Slot::Title)
    } else if text::has_prefix(a, "--title="@) {
        ArgKind::Inline(Slot::Title, "--title=")
    } else if a == "--mode"@ || a == "--mode-id"@ {
        ArgKind::Valued(Slot::Mode)
    } else if text::has_prefix(a, "--mode="@) {
        ArgKind::Inline(Slot::Mode, "--mode=")
    } else if text::has_prefix(a, "--mode-id="@) {
        ArgKind::Inline(Slot::Mode, "--mode-id=")
    } else if a == "--scenario"@ || a == "--scenario-id"@ {
        ArgKind::Valued(Slot::Scenario)
    } else if text::has_prefix(a, "--scenario="@) {
        ArgKind::Inline(Slot::Scenario, "--scenario=")
    } else if text::has_prefix(a, "--scenario-id="@) {
        ArgKind::Inline(Slot::Scenario, "--scenario-id=")
    } else if a == "--role"@ {
        ArgKind::Valued(Slot::Role)
    } else if text::has_prefix(a, "--role="@) {
        ArgKind::Inline(Slot::Role, "--role=")
    } else if a == "--content"@ {
        ArgKind::Valued(Slot::Content)
    } else if text::has_prefix(a, "--content="@) {
        ArgKind::Inline(Slot::Content, "--content=")
    } else if a == "--operation"@ {
        ArgKind::Valued(Slot::Operation)
    } else if text::has_prefix(a, "--operation="@) {
        ArgKind::Inline(Slot::Operation, "--operation=")
    } else if a == "--actor"@ {
        ArgKind::Valued(Slot::Actor)
    } else if text::has_prefix(a, "--actor="@) {
        ArgKind::Inline(Slot::Actor, "--actor=")
    } else if a == "--result"@ {
        ArgKind::Valued(Slot::Outcome)
    } else if text::has_prefix(a, "--result="@) {
        ArgKind::Inline(Slot::Outcome, "--result=")
    } else if a == "--message"@ || a == "--message-id"@ || a == "--target-message"@ || a
        == "--target-message-id"@ {
        ArgKind::Valued(Slot::Message)
    } else if text::has_prefix(a, "--message="@) {
        ArgKind::Inline(Slot::Message, "--message=")
    } else if text::has_prefix(a, "--message-id="@) {
        ArgKind::Inline(Slot::Message, "--message-id=")
    } else if text::has_prefix(a, "--target-message="@) {
        ArgKind::Inline(Slot::Message, "--target-message=")
    } else if text::has_prefix(a, "--target-message-id="@) {
        ArgKind::Inline(Slot::Message, "--target-message-id=")
    } else if a == "--allow-tool"@ {
        ArgKind::Valued(Slot::Tool)
    } else if a == "--allow-tools"@ {
        ArgKind::Valued(Slot::Tools)
    } else if text::has_prefix(a, "--allow-tool="@) {
        ArgKind::Inline(Slot::Tool, "--allow-tool=")
    } else if text::has_prefix(a, "--allow-tools="@) {
        ArgKind::Inline(Slot::Tools, "--allow-tools=")
    } else if text::has_prefix(a, "-"@) {
        ArgKind::UnknownOption
    } else {
        ArgKind::Word
    }
}

fn pre(a: &[char], p: &str) -> (r: bool)
    ensures
        r == text::has_prefix(a@, p@),
{
    text::chars_starts_with(a, text::to_chars(p).as_slice())
}

pub fn classify_arg(a: &[char]) -> (k: ArgKind)
    ensures
        k == classify(a@),
{
    if is_lit(a, "-h") || is_lit(a, "--help") {
        ArgKind::Help
    } else if is_lit(a, "--json") {
        ArgKind::Flag(Flag::Json)
    } else if is_lit(a, "--read-only") {
        ArgKind::Flag(Flag::ReadOnly)
    } else if is_lit(a, "--stdio") {
        ArgKind::Flag(Flag::Stdio)
    } else if is_lit(a, "--allow-writes") {
        ArgKind::Flag(Flag::AllowWrites)
    } else if is_lit(a, "--allow-network") {
        ArgKind::Flag(Flag::AllowNetwork)
    } else if is_lit(a, "--yes") {
        ArgKind::Flag(Flag::Yes)
    } else if is_lit(a, "--db") {
        ArgKind::Valued(Slot::Db)
    } else if pre(a, "--db=") {
        ArgKind::Inline(Slot::Db, "--db=")
    } else if is_lit(a, "--limit") {
        ArgKind::Valued(Slot::Limit)
    } else if pre(a, "--limit=") {
        ArgKind::Inline(Slot::Limit, "--limit=")
    } else if is_lit(a, "--session") || is_lit(a, "--id") {
        ArgKind::Valued(Slot::Session)
    } else if pre(a, "--session=") {
        ArgKind::Inline(Slot::Session, "--session=")
    } else if pre(a, "--id=") {
        ArgKind::Inline(Slot::Session, "--id=")
    } else if is_lit(a, "--profile") || is_lit(a, "--profile-id") {
        ArgKind::Valued(Slot::Profile)
    } else if pre(a, "--profile=") {
        ArgKind::Inline(Slot::Profile, "--profile=")
    } else if pre(a, "--profile-id=") {
        ArgKind::Inline(Slot::Profile, "--profile-id=")
    } else if is_lit(a, "--character") || is_lit(a, "--character-id") {
        ArgKind::Valued(Slot::Character)
    } else if pre(a, "--character=") {
        ArgKind::Inline(Slot::Character, "--character=")
    } else if pre(a, "--character-id=") {
        ArgKind::Inline(Slot::Character, "--character-id=")
    } else if is_lit(a, "--title") {
        ArgKind::Valued(Slot::Title)
    } else if pre(a, "--title=") {
        ArgKind::Inline(Slot::Title, "--title=")
    } else if is_lit(a, "--mode") || is_lit(a, "--mode-id") {
        ArgKind::Valued(Slot::Mode)
    } else if pre(a, "--mode=") {
        ArgKind::Inline(Slot::Mode, "--mode=")
    } else if pre(a, "--mode-id=") {
        ArgKind::Inline(Slot::Mode, "--mode-id=")
    } else if is_lit(a, "--scenario") || is_lit(a, "--scenario-id") {
        ArgKind::Valued(Slot::Scenario)
    } else if pre(a, "--scenario=") {
        ArgKind::Inline(Slot::Scenario, "--scenario=")
    } else if pre(a, "--scenario-id=") {
        ArgKind::Inline(Slot::Scenario, "--scenario-id=")
    } else if is_lit(a, "--role") {
        ArgKind::Valued(Slot::Role)
    } else if pre(a, "--role=") {
        ArgKind::Inline(Slot::Role, "--role=")
    } else if is_lit(a, "--content") {
        ArgKind::Valued(Slot::Content)
    } else if pre(a, "--content=") {
        ArgKind::Inline(Slot::Content, "--content=")
    } else if is_lit(a, "--operation") {
        ArgKind::Valued(Slot::Operation)
    } else if pre(a, "--operation=") {
        ArgKind::Inline(Slot::Operation, "--operation=")
    } else if is_lit(a, "--actor") {
        ArgKind::Valued(Slot::Actor)
    } else if pre(a, "--actor=") {
        ArgKind::Inline(Slot::Actor, "--actor=")
    } else if is_lit(a, "--result") {
        ArgKind::Valued(Slot::Outcome)
    } else if pre(a, "--result=") {
        ArgKind::Inline(Slot::Outcome, "--result=")
    } else if is_lit(a, "--message") || is_lit(a, "--message-id") || is_lit(a, "--target-message")
        || is_lit(a, "--target-message-id") {
        ArgKind::Valued(Slot::Message)
    } else if pre(a, "--message=") {
        ArgKind::Inline(Slot::Message, "--message=")
    } else if pre(a, "--message-id=") {
        ArgKind::Inline(Slot::Message, "--message-id=")
    } else if pre(a, "--target-message=") {
        ArgKind::Inline(Slot::Message, "--target-message=")
    } else if pre(a, "--target-message-id=") {
        ArgKind::Inline(Slot::Message, "--target-message-id=")
    } else if is_lit(a, "--allow-tool") {
        ArgKind::Valued(Slot::Tool)
    } else if is_lit(a, "--allow-tools") {
        ArgKind::Valued(Slot::Tools)
    } else if pre(a, "--allow-tool=") {
        ArgKind::Inline(Slot::Tool, "--allow-tool=")
    } else if pre(a, "--allow-tools=") {
        ArgKind::Inline(Slot::Tools, "--allow-tools=")
    } else if pre(a, "-") {
        ArgKind::UnknownOption
    } else {
        ArgKind::Word
    }
}

/// What the parser has gathered so far.
pub struct ArgScan {
    pub json: bool,
    pub read_only: bool,
    pub stdio: bool,
    pub allow_writes: bool,
    pub allow_network: bool,
    pub yes: bool,
    pub db_override: Option<String>,
    pub limit: usize,
    pub session_id: Option<String>,
    pub profile_id: Option<String>,
    pub character_id: Option<String>,
    pub title: Option<String>,
    pub mode_id: Option<String>,
    pub scenario_id: Option<String>,
    pub role: Option<String>,
    pub content: Option<String>,
    pub operation: Option<String>,
    pub actor: Option<String>,
    pub result: Option<String>,
    pub message_id: Option<String>,
    pub raw_tools: Vec<String>,
    pub parts: Vec<String>,
}

pub struct ScanView {
    pub json: bool,
    pub read_only: bool,
    pub stdio: bool,
    pub allow_writes: bool,
    pub allow_network: bool,
    pub yes: bool,
    pub db_override: Option<Seq<char>>,
    pub limit: nat,
    pub session_id: Option<Seq<char>>,
    pub profile_id: Option<Seq<char>>,
    pub character_id: Option<Seq<char>>,
    pub title: Option<Seq<char>>,
    pub mode_id: Option<Seq<char>>,
    pub scenario_id: Option<Seq<char>>,
    pub role: Option<Seq<char>>,
    pub content: Option<Seq<char>>,
    pub operation: Option<Seq<char>>,
    pub actor: Option<Seq<char>>,
    pub result: Option<Seq<char>>,
    pub message_id: Option<Seq<char>>,
    pub raw_tools: Seq<Seq<char>>,
    pub parts: Seq<Seq<char>>,
}

impl View for ArgScan {
    type V = ScanView;

    open spec fn view(&self) -> ScanView {
        ScanView {
            json: self.json,
            read_only: self.read_only,
            stdio: self.stdio,
            allow_writes: self.allow_writes,
            allow_network: self.allow_network,
            yes: self.yes,
            db_override: opt_view(self.db_override),
            limit: self.limit as nat,
            session_id: opt_view(self.session_id),
            profile_id: opt_view(self.profile_id),
            character_id: opt_view(self.character_id),
            title: opt_view(self.title),
            mode_id: opt_view(self.mode_id),
            scenario_id: opt_view(self.scenario_id),
            role: opt_view(self.role),
            content: opt_view(self.content),
            operation: opt_view(self.operation),
            actor: opt_view(self.actor),
            result: opt_view(self.result),
            message_id: opt_view(self.message_id),
            raw_tools: strs_view(self.raw_tools@),
            parts: strs_view(self.parts@),
        }
    }
}

/// The state before the first argument: every switch off, nothing given,
/// and a limit of 50.
pub open spec fn initial_scan() -> ScanView {
    ScanView {
        json: false,
        read_only: false,
        stdio: false,
        allow_writes: false,
        allow_network: false,
        yes: false,
        db_override: None,
        limit: 50,
        session_id: None,
        profile_id: None,
        character_id: None,
        title: None,
        mode_id: None,
        scenario_id: None,
        role: None,
        content: None,
        operation: None,
        actor: None,
        result: None,
        message_id: None,
        raw_tools: Seq::empty(),
        parts: Seq::empty(),
    }
}

pub open spec fn set_flag(st: ScanView, f: Flag) -> ScanView {
    match f {
        Flag::Json => ScanView { json: true, ..st },
        Flag::ReadOnly => ScanView { read_only: true, ..st },
        Flag::Stdio => ScanView { stdio: true, ..st },
        Flag::AllowWrites => ScanView { allow_writes: true, ..st },
        Flag::AllowNetwork => ScanView { allow_network: true, ..st },
        Flag::Yes => ScanView { yes: true, ..st },
    }
}

/// The text after the option's name in the message for a missing value.
pub open spec fn missing_suffix(slot: Slot) -> Seq<char> {
    match slot {
        Slot::Db => " requires a path value."@,
        Slot::Limit => " requires a number."@,
        Slot::Session => " requires a session id."@,
        Slot::Profile => " requires a profile id."@,
        Slot::Character => " requires a character id."@,
        Slot::Mode => " requires a practice mode id."@,
        Slot::Scenario => " requires a scenario id."@,
        Slot::Message => " requires a message id."@,
        Slot::Tool => " requires a tool name."@,
        Slot::Tools => " requires one or more tool names."@,
        _ => " requires a value."@,
    }
}

/// Stores an option's value; a later value replaces an earlier one, and tool
/// names accumulate.
pub open spec fn assign(st: ScanView, slot: Slot, v: Seq<char>) -> Result<ScanView, Seq<char>> {
    match slot {
        Slot::Db => Ok(ScanView { db_override: Some(v), ..st }),
        Slot::Limit => match limit_value(v) {
            Ok(n) => Ok(ScanView { limit: n, ..st }),
            Err(m) => Err(m),
        },
        Slot::Session => Ok(ScanView { session_id: Some(v), ..st }),
        Slot::Profile => Ok(ScanView { profile_id: Some(v), ..st }),
        Slot::Character => Ok(ScanView { character_id: Some(v), ..st }),
        Slot::Title => Ok(ScanView { title: Some(v), ..st }),
        Slot::Mode => Ok(ScanView { mode_id: Some(v), ..st }),
        Slot::Scenario => Ok(ScanView { scenario_id: Some(v), ..st }),
        Slot::Role => Ok(ScanView { role: Some(v), ..st }),
        Slot::Content => Ok(ScanView { content: Some(v), ..st }),
        Slot::Operation => Ok(ScanView { operation: Some(v), ..st }),
        Slot::Actor => Ok(ScanView { actor: Some(v), ..st }),
        Slot::Outcome => Ok(ScanView { result: Some(v), ..st }),
        Slot::Message => Ok(ScanView { message_id: Some(v), ..st }),
        Slot::Tool | Slot::Tools => Ok(ScanView { raw_tools: st.raw_tools.push(v), ..st }),
    }
}

pub enum ScanOutcome {
    Help { json: bool, db_override: Option<Seq<char>> },
    Fail(Seq<char>),
    Done(ScanView),
}

/// Reads the arguments from position `i` on.
pub open spec fn scan(args: Seq<Seq<char>>, i: int, st: ScanView) -> ScanOutcome
    decreases args.len() - i,
{
    if i < 0 || i >= args.len() {
        ScanOutcome::Done(st)
    } else {
        let a = args[i];
        match classify(a) {
            ArgKind::Help => ScanOutcome::Help { json: st.json, db_override: st.db_override },
            ArgKind::Flag(f) => scan(args, i + 1, set_flag(st, f)),
            ArgKind::Valued(slot) => if i + 1 >= args.len() {
                ScanOutcome::Fail(a + missing_suffix(slot))
            } else {
                match assign(st, slot, args[i + 1]) {
                    Ok(next) => scan(args, i + 2, next),
                    Err(m) => ScanOutcome::Fail(m),
                }
            },
            ArgKind::Inline(slot, prefix) => match assign(st, slot, text::strip_all(a, prefix@)) {
                Ok(next) => scan(args, i + 1, next),
                Err(m) => ScanOutcome::Fail(m),
            },
            ArgKind::UnknownOption => ScanOutcome::Fail("Unknown option: "@ + a),
            ArgKind::Word => scan(args, i + 1, ScanView { parts: st.parts.push(a), ..st }),
        }
    }
}

/// Where reading the arguments from position `i` stands by position `k`:
/// it has reached `k` with a state, or stopped before it with an outcome, or
/// an option before `k` takes the argument at `k` as its value.
pub enum ScanStop {
    Reached(ScanView),
    Stopped(ScanOutcome),
    Crossed,
}

pub open spec fn scan_to(args: Seq<Seq<char>>, i: int, st: ScanView, k: int) -> ScanStop
    decreases k - i,
{
    if i >= k {
        if i == k {
            ScanStop::Reached(st)
        } else {
            ScanStop::Crossed
        }
    } else if i < 0 || i >= args.len() {
        ScanStop::Stopped(ScanOutcome::Done(st))
    } else {
        let a = args[i];
        match classify(a) {
            ArgKind::Help => ScanStop::Stopped(ScanOutcome::Help { json: st.json, db_override: st.db_override }),
            ArgKind::Flag(f) => scan_to(args, i + 1, set_flag(st, f), k),
            ArgKind::Valued(slot) => if i + 1 >= k {
                ScanStop::Crossed
            } else if i + 1 >= args.len() {
                ScanStop::Stopped(ScanOutcome::Fail(a + missing_suffix(slot)))
            } else {
                match assign(st, slot, args[i + 1]) {
                    Ok(next) => scan_to(args, i + 2, next, k),
                    Err(m) => ScanStop::Stopped(ScanOutcome::Fail(m)),
                }
            },
            ArgKind::Inline(slot, prefix) => match assign(st, slot, text::strip_all(a, prefix@)) {
                Ok(next) => scan_to(args, i + 1, next, k),
                Err(m) => ScanStop::Stopped(ScanOutcome::Fail(m)),
            },
            ArgKind::UnknownOption => ScanStop::Stopped(ScanOutcome::Fail("Unknown option: "@ + a)),
            ArgKind::Word => scan_to(args, i + 1, ScanView { parts: st.parts.push(a), ..st }, k),
        }
    }
}

proof fn lemma_scan_to(args: Seq<Seq<char>>, i: int, st: ScanView, k: int)
    requires
        0 <= i <= k <= args.len(),
    ensures
        scan_to(args, i, st, k) matches ScanStop::Reached(s) ==> scan(args, i, st) == scan(args, k, s),
        scan_to(args, i, st, k) matches ScanStop::Stopped(o) ==> scan(args, i, st) == o,
    decreases k - i,
{
    if i < k {
        let a = args[i];
        match classify(a) {
            ArgKind::Flag(f) => lemma_scan_to(args, i + 1, set_flag(st, f), k),
            ArgKind::Valued(slot) => {
                if i + 1 < k {
                    match assign(st, slot, args[i + 1]) {
                        Ok(next) => lemma_scan_to(args, i + 2, next, k),
                        Err(_) => {},
                    }
                }
            },
            ArgKind::Inline(slot, prefix) => match assign(st, slot, text::strip_all(a, prefix@)) {
                Ok(next) => lemma_scan_to(args, i + 1, next, k),
                Err(_) => {},
            },
            ArgKind::Word => lemma_scan_to(args, i + 1, ScanView { parts: st.parts.push(a), ..st }, k),
            _ => {},
        }
    }
}

proof fn lemma_scan_to_prefix(x: Seq<Seq<char>>, y: Seq<Seq<char>>, i: int, st: ScanView, k: int)
    requires
        0 <= i <= k,
        k <= x.len(),
        k <= y.len(),
        x.take(k) == y.take(k),
    ensures
        scan_to(x, i, st, k) == scan_to(y, i, st, k),
    decreases k - i,
{
    if i < k {
        assert(x[i] == x.take(k)[i]);
        assert(y[i] == y.take(k)[i]);
        let a = x[i];
        match classify(a) {
            ArgKind::Flag(f) => lemma_scan_to_prefix(x, y, i + 1, set_flag(st, f), k),
            ArgKind::Valued(slot) => {
                if i + 1 < k {
                    assert(x[i + 1] == x.take(k)[i + 1]);
                    assert(y[i + 1] == y.take(k)[i + 1]);
                    match assign(st, slot, x[i + 1]) {
                        Ok(next) => lemma_scan_to_prefix(x, y, i + 2, next, k),
                        Err(_) => {},
                    }
                }
            },
            ArgKind::Inline(slot, prefix) => match assign(st, slot, text::strip_all(a, prefix@)) {
                Ok(next) => lemma_scan_to_prefix(x, y, i + 1, next, k),
                Err(_) => {},
            },
            ArgKind::Word => lemma_scan_to_prefix(x, y, i + 1, ScanView { parts: st.parts.push(a), ..st }, k),
            _ => {},
        }
    }
}

proof fn lemma_scan_suffix(x: Seq<Seq<char>>, i: int, y: Seq<Seq<char>>, j: int, st: ScanView)
    requires
        0 <= i <= x.len(),
        0 <= j <= y.len(),
        x.skip(i) == y.skip(j),
    ensures
        scan(x, i, st) == scan(y, j, st),
    decreases x.len() - i,
{
    assert(x.len() - i == y.len() - j) by {
        assert(x.skip(i).len() == x.len() - i);
        assert(y.skip(j).len() == y.len() - j);
    }
    if i < x.len() {
        assert(x[i] == x.skip(i)[0]);
        assert(y[j] == y.skip(j)[0]);
        let a = x[i];
        assert(x.skip(i + 1) =~= x.skip(i).skip(1));
        assert(y.skip(j + 1) =~= y.skip(j).skip(1));
        match classify(a) {
            ArgKind::Flag(f) => lemma_scan_suffix(x, i + 1, y, j + 1, set_flag(st, f)),
            ArgKind::Valued(slot) => {
                if i + 1 < x.len() {
                    assert(x[i + 1] == x.skip(i)[1]);
                    assert(y[j + 1] == y.skip(j)[1]);
                    assert(x.skip(i + 2) =~= x.skip(i).skip(2));
                    assert(y.skip(j + 2) =~= y.skip(j).skip(2));
                    match assign(st, slot, x[i + 1]) {
                        Ok(next) => lemma_scan_suffix(x, i + 2, y, j + 2, next),
                        Err(_) => {},
                    }
                }
            },
            ArgKind::Inline(slot, prefix) => match assign(st, slot, text::strip_all(a, prefix@)) {
                Ok(next) => lemma_scan_suffix(x, i + 1, y, j + 1, next),
                Err(_) => {},
            },
            ArgKind::Word => lemma_scan_suffix(x, i + 1, y, j + 1, ScanView { parts: st.parts.push(a), ..st }),
            _ => {},
        }
    }
}


#[verifier::rlimit(50)]
proof fn lemma_inline_form_db(v: Seq<char>)
    ensures
        classify("--db"@ + "="@ + v) matches ArgKind::Inline(s, p) && classify("--db"@) == ArgKind::Valued(s) && p@
            == "--db"@ + "="@,
        classify("--db"@) == ArgKind::Valued(Slot::Db),
{
    reveal_strlit("-");
    reveal_strlit("--actor");
    reveal_strlit("--actor=");
    reveal_strlit("--allow-network");
    reveal_strlit("--allow-tool");
    reveal_strlit("--allow-tool=");
    reveal_strlit("--allow-tools");
    reveal_strlit("--allow-tools=");
    reveal_strlit("--allow-writes");
    reveal_strlit("--character");
    reveal_strlit("--character-id");
    reveal_strlit("--character-id=");
    reveal_strlit("--character=");
    reveal_strlit("--content");
    reveal_strlit("--content=");
    reveal_strlit("--db");
    reveal_strlit("--db=");
    reveal_strlit("--help");
    reveal_strlit("--id");
    reveal_strlit("--id=");
    reveal_strlit("--json");
    reveal_strlit("--limit");
    reveal_strlit("--limit=");
    reveal_strlit("--message");
    reveal_strlit("--message-id");
    reveal_strlit("--message-id=");
    reveal_strlit("--message=");
    reveal_strlit("--mode");
    reveal_strlit("--mode-id");
    reveal_strlit("--mode-id=");
    reveal_strlit("--mode=");
    reveal_strlit("--operation");
    reveal_strlit("--operation=");
    reveal_strlit("--profile");
    reveal_strlit("--profile-id");
    reveal_strlit("--profile-id=");
    reveal_strlit("--profile=");
    reveal_strlit("--read-only");
    reveal_strlit("--result");
    reveal_strlit("--result=");
    reveal_strlit("--role");
    reveal_strlit("--role=");
    reveal_strlit("--scenario");
    reveal_strlit("--scenario-id");
    reveal_strlit("--scenario-id=");
    reveal_strlit("--scenario=");
    reveal_strlit("--session");
    reveal_strlit("--session=");
    reveal_strlit("--stdio");
    reveal_strlit("--target-message");
    reveal_strlit("--target-message-id");
    reveal_strlit("--target-message-id=");
    reveal_strlit("--target-message=");
    reveal_strlit("--title");
    reveal_strlit("--title=");
    reveal_strlit("--yes");
    reveal_strlit("-h");
    reveal_strlit("=");
    let f = "--db"@;
    let a = f + "="@ + v;
    lemma_seq_differs(a, "--help"@, 2);
    lemma_seq_differs(a, "--json"@, 2);
    lemma_seq_differs(a, "--read-only"@, 2);
    lemma_seq_differs(a, "--stdio"@, 2);
    lemma_seq_differs(a, "--allow-writes"@, 2);
    lemma_seq_differs(a, "--allow-network"@, 2);
    lemma_seq_differs(a, "--yes"@, 2);
    lemma_seq_differs(a, "--limit"@, 2);
    lemma_seq_differs(a, "--session"@, 2);
    lemma_seq_differs(a, "--profile"@, 2);
    lemma_seq_differs(a, "--profile-id"@, 2);
    lemma_seq_differs(a, "--character"@, 2);
    lemma_seq_differs(a, "--character-id"@, 2);
    lemma_seq_differs(a, "--title"@, 2);
    lemma_seq_differs(a, "--mode"@, 2);
    lemma_seq_differs(a, "--mode-id"@, 2);
    lemma_seq_differs(a, "--scenario"@, 2);
    lemma_seq_differs(a, "--scenario-id"@, 2);
    lemma_seq_differs(a, "--role"@, 2);
    lemma_seq_differs(a, "--content"@, 2);
    lemma_seq_differs(a, "--operation"@, 2);
    lemma_seq_differs(a, "--actor"@, 2);
    lemma_seq_differs(a, "--result"@, 2);
    lemma_seq_differs(a, "--message"@, 2);
    lemma_seq_differs(a, "--message-id"@, 2);
    lemma_seq_differs(a, "--target-message"@, 2);
    lemma_seq_differs(a, "--target-message-id"@, 2);
    lemma_seq_differs(a, "--allow-tool"@, 2);
    lemma_seq_differs(a, "--allow-tools"@, 2);
    assert(a.subrange(0, 5) =~= "--db="@);
    assert(classify(f) == ArgKind::Valued(Slot::Db));
    assert(text::has_prefix(a, "--db="@));
    assert(classify(a) == ArgKind::Inline(Slot::Db, "--db="));
}

#[verifier::rlimit(50)]
proof fn lemma_inline_form_limit(v: Seq<char>)
    ensures
        classify("--limit"@ + "="@ + v) matches ArgKind::Inline(s, p) && classify("--limit"@) == ArgKind::Valued(s) && p@
            == "--limit"@ + "="@,
        classify("--limit"@) == ArgKind::Valued(Slot::Limit),
{
    reveal_strlit("-");
    reveal_strlit("--actor");
    reveal_strlit("--actor=");
    reveal_strlit("--allow-network");
    reveal_strlit("--allow-tool");
    reveal_strlit("--allow-tool=");
    reveal_strlit("--allow-tools");
    reveal_strlit("--allow-tools=");
    reveal_strlit("--allow-writes");
    reveal_strlit("--character");
    reveal_strlit("--character-id");
    reveal_strlit("--character-id=");
    reveal_strlit("--character=");
    reveal_strlit("--content");
    reveal_strlit("--content=");
    reveal_strlit("--db");
    reveal_strlit("--db=");
    reveal_strlit("--help");
    reveal_strlit("--id");
    reveal_strlit("--id=");
    reveal_strlit("--json");
    reveal_strlit("--limit");
    reveal_strlit("--limit=");
    reveal_strlit("--message");
    reveal_strlit("--message-id");
    reveal_strlit("--message-id=");
    reveal_strlit("--message=");
    reveal_strlit("--mode");
    reveal_strlit("--mode-id");
    reveal_strlit("--mode-id=");
    reveal_strlit("--mode=");
    reveal_strlit("--operation");
    reveal_strlit("--operation=");
    reveal_strlit("--profile");
    reveal_strlit("--profile-id");
    reveal_strlit("--profile-id=");
    reveal_strlit("--profile=");
    reveal_strlit("--read-only");
    reveal_strlit("--result");
    reveal_strlit("--result=");
    reveal_strlit("--role");
    reveal_strlit("--role=");
    reveal_strlit("--scenario");
    reveal_strlit("--scenario-id");
    reveal_strlit("--scenario-id=");
    reveal_strlit("--scenario=");
    reveal_strlit("--session");
    reveal_strlit("--session=");
    reveal_strlit("--stdio");
    reveal_strlit("--target-message");
    reveal_strlit("--target-message-id");
    reveal_strlit("--target-message-id=");
    reveal_strlit("--target-message=");
    reveal_strlit("--title");
    reveal_strlit("--title=");
    reveal_strlit("--yes");
    reveal_strlit("-h");
    reveal_strlit("=");
    let f = "--limit"@;
    let a = f + "="@ + v;
    lemma_seq_differs(f, "--stdio"@, 2);
    lemma_seq_differs(a, "--read-only"@, 2);
    lemma_seq_differs(a, "--allow-writes"@, 2);
    lemma_seq_differs(a, "--allow-network"@, 2);
    lemma_seq_differs(a, "--session"@, 2);
    lemma_seq_differs(a, "--profile"@, 2);
    lemma_seq_differs(a, "--profile-id"@, 2);
    lemma_seq_differs(a, "--character"@, 2);
    lemma_seq_differs(a, "--character-id"@, 2);
    lemma_seq_differs(a, "--mode-id"@, 2);
    lemma_seq_differs(a, "--scenario"@, 2);
    lemma_seq_differs(a, "--scenario-id"@, 2);
    lemma_seq_differs(a, "--content"@, 2);
    lemma_seq_differs(a, "--operation"@, 2);
    lemma_seq_differs(a, "--result"@, 2);
    lemma_seq_differs(a, "--message"@, 2);
    lemma_seq_differs(a, "--message-id"@, 2);
    lemma_seq_differs(a, "--target-message"@, 2);
    lemma_seq_differs(a, "--target-message-id"@, 2);
    lemma_seq_differs(a, "--allow-tool"@, 2);
    lemma_seq_differs(a, "--allow-tools"@, 2);
    lemma_prefix_differs(f, "--db="@, 2);
    lemma_prefix_differs(a, "--db="@, 2);
    assert(a.subrange(0, 8) =~= "--limit="@);
    assert(classify(f) == ArgKind::Valued(Slot::Limit));
    assert(text::has_prefix(a, "--limit="@));
    assert(classify(a) == ArgKind::Inline(Slot::Limit, "--limit="));
}

#[verifier::rlimit(50)]
proof fn lemma_inline_form_session(v: Seq<char>)
    ensures
        classify("--session"@ + "="@ + v) matches ArgKind::Inline(s, p) && classify("--session"@) == ArgKind::Valued(s) && p@
            == "--session"@ + "="@,
        classify("--session"@) == ArgKind::Valued(Slot::Session),
{
    reveal_strlit("-");
    reveal_strlit("--actor");
    reveal_strlit("--actor=");
    reveal_strlit("--allow-network");
    reveal_strlit("--allow-tool");
    reveal_strlit("--allow-tool=");
    reveal_strlit("--allow-tools");
    reveal_strlit("--allow-tools=");
    reveal_strlit("--allow-writes");
    reveal_strlit("--character");
    reveal_strlit("--character-id");
    reveal_strlit("--character-id=");
    reveal_strlit("--character=");
    reveal_strlit("--content");
    reveal_strlit("--content=");
    reveal_strlit("--db");
    reveal_strlit("--db=");
    reveal_strlit("--help");
    reveal_strlit("--id");
    reveal_strlit("--id=");
    reveal_strlit("--json");
    reveal_strlit("--limit");
    reveal_strlit("--limit=");
    reveal_strlit("--message");
    reveal_strlit("--message-id");
    reveal_strlit("--message-id=");
    reveal_strlit("--message=");
    reveal_strlit("--mode");
    reveal_strlit("--mode-id");
    reveal_strlit("--mode-id=");
    reveal_strlit("--mode=");
    reveal_strlit("--operation");
    reveal_strlit("--operation=");
    reveal_strlit("--profile");
    reveal_strlit("--profile-id");
    reveal_strlit("--profile-id=");
    reveal_strlit("--profile=");
    reveal_strlit("--read-only");
    reveal_strlit("--result");
    reveal_strlit("--result=");
    reveal_strlit("--role");
    reveal_strlit("--role=");
    reveal_strlit("--scenario");
    reveal_strlit("--scenario-id");
    reveal_strlit("--scenario-id=");
    reveal_strlit("--scenario=");
    reveal_strlit("--session");
    reveal_strlit("--session=");
    reveal_strlit("--stdio");
    reveal_strlit("--target-message");
    reveal_strlit("--target-message-id");
    reveal_strlit("--target-message-id=");
    reveal_strlit("--target-message=");
    reveal_strlit("--title");
    reveal_strlit("--title=");
    reveal_strlit("--yes");
    reveal_strlit("-h");
    reveal_strlit("=");
    let f = "--session"@;
    let a = f + "="@ + v;
    lemma_seq_differs(a, "--read-only"@, 2);
    lemma_seq_differs(a, "--allow-writes"@, 2);
    lemma_seq_differs(a, "--allow-network"@, 2);
    lemma_seq_differs(a, "--profile-id"@, 2);
    lemma_seq_differs(a, "--character"@, 2);
    lemma_seq_differs(a, "--character-id"@, 2);
    lemma_seq_differs(a, "--scenario"@, 3);
    lemma_seq_differs(a, "--scenario-id"@, 3);
    lemma_seq_differs(a, "--operation"@, 2);
    lemma_seq_differs(a, "--message-id"@, 2);
    lemma_seq_differs(a, "--target-message"@, 2);
    lemma_seq_differs(a, "--target-message-id"@, 2);
    lemma_seq_differs(a, "--allow-tool"@, 2);
    lemma_seq_differs(a, "--allow-tools"@, 2);
    lemma_prefix_differs(f, "--db="@, 2);
    lemma_prefix_differs(f, "--limit="@, 2);
    lemma_prefix_differs(a, "--db="@, 2);
    lemma_prefix_differs(a, "--limit="@, 2);
    assert(a.subrange(0, 10) =~= "--session="@);
    assert(classify(f) == ArgKind::Valued(Slot::Session));
    assert(text::has_prefix(a, "--session="@));
    assert(classify(a) == ArgKind::Inline(Slot::Session, "--session="));
}

#[verifier::rlimit(50)]
proof fn lemma_inline_form_id(v: Seq<char>)
    ensures
        classify("--id"@ + "="@ + v) matches ArgKind::Inline(s, p) && classify("--id"@) == ArgKind::Valued(s) && p@
            == "--id"@ + "="@,
        classify("--id"@) == ArgKind::Valued(Slot::Session),
{
    reveal_strlit("-");
    reveal_strlit("--actor");
    reveal_strlit("--actor=");
    reveal_strlit("--allow-network");
    reveal_strlit("--allow-tool");
    reveal_strlit("--allow-tool=");
    reveal_strlit("--allow-tools");
    reveal_strlit("--allow-tools=");
    reveal_strlit("--allow-writes");
    reveal_strlit("--character");
    reveal_strlit("--character-id");
    reveal_strlit("--character-id=");
    reveal_strlit("--character=");
    reveal_strlit("--content");
    reveal_strlit("--content=");
    reveal_strlit("--db");
    reveal_strlit("--db=");
    reveal_strlit("--help");
    reveal_strlit("--id");
    reveal_strlit("--id=");
    reveal_strlit("--json");
    reveal_strlit("--limit");
    reveal_strlit("--limit=");
    reveal_strlit("--message");
    reveal_strlit("--message-id");
    reveal_strlit("--message-id=");
    reveal_strlit("--message=");
    reveal_strlit("--mode");
    reveal_strlit("--mode-id");
    reveal_strlit("--mode-id=");
    reveal_strlit("--mode=");
    reveal_strlit("--operation");
    reveal_strlit("--operation=");
    reveal_strlit("--profile");
    reveal_strlit("--profile-id");
    reveal_strlit("--profile-id=");
    reveal_strlit("--profile=");
    reveal_strlit("--read-only");
    reveal_strlit("--result");
    reveal_strlit("--result=");
    reveal_strlit("--role");
    reveal_strlit("--role=");
    reveal_strlit("--scenario");
    reveal_strlit("--scenario-id");
    reveal_strlit("--scenario-id=");
    reveal_strlit("--scenario=");
    reveal_strlit("--session");
    reveal_strlit("--session=");
    reveal_strlit("--stdio");
    reveal_strlit("--target-message");
    reveal_strlit("--target-message-id");
    reveal_strlit("--target-message-id=");
    reveal_strlit("--target-message=");
    reveal_strlit("--title");
    reveal_strlit("--title=");
    reveal_strlit("--yes");
    reveal_strlit("-h");
    reveal_strlit("=");
    let f = "--id"@;
    let a = f + "="@ + v;
    lemma_seq_differs(f, "--db"@, 2);
    lemma_seq_differs(a, "--help"@, 2);
    lemma_seq_differs(a, "--json"@, 2);
    lemma_seq_differs(a, "--read-only"@, 2);
    lemma_seq_differs(a, "--stdio"@, 2);
    lemma_seq_differs(a, "--allow-writes"@, 2);
    lemma_seq_differs(a, "--allow-network"@, 2);
    lemma_seq_differs(a, "--yes"@, 2);
    lemma_seq_differs(a, "--limit"@, 2);
    lemma_seq_differs(a, "--session"@, 2);
    lemma_seq_differs(a, "--profile"@, 2);
    lemma_seq_differs(a, "--profile-id"@, 2);
    lemma_seq_differs(a, "--character"@, 2);
    lemma_seq_differs(a, "--character-id"@, 2);
    lemma_seq_differs(a, "--title"@, 2);
    lemma_seq_differs(a, "--mode"@, 2);
    lemma_seq_differs(a, "--mode-id"@, 2);
    lemma_seq_differs(a, "--scenario"@, 2);
    lemma_seq_differs(a, "--scenario-id"@, 2);
    lemma_seq_differs(a, "--role"@, 2);
    lemma_seq_differs(a, "--content"@, 2);
    lemma_seq_differs(a, "--operation"@, 2);
    lemma_seq_differs(a, "--actor"@, 2);
    lemma_seq_differs(a, "--result"@, 2);
    lemma_seq_differs(a, "--message"@, 2);
    lemma_seq_differs(a, "--message-id"@, 2);
    lemma_seq_differs(a, "--target-message"@, 2);
    lemma_seq_differs(a, "--target-message-id"@, 2);
    lemma_seq_differs(a, "--allow-tool"@, 2);
    lemma_seq_differs(a, "--allow-tools"@, 2);
    lemma_prefix_differs(a, "--db="@, 2);
    lemma_prefix_differs(a, "--limit="@, 2);
    lemma_prefix_differs(a, "--session="@, 2);
    assert(a.subrange(0, 5) =~= "--id="@);
    assert(classify(f) == ArgKind::Valued(Slot::Session));
    assert(text::has_prefix(a, "--id="@));
    assert(classify(a) == ArgKind::Inline(Slot::Session, "--id="));
}

#[verifier::rlimit(50)]
proof fn lemma_inline_form_profile(v: Seq<char>)
    ensures
        classify("--profile"@ + "="@ + v) matches ArgKind::Inline(s, p) && classify("--profile"@) == ArgKind::Valued(s) && p@
            == "--profile"@ + "="@,
        classify("--profile"@) == ArgKind::Valued(Slot::Profile),
{
    reveal_strlit("-");
    reveal_strlit("--actor");
    reveal_strlit("--actor=");
    reveal_strlit("--allow-network");
    reveal_strlit("--allow-tool");
    reveal_strlit("--allow-tool=");
    reveal_strlit("--allow-tools");
    reveal_strlit("--allow-tools=");
    reveal_strlit("--allow-writes");
    reveal_strlit("--character");
    reveal_strlit("--character-id");
    reveal_strlit("--character-id=");
    reveal_strlit("--character=");
    reveal_strlit("--content");
    reveal_strlit("--content=");
    reveal_strlit("--db");
    reveal_strlit("--db=");
    reveal_strlit("--help");
    reveal_strlit("--id");
    reveal_strlit("--id=");
    reveal_strlit("--json");
    reveal_strlit("--limit");
    reveal_strlit("--limit=");
    reveal_strlit("--message");
    reveal_strlit("--message-id");
    reveal_strlit("--message-id=");
    reveal_strlit("--message=");
    reveal_strlit("--mode");
    reveal_strlit("--mode-id");
    reveal_strlit("--mode-id=");
    reveal_strlit("--mode=");
    reveal_strlit("--operation");
    reveal_strlit("--operation=");
    reveal_strlit("--profile");
    reveal_strlit("--profile-id");
    reveal_strlit("--profile-id=");
    reveal_strlit("--profile=");
    reveal_strlit("--read-only");
    reveal_strlit("--result");
    reveal_strlit("--result=");
    reveal_strlit("--role");
    reveal_strlit("--role=");
    reveal_strlit("--scenario");
    reveal_strlit("--scenario-id");
    reveal_strlit("--scenario-id=");
    reveal_strlit("--scenario=");
    reveal_strlit("--session");
    reveal_strlit("--session=");
    reveal_strlit("--stdio");
    reveal_strlit("--target-message");
    reveal_strlit("--target-message-id");
    reveal_strlit("--target-message-id=");
    reveal_strlit("--target-message=");
    reveal_strlit("--title");
    reveal_strlit("--title=");
    reveal_strlit("--yes");
    reveal_strlit("-h");
    reveal_strlit("=");
    let f = "--profile"@;
    let a = f + "="@ + v;
    lemma_seq_differs(f, "--session"@, 2);
    lemma_seq_differs(a, "--read-only"@, 2);
    lemma_seq_differs(a, "--allow-writes"@, 2);
    lemma_seq_differs(a, "--allow-network"@, 2);
    lemma_seq_differs(a, "--profile-id"@, 9);
    lemma_seq_differs(a, "--character"@, 2);
    lemma_seq_differs(a, "--character-id"@, 2);
    lemma_seq_differs(a, "--scenario"@, 2);
    lemma_seq_differs(a, "--scenario-id"@, 2);
    lemma_seq_differs(a, "--operation"@, 2);
    lemma_seq_differs(a, "--message-id"@, 2);
    lemma_seq_differs(a, "--target-message"@, 2);
    lemma_seq_differs(a, "--target-message-id"@, 2);
    lemma_seq_differs(a, "--allow-tool"@, 2);
    lemma_seq_differs(a, "--allow-tools"@, 2);
    lemma_prefix_differs(f, "--db="@, 2);
    lemma_prefix_differs(f, "--limit="@, 2);
    lemma_prefix_differs(f, "--id="@, 2);
    lemma_prefix_differs(a, "--db="@, 2);
    lemma_prefix_differs(a, "--limit="@, 2);
    lemma_prefix_differs(a, "--session="@, 2);
    lemma_prefix_differs(a, "--id="@, 2);
    assert(a.subrange(0, 10) =~= "--profile="@);
    assert(classify(f) == ArgKind::Valued(Slot::Profile));
    assert(text::has_prefix(a, "--profile="@));
    assert(classify(a) == ArgKind::Inline(Slot::Profile, "--profile="));
}

#[verifier::rlimit(50)]
proof fn lemma_inline_form_profile_id(v: Seq<char>)
    ensures
        classify("--profile-id"@ + "="@ + v) matches ArgKind::Inline(s, p) && classify("--profile-id"@) == ArgKind::Valued(s) && p@
            == "--profile-id"@ + "="@,
        classify("--profile-id"@) == ArgKind::Valued(Slot::Profile),
{
    reveal_strlit("-");
    reveal_strlit("--actor");
    reveal_strlit("--actor=");
    reveal_strlit("--allow-network");
    reveal_strlit("--allow-tool");
    reveal_strlit("--allow-tool=");
    reveal_strlit("--allow-tools");
    reveal_strlit("--allow-tools=");
    reveal_strlit("--allow-writes");
    reveal_strlit("--character");
    reveal_strlit("--character-id");
    reveal_strlit("--character-id=");
    reveal_strlit("--character=");
    reveal_strlit("--content");
    reveal_strlit("--content=");
    reveal_strlit("--db");
    reveal_strlit("--db=");
    reveal_strlit("--help");
    reveal_strlit("--id");
    reveal_strlit("--id=");
    reveal_strlit("--json");
    reveal_strlit("--limit");
    reveal_strlit("--limit=");
    reveal_strlit("--message");
    reveal_strlit("--message-id");
    reveal_strlit("--message-id=");
    reveal_strlit("--message=");
    reveal_strlit("--mode");
    reveal_strlit("--mode-id");
    reveal_strlit("--mode-id=");
    reveal_strlit("--mode=");
    reveal_strlit("--operation");
    reveal_strlit("--operation=");
    reveal_strlit("--profile");
    reveal_strlit("--profile-id");
    reveal_strlit("--profile-id=");
    reveal_strlit("--profile=");
    reveal_strlit("--read-only");
    reveal_strlit("--result");
    reveal_strlit("--result=");
    reveal_strlit("--role");
    reveal_strlit("--role=");
    reveal_strlit("--scenario");
    reveal_strlit("--scenario-id");
    reveal_strlit("--scenario-id=");
    reveal_strlit("--scenario=");
    reveal_strlit("--session");
    reveal_strlit("--session=");
    reveal_strlit("--stdio");
    reveal_strlit("--target-message");
    reveal_strlit("--target-message-id");
    reveal_strlit("--target-message-id=");
    reveal_strlit("--target-message=");
    reveal_strlit("--title");
    reveal_strlit("--title=");
    reveal_strlit("--yes");
    reveal_strlit("-h");
    reveal_strlit("=");
    let f = "--profile-id"@;
    let a = f + "="@ + v;
    lemma_seq_differs(a, "--allow-writes"@, 2);
    lemma_seq_differs(a, "--allow-network"@, 2);
    lemma_seq_differs(a, "--character-id"@, 2);
    lemma_seq_differs(a, "--scenario-id"@, 2);
    lemma_seq_differs(a, "--target-message"@, 2);
    lemma_seq_differs(a, "--target-message-id"@, 2);
    lemma_seq_differs(a, "--allow-tools"@, 2);
    lemma_prefix_differs(f, "--db="@, 2);
    lemma_prefix_differs(f, "--limit="@, 2);
    lemma_prefix_differs(f, "--session="@, 2);
    lemma_prefix_differs(f, "--id="@, 2);
    lemma_prefix_differs(a, "--db="@, 2);
    lemma_prefix_differs(a, "--limit="@, 2);
    lemma_prefix_differs(a, "--session="@, 2);
    lemma_prefix_differs(a, "--id="@, 2);
    lemma_prefix_differs(a, "--profile="@, 9);
    assert(a.subrange(0, 13) =~= "--profile-id="@);
    assert(classify(f) == ArgKind::Valued(Slot::Profile));
    assert(text::has_prefix(a, "--profile-id="@));
    assert(classify(a) == ArgKind::Inline(Slot::Profile, "--profile-id="));
}

#[verifier::rlimit(50)]
proof fn lemma_inline_form_character(v: Seq<char>)
    ensures
        classify("--character"@ + "="@ + v) matches ArgKind::Inline(s, p) && classify("--character"@) == ArgKind::Valued(s) && p@
            == "--character"@ + "="@,
        classify("--character"@) == ArgKind::Valued(Slot::Character),
{
    reveal_strlit("-");
    reveal_strlit("--actor");
    reveal_strlit("--actor=");
    reveal_strlit("--allow-network");
    reveal_strlit("--allow-tool");
    reveal_strlit("--allow-tool=");
    reveal_strlit("--allow-tools");
    reveal_strlit("--allow-tools=");
    reveal_strlit("--allow-writes");
    reveal_strlit("--character");
    reveal_strlit("--character-id");
    reveal_strlit("--character-id=");
    reveal_strlit("--character=");
    reveal_strlit("--content");
    reveal_strlit("--content=");
    reveal_strlit("--db");
    reveal_strlit("--db=");
    reveal_strlit("--help");
    reveal_strlit("--id");
    reveal_strlit("--id=");
    reveal_strlit("--json");
    reveal_strlit("--limit");
    reveal_strlit("--limit=");
    reveal_strlit("--message");
    reveal_strlit("--message-id");
    reveal_strlit("--message-id=");
    reveal_strlit("--message=");
    reveal_strlit("--mode");
    reveal_strlit("--mode-id");
    reveal_strlit("--mode-id=");
    reveal_strlit("--mode=");
    reveal_strlit("--operation");
    reveal_strlit("--operation=");
    reveal_strlit("--profile");
    reveal_strlit("--profile-id");
    reveal_strlit("--profile-id=");
    reveal_strlit("--profile=");
    reveal_strlit("--read-only");
    reveal_strlit("--result");
    reveal_strlit("--result=");
    reveal_strlit("--role");
    reveal_strlit("--role=");
    reveal_strlit("--scenario");
    reveal_strlit("--scenario-id");
    reveal_strlit("--scenario-id=");
    reveal_strlit("--scenario=");
    reveal_strlit("--session");
    reveal_strlit("--session=");
    reveal_strlit("--stdio");
    reveal_strlit("--target-message");
    reveal_strlit("--target-message-id");
    reveal_strlit("--target-message-id=");
    reveal_strlit("--target-message=");
    reveal_strlit("--title");
    reveal_strlit("--title=");
    reveal_strlit("--yes");
    reveal_strlit("-h");
    reveal_strlit("=");
    let f = "--character"@;
    let a = f + "="@ + v;
    lemma_seq_differs(f, "--read-only"@, 2);
    lemma_seq_differs(a, "--allow-writes"@, 2);
    lemma_seq_differs(a, "--allow-network"@, 2);
    lemma_seq_differs(a, "--profile-id"@, 2);
    lemma_seq_differs(a, "--character-id"@, 11);
    lemma_seq_differs(a, "--scenario-id"@, 2);
    lemma_seq_differs(a, "--message-id"@, 2);
    lemma_seq_differs(a, "--target-message"@, 2);
    lemma_seq_differs(a, "--target-message-id"@, 2);
    lemma_seq_differs(a, "--allow-tool"@, 2);
    lemma_seq_differs(a, "--allow-tools"@, 2);
    lemma_prefix_differs(f, "--db="@, 2);
    lemma_prefix_differs(f, "--limit="@, 2);
    lemma_prefix_differs(f, "--session="@, 2);
    lemma_prefix_differs(f, "--id="@, 2);
    lemma_prefix_differs(f, "--profile="@, 2);
    lemma_prefix_differs(a, "--db="@, 2);
    lemma_prefix_differs(a, "--limit="@, 2);
    lemma_prefix_differs(a, "--session="@, 2);
    lemma_prefix_differs(a, "--id="@, 2);
    lemma_prefix_differs(a, "--profile="@, 2);
    lemma_prefix_differs(a, "--profile-id="@, 2);
    assert(a.subrange(0, 12) =~= "--character="@);
    assert(classify(f) == ArgKind::Valued(Slot::Character));
    assert(text::has_prefix(a, "--character="@));
    assert(classify(a) == ArgKind::Inline(Slot::Character, "--character="));
}

#[verifier::rlimit(50)]
proof fn lemma_inline_form_character_id(v: Seq<char>)
    ensures
        classify("--character-id"@ + "="@ + v) matches ArgKind::Inline(s, p) && classify("--character-id"@) == ArgKind::Valued(s) && p@
            == "--character-id"@ + "="@,
        classify("--character-id"@) == ArgKind::Valued(Slot::Character),
{
    reveal_strlit("-");
    reveal_strlit("--actor");
    reveal_strlit("--actor=");
    reveal_strlit("--allow-network");
    reveal_strlit("--allow-tool");
    reveal_strlit("--allow-tool=");
    reveal_strlit("--allow-tools");
    reveal_strlit("--allow-tools=");
    reveal_strlit("--allow-writes");
    reveal_strlit("--character");
    reveal_strlit("--character-id");
    reveal_strlit("--character-id=");
    reveal_strlit("--character=");
    reveal_strlit("--content");
    reveal_strlit("--content=");
    reveal_strlit("--db");
    reveal_strlit("--db=");
    reveal_strlit("--help");
    reveal_strlit("--id");
    reveal_strlit("--id=");
    reveal_strlit("--json");
    reveal_strlit("--limit");
    reveal_strlit("--limit=");
    reveal_strlit("--message");
    reveal_strlit("--message-id");
    reveal_strlit("--message-id=");
    reveal_strlit("--message=");
    reveal_strlit("--mode");
    reveal_strlit("--mode-id");
    reveal_strlit("--mode-id=");
    reveal_strlit("--mode=");
    reveal_strlit("--operation");
    reveal_strlit("--operation=");
    reveal_strlit("--profile");
    reveal_strlit("--profile-id");
    reveal_strlit("--profile-id=");
    reveal_strlit("--profile=");
    reveal_strlit("--read-only");
    reveal_strlit("--result");
    reveal_strlit("--result=");
    reveal_strlit("--role");
    reveal_strlit("--role=");
    reveal_strlit("--scenario");
    reveal_strlit("--scenario-id");
    reveal_strlit("--scenario-id=");
    reveal_strlit("--scenario=");
    reveal_strlit("--session");
    reveal_strlit("--session=");
    reveal_strlit("--stdio");
    reveal_strlit("--target-message");
    reveal_strlit("--target-message-id");
    reveal_strlit("--target-message-id=");
    reveal_strlit("--target-message=");
    reveal_strlit("--title");
    reveal_strlit("--title=");
    reveal_strlit("--yes");
    reveal_strlit("-h");
    reveal_strlit("=");
    let f = "--character-id"@;
    let a = f + "="@ + v;
    lemma_seq_differs(f, "--allow-writes"@, 2);
    lemma_seq_differs(a, "--allow-network"@, 2);
    lemma_seq_differs(a, "--target-message"@, 2);
    lemma_seq_differs(a, "--target-message-id"@, 2);
    lemma_prefix_differs(f, "--db="@, 2);
    lemma_prefix_differs(f, "--limit="@, 2);
    lemma_prefix_differs(f, "--session="@, 2);
    lemma_prefix_differs(f, "--id="@, 2);
    lemma_prefix_differs(f, "--profile="@, 2);
    lemma_prefix_differs(f, "--profile-id="@, 2);
    lemma_prefix_differs(a, "--db="@, 2);
    lemma_prefix_differs(a, "--limit="@, 2);
    lemma_prefix_differs(a, "--session="@, 2);
    lemma_prefix_differs(a, "--id="@, 2);
    lemma_prefix_differs(a, "--profile="@, 2);
    lemma_prefix_differs(a, "--profile-id="@, 2);
    lemma_prefix_differs(a, "--character="@, 11);
    assert(a.subrange(0, 15) =~= "--character-id="@);
    assert(classify(f) == ArgKind::Valued(Slot::Character));
    assert(text::has_prefix(a, "--character-id="@));
    assert(classify(a) == ArgKind::Inline(Slot::Character, "--character-id="));
}

#[verifier::rlimit(50)]
proof fn lemma_inline_form_title(v: Seq<char>)
    ensures
        classify("--title"@ + "="@ + v) matches ArgKind::Inline(s, p) && classify("--title"@) == ArgKind::Valued(s) && p@
            == "--title"@ + "="@,
        classify("--title"@) == ArgKind::Valued(Slot::Title),
{
    reveal_strlit("-");
    reveal_strlit("--actor");
    reveal_strlit("--actor=");
    reveal_strlit("--allow-network");
    reveal_strlit("--allow-tool");
    reveal_strlit("--allow-tool=");
    reveal_strlit("--allow-tools");
    reveal_strlit("--allow-tools=");
    reveal_strlit("--allow-writes");
    reveal_strlit("--character");
    reveal_strlit("--character-id");
    reveal_strlit("--character-id=");
    reveal_strlit("--character=");
    reveal_strlit("--content");
    reveal_strlit("--content=");
    reveal_strlit("--db");
    reveal_strlit("--db=");
    reveal_strlit("--help");
    reveal_strlit("--id");
    reveal_strlit("--id=");
    reveal_strlit("--json");
    reveal_strlit("--limit");
    reveal_strlit("--limit=");
    reveal_strlit("--message");
    reveal_strlit("--message-id");
    reveal_strlit("--message-id=");
    reveal_strlit("--message=");
    reveal_strlit("--mode");
    reveal_strlit("--mode-id");
    reveal_strlit("--mode-id=");
    reveal_strlit("--mode=");
    reveal_strlit("--operation");
    reveal_strlit("--operation=");
    reveal_strlit("--profile");
    reveal_strlit("--profile-id");
    reveal_strlit("--profile-id=");
    reveal_strlit("--profile=");
    reveal_strlit("--read-only");
    reveal_strlit("--result");
    reveal_strlit("--result=");
    reveal_strlit("--role");
    reveal_strlit("--role=");
    reveal_strlit("--scenario");
    reveal_strlit("--scenario-id");
    reveal_strlit("--scenario-id=");
    reveal_strlit("--scenario=");
    reveal_strlit("--session");
    reveal_strlit("--session=");
    reveal_strlit("--stdio");
    reveal_strlit("--target-message");
    reveal_strlit("--target-message-id");
    reveal_strlit("--target-message-id=");
    reveal_strlit("--target-message=");
    reveal_strlit("--title");
    reveal_strlit("--title=");
    reveal_strlit("--yes");
    reveal_strlit("-h");
    reveal_strlit("=");
    let f = "--title"@;
    let a = f + "="@ + v;
    lemma_seq_differs(f, "--stdio"@, 2);
    lemma_seq_differs(f, "--limit"@, 2);
    lemma_seq_differs(a, "--read-only"@, 2);
    lemma_seq_differs(a, "--allow-writes"@, 2);
    lemma_seq_differs(a, "--allow-network"@, 2);
    lemma_seq_differs(a, "--session"@, 2);
    lemma_seq_differs(a, "--profile"@, 2);
    lemma_seq_differs(a, "--profile-id"@, 2);
    lemma_seq_differs(a, "--character"@, 2);
    lemma_seq_differs(a, "--character-id"@, 2);
    lemma_seq_differs(a, "--mode-id"@, 2);
    lemma_seq_differs(a, "--scenario"@, 2);
    lemma_seq_differs(a, "--scenario-id"@, 2);
    lemma_seq_differs(a, "--content"@, 2);
    lemma_seq_differs(a, "--operation"@, 2);
    lemma_seq_differs(a, "--result"@, 2);
    lemma_seq_differs(a, "--message"@, 2);
    lemma_seq_differs(a, "--message-id"@, 2);
    lemma_seq_differs(a, "--target-message"@, 3);
    lemma_seq_differs(a, "--target-message-id"@, 3);
    lemma_seq_differs(a, "--allow-tool"@, 2);
    lemma_seq_differs(a, "--allow-tools"@, 2);
    lemma_prefix_differs(f, "--db="@, 2);
    lemma_prefix_differs(f, "--id="@, 2);
    lemma_prefix_differs(a, "--db="@, 2);
    lemma_prefix_differs(a, "--limit="@, 2);
    lemma_prefix_differs(a, "--session="@, 2);
    lemma_prefix_differs(a, "--id="@, 2);
    lemma_prefix_differs(a, "--profile="@, 2);
    lemma_prefix_differs(a, "--profile-id="@, 2);
    lemma_prefix_differs(a, "--character="@, 2);
    lemma_prefix_differs(a, "--character-id="@, 2);
    assert(a.subrange(0, 8) =~= "--title="@);
    assert(classify(f) == ArgKind::Valued(Slot::Title));
    assert(text::has_prefix(a, "--title="@));
    assert(classify(a) == ArgKind::Inline(Slot::Title, "--title="));
}

#[verifier::rlimit(50)]
proof fn lemma_inline_form_mode(v: Seq<char>)
    ensures
        classify("--mode"@ + "="@ + v) matches ArgKind::Inline(s, p) && classify("--mode"@) == ArgKind::Valued(s) && p@
            == "--mode"@ + "="@,
        classify("--mode"@) == ArgKind::Valued(Slot::Mode),
{
    reveal_strlit("-");
    reveal_strlit("--actor");
    reveal_strlit("--actor=");
    reveal_strlit("--allow-network");
    reveal_strlit("--allow-tool");
    reveal_strlit("--allow-tool=");
    reveal_strlit("--allow-tools");
    reveal_strlit("--allow-tools=");
    reveal_strlit("--allow-writes");
    reveal_strlit("--character");
    reveal_strlit("--character-id");
    reveal_strlit("--character-id=");
    reveal_strlit("--character=");
    reveal_strlit("--content");
    reveal_strlit("--content=");
    reveal_strlit("--db");
    reveal_strlit("--db=");
    reveal_strlit("--help");
    reveal_strlit("--id");
    reveal_strlit("--id=");
    reveal_strlit("--json");
    reveal_strlit("--limit");
    reveal_strlit("--limit=");
    reveal_strlit("--message");
    reveal_strlit("--message-id");
    reveal_strlit("--message-id=");
    reveal_strlit("--message=");
    reveal_strlit("--mode");
    reveal_strlit("--mode-id");
    reveal_strlit("--mode-id=");
    reveal_strlit("--mode=");
    reveal_strlit("--operation");
    reveal_strlit("--operation=");
    reveal_strlit("--profile");
    reveal_strlit("--profile-id");
    reveal_strlit("--profile-id=");
    reveal_strlit("--profile=");
    reveal_strlit("--read-only");
    reveal_strlit("--result");
    reveal_strlit("--result=");
    reveal_strlit("--role");
    reveal_strlit("--role=");
    reveal_strlit("--scenario");
    reveal_strlit("--scenario-id");
    reveal_strlit("--scenario-id=");
    reveal_strlit("--scenario=");
    reveal_strlit("--session");
    reveal_strlit("--session=");
    reveal_strlit("--stdio");
    reveal_strlit("--target-message");
    reveal_strlit("--target-message-id");
    reveal_strlit("--target-message-id=");
    reveal_strlit("--target-message=");
    reveal_strlit("--title");
    reveal_strlit("--title=");
    reveal_strlit("--yes");
    reveal_strlit("-h");
    reveal_strlit("=");
    let f = "--mode"@;
    let a = f + "="@ + v;
    lemma_seq_differs(f, "--help"@, 2);
    lemma_seq_differs(f, "--json"@, 2);
    lemma_seq_differs(a, "--read-only"@, 2);
    lemma_seq_differs(a, "--stdio"@, 2);
    lemma_seq_differs(a, "--allow-writes"@, 2);
    lemma_seq_differs(a, "--allow-network"@, 2);
    lemma_seq_differs(a, "--limit"@, 2);
    lemma_seq_differs(a, "--session"@, 2);
    lemma_seq_differs(a, "--profile"@, 2);
    lemma_seq_differs(a, "--profile-id"@, 2);
    lemma_seq_differs(a, "--character"@, 2);
    lemma_seq_differs(a, "--character-id"@, 2);
    lemma_seq_differs(a, "--title"@, 2);
    lemma_seq_differs(a, "--mode-id"@, 6);
    lemma_seq_differs(a, "--scenario"@, 2);
    lemma_seq_differs(a, "--scenario-id"@, 2);
    lemma_seq_differs(a, "--content"@, 2);
    lemma_seq_differs(a, "--operation"@, 2);
    lemma_seq_differs(a, "--actor"@, 2);
    lemma_seq_differs(a, "--result"@, 2);
    lemma_seq_differs(a, "--message"@, 3);
    lemma_seq_differs(a, "--message-id"@, 3);
    lemma_seq_differs(a, "--target-message"@, 2);
    lemma_seq_differs(a, "--target-message-id"@, 2);
    lemma_seq_differs(a, "--allow-tool"@, 2);
    lemma_seq_differs(a, "--allow-tools"@, 2);
    lemma_prefix_differs(f, "--db="@, 2);
    lemma_prefix_differs(f, "--id="@, 2);
    lemma_prefix_differs(a, "--db="@, 2);
    lemma_prefix_differs(a, "--limit="@, 2);
    lemma_prefix_differs(a, "--session="@, 2);
    lemma_prefix_differs(a, "--id="@, 2);
    lemma_prefix_differs(a, "--profile="@, 2);
    lemma_prefix_differs(a, "--profile-id="@, 2);
    lemma_prefix_differs(a, "--character="@, 2);
    lemma_prefix_differs(a, "--character-id="@, 2);
    lemma_prefix_differs(a, "--title="@, 2);
    assert(a.subrange(0, 7) =~= "--mode="@);
    assert(classify(f) == ArgKind::Valued(Slot::Mode));
    assert(text::has_prefix(a, "--mode="@));
    assert(classify(a) == ArgKind::Inline(Slot::Mode, "--mode="));
}

#[verifier::rlimit(50)]
proof fn lemma_inline_form_mode_id(v: Seq<char>)
    ensures
        classify("--mode-id"@ + "="@ + v) matches ArgKind::Inline(s, p) && classify("--mode-id"@) == ArgKind::Valued(s) && p@
            == "--mode-id"@ + "="@,
        classify("--mode-id"@) == ArgKind::Valued(Slot::Mode),
{
    reveal_strlit("-");
    reveal_strlit("--actor");
    reveal_strlit("--actor=");
    reveal_strlit("--allow-network");
    reveal_strlit("--allow-tool");
    reveal_strlit("--allow-tool=");
    reveal_strlit("--allow-tools");
    reveal_strlit("--allow-tools=");
    reveal_strlit("--allow-writes");
    reveal_strlit("--character");
    reveal_strlit("--character-id");
    reveal_strlit("--character-id=");
    reveal_strlit("--character=");
    reveal_strlit("--content");
    reveal_strlit("--content=");
    reveal_strlit("--db");
    reveal_strlit("--db=");
    reveal_strlit("--help");
    reveal_strlit("--id");
    reveal_strlit("--id=");
    reveal_strlit("--json");
    reveal_strlit("--limit");
    reveal_strlit("--limit=");
    reveal_strlit("--message");
    reveal_strlit("--message-id");
    reveal_strlit("--message-id=");
    reveal_strlit("--message=");
    reveal_strlit("--mode");
    reveal_strlit("--mode-id");
    reveal_strlit("--mode-id=");
    reveal_strlit("--mode=");
    reveal_strlit("--operation");
    reveal_strlit("--operation=");
    reveal_strlit("--profile");
    reveal_strlit("--profile-id");
    reveal_strlit("--profile-id=");
    reveal_strlit("--profile=");
    reveal_strlit("--read-only");
    reveal_strlit("--result");
    reveal_strlit("--result=");
    reveal_strlit("--role");
    reveal_strlit("--role=");
    reveal_strlit("--scenario");
    reveal_strlit("--scenario-id");
    reveal_strlit("--scenario-id=");
    reveal_strlit("--scenario=");
    reveal_strlit("--session");
    reveal_strlit("--session=");
    reveal_strlit("--stdio");
    reveal_strlit("--target-message");
    reveal_strlit("--target-message-id");
    reveal_strlit("--target-message-id=");
    reveal_strlit("--target-message=");
    reveal_strlit("--title");
    reveal_strlit("--title=");
    reveal_strlit("--yes");
    reveal_strlit("-h");
    reveal_strlit("=");
    let f = "--mode-id"@;
    let a = f + "="@ + v;
    lemma_seq_differs(f, "--session"@, 2);
    lemma_seq_differs(f, "--profile"@, 2);
    lemma_seq_differs(a, "--read-only"@, 2);
    lemma_seq_differs(a, "--allow-writes"@, 2);
    lemma_seq_differs(a, "--allow-network"@, 2);
    lemma_seq_differs(a, "--profile-id"@, 2);
    lemma_seq_differs(a, "--character"@, 2);
    lemma_seq_differs(a, "--character-id"@, 2);
    lemma_seq_differs(a, "--scenario"@, 2);
    lemma_seq_differs(a, "--scenario-id"@, 2);
    lemma_seq_differs(a, "--operation"@, 2);
    lemma_seq_differs(a, "--message-id"@, 3);
    lemma_seq_differs(a, "--target-message"@, 2);
    lemma_seq_differs(a, "--target-message-id"@, 2);
    lemma_seq_differs(a, "--allow-tool"@, 2);
    lemma_seq_differs(a, "--allow-tools"@, 2);
    lemma_prefix_differs(f, "--db="@, 2);
    lemma_prefix_differs(f, "--limit="@, 2);
    lemma_prefix_differs(f, "--id="@, 2);
    lemma_prefix_differs(f, "--title="@, 2);
    lemma_prefix_differs(a, "--db="@, 2);
    lemma_prefix_differs(a, "--limit="@, 2);
    lemma_prefix_differs(a, "--session="@, 2);
    lemma_prefix_differs(a, "--id="@, 2);
    lemma_prefix_differs(a, "--profile="@, 2);
    lemma_prefix_differs(a, "--profile-id="@, 2);
    lemma_prefix_differs(a, "--character="@, 2);
    lemma_prefix_differs(a, "--character-id="@, 2);
    lemma_prefix_differs(a, "--title="@, 2);
    lemma_prefix_differs(a, "--mode="@, 6);
    assert(a.subrange(0, 10) =~= "--mode-id="@);
    assert(classify(f) == ArgKind::Valued(Slot::Mode));
    assert(text::has_prefix(a, "--mode-id="@));
    assert(classify(a) == ArgKind::Inline(Slot::Mode, "--mode-id="));
}

#[verifier::rlimit(50)]
proof fn lemma_inline_form_scenario(v: Seq<char>)
    ensures
        classify("--scenario"@ + "="@ + v) matches ArgKind::Inline(s, p) && classify("--scenario"@) == ArgKind::Valued(s) && p@
            == "--scenario"@ + "="@,
        classify("--scenario"@) == ArgKind::Valued(Slot::Scenario),
{
    reveal_strlit("-");
    reveal_strlit("--actor");
    reveal_strlit("--actor=");
    reveal_strlit("--allow-network");
    reveal_strlit("--allow-tool");
    reveal_strlit("--allow-tool=");
    reveal_strlit("--allow-tools");
    reveal_strlit("--allow-tools=");
    reveal_strlit("--allow-writes");
    reveal_strlit("--character");
    reveal_strlit("--character-id");
    reveal_strlit("--character-id=");
    reveal_strlit("--character=");
    reveal_strlit("--content");
    reveal_strlit("--content=");
    reveal_strlit("--db");
    reveal_strlit("--db=");
    reveal_strlit("--help");
    reveal_strlit("--id");
    reveal_strlit("--id=");
    reveal_strlit("--json");
    reveal_strlit("--limit");
    reveal_strlit("--limit=");
    reveal_strlit("--message");
    reveal_strlit("--message-id");
    reveal_strlit("--message-id=");
    reveal_strlit("--message=");
    reveal_strlit("--mode");
    reveal_strlit("--mode-id");
    reveal_strlit("--mode-id=");
    reveal_strlit("--mode=");
    reveal_strlit("--operation");
    reveal_strlit("--operation=");
    reveal_strlit("--profile");
    reveal_strlit("--profile-id");
    reveal_strlit("--profile-id=");
    reveal_strlit("--profile=");
    reveal_strlit("--read-only");
    reveal_strlit("--result");
    reveal_strlit("--result=");
    reveal_strlit("--role");
    reveal_strlit("--role=");
    reveal_strlit("--scenario");
    reveal_strlit("--scenario-id");
    reveal_strlit("--scenario-id=");
    reveal_strlit("--scenario=");
    reveal_strlit("--session");
    reveal_strlit("--session=");
    reveal_strlit("--stdio");
    reveal_strlit("--target-message");
    reveal_strlit("--target-message-id");
    reveal_strlit("--target-message-id=");
    reveal_strlit("--target-message=");
    reveal_strlit("--title");
    reveal_strlit("--title=");
    reveal_strlit("--yes");
    reveal_strlit("-h");
    reveal_strlit("=");
    let f = "--scenario"@;
    let a = f + "="@ + v;
    lemma_seq_differs(a, "--read-only"@, 2);
    lemma_seq_differs(a, "--allow-writes"@, 2);
    lemma_seq_differs(a, "--allow-network"@, 2);
    lemma_seq_differs(a, "--profile-id"@, 2);
    lemma_seq_differs(a, "--character"@, 2);
    lemma_seq_differs(a, "--character-id"@, 2);
    lemma_seq_differs(a, "--scenario-id"@, 10);
    lemma_seq_differs(a, "--operation"@, 2);
    lemma_seq_differs(a, "--message-id"@, 2);
    lemma_seq_differs(a, "--target-message"@, 2);
    lemma_seq_differs(a, "--target-message-id"@, 2);
    lemma_seq_differs(a, "--allow-tool"@, 2);
    lemma_seq_differs(a, "--allow-tools"@, 2);
    lemma_prefix_differs(f, "--db="@, 2);
    lemma_prefix_differs(f, "--limit="@, 2);
    lemma_prefix_differs(f, "--session="@, 3);
    lemma_prefix_differs(f, "--id="@, 2);
    lemma_prefix_differs(f, "--profile="@, 2);
    lemma_prefix_differs(f, "--title="@, 2);
    lemma_prefix_differs(f, "--mode="@, 2);
    lemma_prefix_differs(f, "--mode-id="@, 2);
    lemma_prefix_differs(a, "--db="@, 2);
    lemma_prefix_differs(a, "--limit="@, 2);
    lemma_prefix_differs(a, "--session="@, 3);
    lemma_prefix_differs(a, "--id="@, 2);
    lemma_prefix_differs(a, "--profile="@, 2);
    lemma_prefix_differs(a, "--profile-id="@, 2);
    lemma_prefix_differs(a, "--character="@, 2);
    lemma_prefix_differs(a, "--character-id="@, 2);
    lemma_prefix_differs(a, "--title="@, 2);
    lemma_prefix_differs(a, "--mode="@, 2);
    lemma_prefix_differs(a, "--mode-id="@, 2);
    assert(a.subrange(0, 11) =~= "--scenario="@);
    assert(classify(f) == ArgKind::Valued(Slot::Scenario));
    assert(text::has_prefix(a, "--scenario="@));
    assert(classify(a) == ArgKind::Inline(Slot::Scenario, "--scenario="));
}

#[verifier::rlimit(50)]
proof fn lemma_inline_form_scenario_id(v: Seq<char>)
    ensures
        classify("--scenario-id"@ + "="@ + v) matches ArgKind::Inline(s, p) && classify("--scenario-id"@) == ArgKind::Valued(s) && p@
            == "--scenario-id"@ + "="@,
        classify("--scenario-id"@) == ArgKind::Valued(Slot::Scenario),
{
    reveal_strlit("-");
    reveal_strlit("--actor");
    reveal_strlit("--actor=");
    reveal_strlit("--allow-network");
    reveal_strlit("--allow-tool");
    reveal_strlit("--allow-tool=");
    reveal_strlit("--allow-tools");
    reveal_strlit("--allow-tools=");
    reveal_strlit("--allow-writes");
    reveal_strlit("--character");
    reveal_strlit("--character-id");
    reveal_strlit("--character-id=");
    reveal_strlit("--character=");
    reveal_strlit("--content");
    reveal_strlit("--content=");
    reveal_strlit("--db");
    reveal_strlit("--db=");
    reveal_strlit("--help");
    reveal_strlit("--id");
    reveal_strlit("--id=");
    reveal_strlit("--json");
    reveal_strlit("--limit");
    reveal_strlit("--limit=");
    reveal_strlit("--message");
    reveal_strlit("--message-id");
    reveal_strlit("--message-id=");
    reveal_strlit("--message=");
    reveal_strlit("--mode");
    reveal_strlit("--mode-id");
    reveal_strlit("--mode-id=");
    reveal_strlit("--mode=");
    reveal_strlit("--operation");
    reveal_strlit("--operation=");
    reveal_strlit("--profile");
    reveal_strlit("--profile-id");
    reveal_strlit("--profile-id=");
    reveal_strlit("--profile=");
    reveal_strlit("--read-only");
    reveal_strlit("--result");
    reveal_strlit("--result=");
    reveal_strlit("--role");
    reveal_strlit("--role=");
    reveal_strlit("--scenario");
    reveal_strlit("--scenario-id");
    reveal_strlit("--scenario-id=");
    reveal_strlit("--scenario=");
    reveal_strlit("--session");
    reveal_strlit("--session=");
    reveal_strlit("--stdio");
    reveal_strlit("--target-message");
    reveal_strlit("--target-message-id");
    reveal_strlit("--target-message-id=");
    reveal_strlit("--target-message=");
    reveal_strlit("--title");
    reveal_strlit("--title=");
    reveal_strlit("--yes");
    reveal_strlit("-h");
    reveal_strlit("=");
    let f = "--scenario-id"@;
    let a = f + "="@ + v;
    lemma_seq_differs(a, "--allow-writes"@, 2);
    lemma_seq_differs(a, "--allow-network"@, 2);
    lemma_seq_differs(a, "--character-id"@, 2);
    lemma_seq_differs(a, "--target-message"@, 2);
    lemma_seq_differs(a, "--target-message-id"@, 2);
    lemma_prefix_differs(f, "--db="@, 2);
    lemma_prefix_differs(f, "--limit="@, 2);
    lemma_prefix_differs(f, "--session="@, 3);
    lemma_prefix_differs(f, "--id="@, 2);
    lemma_prefix_differs(f, "--profile="@, 2);
    lemma_prefix_differs(f, "--profile-id="@, 2);
    lemma_prefix_differs(f, "--character="@, 2);
    lemma_prefix_differs(f, "--title="@, 2);
    lemma_prefix_differs(f, "--mode="@, 2);
    lemma_prefix_differs(f, "--mode-id="@, 2);
    lemma_prefix_differs(a, "--db="@, 2);
    lemma_prefix_differs(a, "--limit="@, 2);
    lemma_prefix_differs(a, "--session="@, 3);
    lemma_prefix_differs(a, "--id="@, 2);
    lemma_prefix_differs(a, "--profile="@, 2);
    lemma_prefix_differs(a, "--profile-id="@, 2);
    lemma_prefix_differs(a, "--character="@, 2);
    lemma_prefix_differs(a, "--character-id="@, 2);
    lemma_prefix_differs(a, "--title="@, 2);
    lemma_prefix_differs(a, "--mode="@, 2);
    lemma_prefix_differs(a, "--mode-id="@, 2);
    lemma_prefix_differs(a, "--scenario="@, 10);
    assert(a.subrange(0, 14) =~= "--scenario-id="@);
    assert(classify(f) == ArgKind::Valued(Slot::Scenario));
    assert(text::has_prefix(a, "--scenario-id="@));
    assert(classify(a) == ArgKind::Inline(Slot::Scenario, "--scenario-id="));
}

#[verifier::rlimit(50)]
proof fn lemma_inline_form_role(v: Seq<char>)
    ensures
        classify("--role"@ + "="@ + v) matches ArgKind::Inline(s, p) && classify("--role"@) == ArgKind::Valued(s) && p@
            == "--role"@ + "="@,
        classify("--role"@) == ArgKind::Valued(Slot::Role),
{
    reveal_strlit("-");
    reveal_strlit("--actor");
    reveal_strlit("--actor=");
    reveal_strlit("--allow-network");
    reveal_strlit("--allow-tool");
    reveal_strlit("--allow-tool=");
    reveal_strlit("--allow-tools");
    reveal_strlit("--allow-tools=");
    reveal_strlit("--allow-writes");
    reveal_strlit("--character");
    reveal_strlit("--character-id");
    reveal_strlit("--character-id=");
    reveal_strlit("--character=");
    reveal_strlit("--content");
    reveal_strlit("--content=");
    reveal_strlit("--db");
    reveal_strlit("--db=");
    reveal_strlit("--help");
    reveal_strlit("--id");
    reveal_strlit("--id=");
    reveal_strlit("--json");
    reveal_strlit("--limit");
    reveal_strlit("--limit=");
    reveal_strlit("--message");
    reveal_strlit("--message-id");
    reveal_strlit("--message-id=");
    reveal_strlit("--message=");
    reveal_strlit("--mode");
    reveal_strlit("--mode-id");
    reveal_strlit("--mode-id=");
    reveal_strlit("--mode=");
    reveal_strlit("--operation");
    reveal_strlit("--operation=");
    reveal_strlit("--profile");
    reveal_strlit("--profile-id");
    reveal_strlit("--profile-id=");
    reveal_strlit("--profile=");
    reveal_strlit("--read-only");
    reveal_strlit("--result");
    reveal_strlit("--result=");
    reveal_strlit("--role");
    reveal_strlit("--role=");
    reveal_strlit("--scenario");
    reveal_strlit("--scenario-id");
    reveal_strlit("--scenario-id=");
    reveal_strlit("--scenario=");
    reveal_strlit("--session");
    reveal_strlit("--session=");
    reveal_strlit("--stdio");
    reveal_strlit("--target-message");
    reveal_strlit("--target-message-id");
    reveal_strlit("--target-message-id=");
    reveal_strlit("--target-message=");
    reveal_strlit("--title");
    reveal_strlit("--title=");
    reveal_strlit("--yes");
    reveal_strlit("-h");
    reveal_strlit("=");
    let f = "--role"@;
    let a = f + "="@ + v;
    lemma_seq_differs(f, "--help"@, 2);
    lemma_seq_differs(f, "--json"@, 2);
    lemma_seq_differs(f, "--mode"@, 2);
    lemma_seq_differs(a, "--read-only"@, 3);
    lemma_seq_differs(a, "--stdio"@, 2);
    lemma_seq_differs(a, "--allow-writes"@, 2);
    lemma_seq_differs(a, "--allow-network"@, 2);
    lemma_seq_differs(a, "--limit"@, 2);
    lemma_seq_differs(a, "--session"@, 2);
    lemma_seq_differs(a, "--profile"@, 2);
    lemma_seq_differs(a, "--profile-id"@, 2);
    lemma_seq_differs(a, "--character"@, 2);
    lemma_seq_differs(a, "--character-id"@, 2);
    lemma_seq_differs(a, "--title"@, 2);
    lemma_seq_differs(a, "--mode-id"@, 2);
    lemma_seq_differs(a, "--scenario"@, 2);
    lemma_seq_differs(a, "--scenario-id"@, 2);
    lemma_seq_differs(a, "--content"@, 2);
    lemma_seq_differs(a, "--operation"@, 2);
    lemma_seq_differs(a, "--actor"@, 2);
    lemma_seq_differs(a, "--result"@, 3);
    lemma_seq_differs(a, "--message"@, 2);
    lemma_seq_differs(a, "--message-id"@, 2);
    lemma_seq_differs(a, "--target-message"@, 2);
    lemma_seq_differs(a, "--target-message-id"@, 2);
    lemma_seq_differs(a, "--allow-tool"@, 2);
    lemma_seq_differs(a, "--allow-tools"@, 2);
    lemma_prefix_differs(f, "--db="@, 2);
    lemma_prefix_differs(f, "--id="@, 2);
    lemma_prefix_differs(a, "--db="@, 2);
    lemma_prefix_differs(a, "--limit="@, 2);
    lemma_prefix_differs(a, "--session="@, 2);
    lemma_prefix_differs(a, "--id="@, 2);
    lemma_prefix_differs(a, "--profile="@, 2);
    lemma_prefix_differs(a, "--profile-id="@, 2);
    lemma_prefix_differs(a, "--character="@, 2);
    lemma_prefix_differs(a, "--character-id="@, 2);
    lemma_prefix_differs(a, "--title="@, 2);
    lemma_prefix_differs(a, "--mode="@, 2);
    lemma_prefix_differs(a, "--mode-id="@, 2);
    lemma_prefix_differs(a, "--scenario="@, 2);
    lemma_prefix_differs(a, "--scenario-id="@, 2);
    assert(a.subrange(0, 7) =~= "--role="@);
    assert(classify(f) == ArgKind::Valued(Slot::Role));
    assert(text::has_prefix(a, "--role="@));
    assert(classify(a) == ArgKind::Inline(Slot::Role, "--role="));
}

#[verifier::rlimit(50)]
proof fn lemma_inline_form_content(v: Seq<char>)
    ensures
        classify("--content"@ + "="@ + v) matches ArgKind::Inline(s, p) && classify("--content"@) == ArgKind::Valued(s) && p@
            == "--content"@ + "="@,
        classify("--content"@) == ArgKind::Valued(Slot::Content),
{
    reveal_strlit("-");
    reveal_strlit("--actor");
    reveal_strlit("--actor=");
    reveal_strlit("--allow-network");
    reveal_strlit("--allow-tool");
    reveal_strlit("--allow-tool=");
    reveal_strlit("--allow-tools");
    reveal_strlit("--allow-tools=");
    reveal_strlit("--allow-writes");
    reveal_strlit("--character");
    reveal_strlit("--character-id");
    reveal_strlit("--character-id=");
    reveal_strlit("--character=");
    reveal_strlit("--content");
    reveal_strlit("--content=");
    reveal_strlit("--db");
    reveal_strlit("--db=");
    reveal_strlit("--help");
    reveal_strlit("--id");
    reveal_strlit("--id=");
    reveal_strlit("--json");
    reveal_strlit("--limit");
    reveal_strlit("--limit=");
    reveal_strlit("--message");
    reveal_strlit("--message-id");
    reveal_strlit("--message-id=");
    reveal_strlit("--message=");
    reveal_strlit("--mode");
    reveal_strlit("--mode-id");
    reveal_strlit("--mode-id=");
    reveal_strlit("--mode=");
    reveal_strlit("--operation");
    reveal_strlit("--operation=");
    reveal_strlit("--profile");
    reveal_strlit("--profile-id");
    reveal_strlit("--profile-id=");
    reveal_strlit("--profile=");
    reveal_strlit("--read-only");
    reveal_strlit("--result");
    reveal_strlit("--result=");
    reveal_strlit("--role");
    reveal_strlit("--role=");
    reveal_strlit("--scenario");
    reveal_strlit("--scenario-id");
    reveal_strlit("--scenario-id=");
    reveal_strlit("--scenario=");
    reveal_strlit("--session");
    reveal_strlit("--session=");
    reveal_strlit("--stdio");
    reveal_strlit("--target-message");
    reveal_strlit("--target-message-id");
    reveal_strlit("--target-message-id=");
    reveal_strlit("--target-message=");
    reveal_strlit("--title");
    reveal_strlit("--title=");
    reveal_strlit("--yes");
    reveal_strlit("-h");
    reveal_strlit("=");
    let f = "--content"@;
    let a = f + "="@ + v;
    lemma_seq_differs(f, "--session"@, 2);
    lemma_seq_differs(f, "--profile"@, 2);
    lemma_seq_differs(f, "--mode-id"@, 2);
    lemma_seq_differs(a, "--read-only"@, 2);
    lemma_seq_differs(a, "--allow-writes"@, 2);
    lemma_seq_differs(a, "--allow-network"@, 2);
    lemma_seq_differs(a, "--profile-id"@, 2);
    lemma_seq_differs(a, "--character"@, 3);
    lemma_seq_differs(a, "--character-id"@, 3);
    lemma_seq_differs(a, "--scenario"@, 2);
    lemma_seq_differs(a, "--scenario-id"@, 2);
    lemma_seq_differs(a, "--operation"@, 2);
    lemma_seq_differs(a, "--message-id"@, 2);
    lemma_seq_differs(a, "--target-message"@, 2);
    lemma_seq_differs(a, "--target-message-id"@, 2);
    lemma_seq_differs(a, "--allow-tool"@, 2);
    lemma_seq_differs(a, "--allow-tools"@, 2);
    lemma_prefix_differs(f, "--db="@, 2);
    lemma_prefix_differs(f, "--limit="@, 2);
    lemma_prefix_differs(f, "--id="@, 2);
    lemma_prefix_differs(f, "--title="@, 2);
    lemma_prefix_differs(f, "--mode="@, 2);
    lemma_prefix_differs(f, "--role="@, 2);
    lemma_prefix_differs(a, "--db="@, 2);
    lemma_prefix_differs(a, "--limit="@, 2);
    lemma_prefix_differs(a, "--session="@, 2);
    lemma_prefix_differs(a, "--id="@, 2);
    lemma_prefix_differs(a, "--profile="@, 2);
    lemma_prefix_differs(a, "--profile-id="@, 2);
    lemma_prefix_differs(a, "--character="@, 3);
    lemma_prefix_differs(a, "--character-id="@, 3);
    lemma_prefix_differs(a, "--title="@, 2);
    lemma_prefix_differs(a, "--mode="@, 2);
    lemma_prefix_differs(a, "--mode-id="@, 2);
    lemma_prefix_differs(a, "--scenario="@, 2);
    lemma_prefix_differs(a, "--scenario-id="@, 2);
    lemma_prefix_differs(a, "--role="@, 2);
    assert(a.subrange(0, 10) =~= "--content="@);
    assert(classify(f) == ArgKind::Valued(Slot::Content));
    assert(text::has_prefix(a, "--content="@));
    assert(classify(a) == ArgKind::Inline(Slot::Content, "--content="));
}

#[verifier::rlimit(50)]
proof fn lemma_inline_form_operation(v: Seq<char>)
    ensures
        classify("--operation"@ + "="@ + v) matches ArgKind::Inline(s, p) && classify("--operation"@) == ArgKind::Valued(s) && p@
            == "--operation"@ + "="@,
        classify("--operation"@) == ArgKind::Valued(Slot::Operation),
{
    reveal_strlit("-");
    reveal_strlit("--actor");
    reveal_strlit("--actor=");
    reveal_strlit("--allow-network");
    reveal_strlit("--allow-tool");
    reveal_strlit("--allow-tool=");
    reveal_strlit("--allow-tools");
    reveal_strlit("--allow-tools=");
    reveal_strlit("--allow-writes");
    reveal_strlit("--character");
    reveal_strlit("--character-id");
    reveal_strlit("--character-id=");
    reveal_strlit("--character=");
    reveal_strlit("--content");
    reveal_strlit("--content=");
    reveal_strlit("--db");
    reveal_strlit("--db=");
    reveal_strlit("--help");
    reveal_strlit("--id");
    reveal_strlit("--id=");
    reveal_strlit("--json");
    reveal_strlit("--limit");
    reveal_strlit("--limit=");
    reveal_strlit("--message");
    reveal_strlit("--message-id");
    reveal_strlit("--message-id=");
    reveal_strlit("--message=");
    reveal_strlit("--mode");
    reveal_strlit("--mode-id");
    reveal_strlit("--mode-id=");
    reveal_strlit("--mode=");
    reveal_strlit("--operation");
    reveal_strlit("--operation=");
    reveal_strlit("--profile");
    reveal_strlit("--profile-id");
    reveal_strlit("--profile-id=");
    reveal_strlit("--profile=");
    reveal_strlit("--read-only");
    reveal_strlit("--result");
    reveal_strlit("--result=");
    reveal_strlit("--role");
    reveal_strlit("--role=");
    reveal_strlit("--scenario");
    reveal_strlit("--scenario-id");
    reveal_strlit("--scenario-id=");
    reveal_strlit("--scenario=");
    reveal_strlit("--session");
    reveal_strlit("--session=");
    reveal_strlit("--stdio");
    reveal_strlit("--target-message");
    reveal_strlit("--target-message-id");
    reveal_strlit("--target-message-id=");
    reveal_strlit("--target-message=");
    reveal_strlit("--title");
    reveal_strlit("--title=");
    reveal_strlit("--yes");
    reveal_strlit("-h");
    reveal_strlit("=");
    let f = "--operation"@;
    let a = f + "="@ + v;
    lemma_seq_differs(f, "--read-only"@, 2);
    lemma_seq_differs(f, "--character"@, 2);
    lemma_seq_differs(a, "--allow-writes"@, 2);
    lemma_seq_differs(a, "--allow-network"@, 2);
    lemma_seq_differs(a, "--profile-id"@, 2);
    lemma_seq_differs(a, "--character-id"@, 2);
    lemma_seq_differs(a, "--scenario-id"@, 2);
    lemma_seq_differs(a, "--message-id"@, 2);
    lemma_seq_differs(a, "--target-message"@, 2);
    lemma_seq_differs(a, "--target-message-id"@, 2);
    lemma_seq_differs(a, "--allow-tool"@, 2);
    lemma_seq_differs(a, "--allow-tools"@, 2);
    lemma_prefix_differs(f, "--db="@, 2);
    lemma_prefix_differs(f, "--limit="@, 2);
    lemma_prefix_differs(f, "--session="@, 2);
    lemma_prefix_differs(f, "--id="@, 2);
    lemma_prefix_differs(f, "--profile="@, 2);
    lemma_prefix_differs(f, "--title="@, 2);
    lemma_prefix_differs(f, "--mode="@, 2);
    lemma_prefix_differs(f, "--mode-id="@, 2);
    lemma_prefix_differs(f, "--scenario="@, 2);
    lemma_prefix_differs(f, "--role="@, 2);
    lemma_prefix_differs(f, "--content="@, 2);
    lemma_prefix_differs(a, "--db="@, 2);
    lemma_prefix_differs(a, "--limit="@, 2);
    lemma_prefix_differs(a, "--session="@, 2);
    lemma_prefix_differs(a, "--id="@, 2);
    lemma_prefix_differs(a, "--profile="@, 2);
    lemma_prefix_differs(a, "--profile-id="@, 2);
    lemma_prefix_differs(a, "--character="@, 2);
    lemma_prefix_differs(a, "--character-id="@, 2);
    lemma_prefix_differs(a, "--title="@, 2);
    lemma_prefix_differs(a, "--mode="@, 2);
    lemma_prefix_differs(a, "--mode-id="@, 2);
    lemma_prefix_differs(a, "--scenario="@, 2);
    lemma_prefix_differs(a, "--scenario-id="@, 2);
    lemma_prefix_differs(a, "--role="@, 2);
    lemma_prefix_differs(a, "--content="@, 2);
    assert(a.subrange(0, 12) =~= "--operation="@);
    assert(classify(f) == ArgKind::Valued(Slot::Operation));
    assert(text::has_prefix(a, "--operation="@));
    assert(classify(a) == ArgKind::Inline(Slot::Operation, "--operation="));
}

#[verifier::rlimit(50)]
proof fn lemma_inline_form_actor(v: Seq<char>)
    ensures
        classify("--actor"@ + "="@ + v) matches ArgKind::Inline(s, p) && classify("--actor"@) == ArgKind::Valued(s) && p@
            == "--actor"@ + "="@,
        classify("--actor"@) == ArgKind::Valued(Slot::Actor),
{
    reveal_strlit("-");
    reveal_strlit("--actor");
    reveal_strlit("--actor=");
    reveal_strlit("--allow-network");
    reveal_strlit("--allow-tool");
    reveal_strlit("--allow-tool=");
    reveal_strlit("--allow-tools");
    reveal_strlit("--allow-tools=");
    reveal_strlit("--allow-writes");
    reveal_strlit("--character");
    reveal_strlit("--character-id");
    reveal_strlit("--character-id=");
    reveal_strlit("--character=");
    reveal_strlit("--content");
    reveal_strlit("--content=");
    reveal_strlit("--db");
    reveal_strlit("--db=");
    reveal_strlit("--help");
    reveal_strlit("--id");
    reveal_strlit("--id=");
    reveal_strlit("--json");
    reveal_strlit("--limit");
    reveal_strlit("--limit=");
    reveal_strlit("--message");
    reveal_strlit("--message-id");
    reveal_strlit("--message-id=");
    reveal_strlit("--message=");
    reveal_strlit("--mode");
    reveal_strlit("--mode-id");
    reveal_strlit("--mode-id=");
    reveal_strlit("--mode=");
    reveal_strlit("--operation");
    reveal_strlit("--operation=");
    reveal_strlit("--profile");
    reveal_strlit("--profile-id");
    reveal_strlit("--profile-id=");
    reveal_strlit("--profile=");
    reveal_strlit("--read-only");
    reveal_strlit("--result");
    reveal_strlit("--result=");
    reveal_strlit("--role");
    reveal_strlit("--role=");
    reveal_strlit("--scenario");
    reveal_strlit("--scenario-id");
    reveal_strlit("--scenario-id=");
    reveal_strlit("--scenario=");
    reveal_strlit("--session");
    reveal_strlit("--session=");
    reveal_strlit("--stdio");
    reveal_strlit("--target-message");
    reveal_strlit("--target-message-id");
    reveal_strlit("--target-message-id=");
    reveal_strlit("--target-message=");
    reveal_strlit("--title");
    reveal_strlit("--title=");
    reveal_strlit("--yes");
    reveal_strlit("-h");
    reveal_strlit("=");
    let f = "--actor"@;
    let a = f + "="@ + v;
    lemma_seq_differs(f, "--stdio"@, 2);
    lemma_seq_differs(f, "--limit"@, 2);
    lemma_seq_differs(f, "--title"@, 2);
    lemma_seq_differs(a, "--read-only"@, 2);
    lemma_seq_differs(a, "--allow-writes"@, 3);
    lemma_seq_differs(a, "--allow-network"@, 3);
    lemma_seq_differs(a, "--session"@, 2);
    lemma_seq_differs(a, "--profile"@, 2);
    lemma_seq_differs(a, "--profile-id"@, 2);
    lemma_seq_differs(a, "--character"@, 2);
    lemma_seq_differs(a, "--character-id"@, 2);
    lemma_seq_differs(a, "--mode-id"@, 2);
    lemma_seq_differs(a, "--scenario"@, 2);
    lemma_seq_differs(a, "--scenario-id"@, 2);
    lemma_seq_differs(a, "--content"@, 2);
    lemma_seq_differs(a, "--operation"@, 2);
    lemma_seq_differs(a, "--result"@, 2);
    lemma_seq_differs(a, "--message"@, 2);
    lemma_seq_differs(a, "--message-id"@, 2);
    lemma_seq_differs(a, "--target-message"@, 2);
    lemma_seq_differs(a, "--target-message-id"@, 2);
    lemma_seq_differs(a, "--allow-tool"@, 3);
    lemma_seq_differs(a, "--allow-tools"@, 3);
    lemma_prefix_differs(f, "--db="@, 2);
    lemma_prefix_differs(f, "--id="@, 2);
    lemma_prefix_differs(f, "--mode="@, 2);
    lemma_prefix_differs(f, "--role="@, 2);
    lemma_prefix_differs(a, "--db="@, 2);
    lemma_prefix_differs(a, "--limit="@, 2);
    lemma_prefix_differs(a, "--session="@, 2);
    lemma_prefix_differs(a, "--id="@, 2);
    lemma_prefix_differs(a, "--profile="@, 2);
    lemma_prefix_differs(a, "--profile-id="@, 2);
    lemma_prefix_differs(a, "--character="@, 2);
    lemma_prefix_differs(a, "--character-id="@, 2);
    lemma_prefix_differs(a, "--title="@, 2);
    lemma_prefix_differs(a, "--mode="@, 2);
    lemma_prefix_differs(a, "--mode-id="@, 2);
    lemma_prefix_differs(a, "--scenario="@, 2);
    lemma_prefix_differs(a, "--scenario-id="@, 2);
    lemma_prefix_differs(a, "--role="@, 2);
    lemma_prefix_differs(a, "--content="@, 2);
    lemma_prefix_differs(a, "--operation="@, 2);
    assert(a.subrange(0, 8) =~= "--actor="@);
    assert(classify(f) == ArgKind::Valued(Slot::Actor));
    assert(text::has_prefix(a, "--actor="@));
    assert(classify(a) == ArgKind::Inline(Slot::Actor, "--actor="));
}

#[verifier::rlimit(50)]
proof fn lemma_inline_form_result(v: Seq<char>)
    ensures
        classify("--result"@ + "="@ + v) matches ArgKind::Inline(s, p) && classify("--result"@) == ArgKind::Valued(s) && p@
            == "--result"@ + "="@,
        classify("--result"@) == ArgKind::Valued(Slot::Outcome),
{
    reveal_strlit("-");
    reveal_strlit("--actor");
    reveal_strlit("--actor=");
    reveal_strlit("--allow-network");
    reveal_strlit("--allow-tool");
    reveal_strlit("--allow-tool=");
    reveal_strlit("--allow-tools");
    reveal_strlit("--allow-tools=");
    reveal_strlit("--allow-writes");
    reveal_strlit("--character");
    reveal_strlit("--character-id");
    reveal_strlit("--character-id=");
    reveal_strlit("--character=");
    reveal_strlit("--content");
    reveal_strlit("--content=");
    reveal_strlit("--db");
    reveal_strlit("--db=");
    reveal_strlit("--help");
    reveal_strlit("--id");
    reveal_strlit("--id=");
    reveal_strlit("--json");
    reveal_strlit("--limit");
    reveal_strlit("--limit=");
    reveal_strlit("--message");
    reveal_strlit("--message-id");
    reveal_strlit("--message-id=");
    reveal_strlit("--message=");
    reveal_strlit("--mode");
    reveal_strlit("--mode-id");
    reveal_strlit("--mode-id=");
    reveal_strlit("--mode=");
    reveal_strlit("--operation");
    reveal_strlit("--operation=");
    reveal_strlit("--profile");
    reveal_strlit("--profile-id");
    reveal_strlit("--profile-id=");
    reveal_strlit("--profile=");
    reveal_strlit("--read-only");
    reveal_strlit("--result");
    reveal_strlit("--result=");
    reveal_strlit("--role");
    reveal_strlit("--role=");
    reveal_strlit("--scenario");
    reveal_strlit("--scenario-id");
    reveal_strlit("--scenario-id=");
    reveal_strlit("--scenario=");
    reveal_strlit("--session");
    reveal_strlit("--session=");
    reveal_strlit("--stdio");
    reveal_strlit("--target-message");
    reveal_strlit("--target-message-id");
    reveal_strlit("--target-message-id=");
    reveal_strlit("--target-message=");
    reveal_strlit("--title");
    reveal_strlit("--title=");
    reveal_strlit("--yes");
    reveal_strlit("-h");
    reveal_strlit("=");
    let f = "--result"@;
    let a = f + "="@ + v;
    lemma_seq_differs(a, "--read-only"@, 4);
    lemma_seq_differs(a, "--allow-writes"@, 2);
    lemma_seq_differs(a, "--allow-network"@, 2);
    lemma_seq_differs(a, "--session"@, 2);
    lemma_seq_differs(a, "--profile"@, 2);
    lemma_seq_differs(a, "--profile-id"@, 2);
    lemma_seq_differs(a, "--character"@, 2);
    lemma_seq_differs(a, "--character-id"@, 2);
    lemma_seq_differs(a, "--mode-id"@, 2);
    lemma_seq_differs(a, "--scenario"@, 2);
    lemma_seq_differs(a, "--scenario-id"@, 2);
    lemma_seq_differs(a, "--content"@, 2);
    lemma_seq_differs(a, "--operation"@, 2);
    lemma_seq_differs(a, "--message"@, 2);
    lemma_seq_differs(a, "--message-id"@, 2);
    lemma_seq_differs(a, "--target-message"@, 2);
    lemma_seq_differs(a, "--target-message-id"@, 2);
    lemma_seq_differs(a, "--allow-tool"@, 2);
    lemma_seq_differs(a, "--allow-tools"@, 2);
    lemma_prefix_differs(f, "--db="@, 2);
    lemma_prefix_differs(f, "--limit="@, 2);
    lemma_prefix_differs(f, "--id="@, 2);
    lemma_prefix_differs(f, "--title="@, 2);
    lemma_prefix_differs(f, "--mode="@, 2);
    lemma_prefix_differs(f, "--role="@, 3);
    lemma_prefix_differs(f, "--actor="@, 2);
    lemma_prefix_differs(a, "--db="@, 2);
    lemma_prefix_differs(a, "--limit="@, 2);
    lemma_prefix_differs(a, "--session="@, 2);
    lemma_prefix_differs(a, "--id="@, 2);
    lemma_prefix_differs(a, "--profile="@, 2);
    lemma_prefix_differs(a, "--profile-id="@, 2);
    lemma_prefix_differs(a, "--character="@, 2);
    lemma_prefix_differs(a, "--character-id="@, 2);
    lemma_prefix_differs(a, "--title="@, 2);
    lemma_prefix_differs(a, "--mode="@, 2);
    lemma_prefix_differs(a, "--mode-id="@, 2);
    lemma_prefix_differs(a, "--scenario="@, 2);
    lemma_prefix_differs(a, "--scenario-id="@, 2);
    lemma_prefix_differs(a, "--role="@, 3);
    lemma_prefix_differs(a, "--content="@, 2);
    lemma_prefix_differs(a, "--operation="@, 2);
    lemma_prefix_differs(a, "--actor="@, 2);
    assert(a.subrange(0, 9) =~= "--result="@);
    assert(classify(f) == ArgKind::Valued(Slot::Outcome));
    assert(text::has_prefix(a, "--result="@));
    assert(classify(a) == ArgKind::Inline(Slot::Outcome, "--result="));
}

#[verifier::rlimit(50)]
proof fn lemma_inline_form_message(v: Seq<char>)
    ensures
        classify("--message"@ + "="@ + v) matches ArgKind::Inline(s, p) && classify("--message"@) == ArgKind::Valued(s) && p@
            == "--message"@ + "="@,
        classify("--message"@) == ArgKind::Valued(Slot::Message),
{
    reveal_strlit("-");
    reveal_strlit("--actor");
    reveal_strlit("--actor=");
    reveal_strlit("--allow-network");
    reveal_strlit("--allow-tool");
    reveal_strlit("--allow-tool=");
    reveal_strlit("--allow-tools");
    reveal_strlit("--allow-tools=");
    reveal_strlit("--allow-writes");
    reveal_strlit("--character");
    reveal_strlit("--character-id");
    reveal_strlit("--character-id=");
    reveal_strlit("--character=");
    reveal_strlit("--content");
    reveal_strlit("--content=");
    reveal_strlit("--db");
    reveal_strlit("--db=");
    reveal_strlit("--help");
    reveal_strlit("--id");
    reveal_strlit("--id=");
    reveal_strlit("--json");
    reveal_strlit("--limit");
    reveal_strlit("--limit=");
    reveal_strlit("--message");
    reveal_strlit("--message-id");
    reveal_strlit("--message-id=");
    reveal_strlit("--message=");
    reveal_strlit("--mode");
    reveal_strlit("--mode-id");
    reveal_strlit("--mode-id=");
    reveal_strlit("--mode=");
    reveal_strlit("--operation");
    reveal_strlit("--operation=");
    reveal_strlit("--profile");
    reveal_strlit("--profile-id");
    reveal_strlit("--profile-id=");
    reveal_strlit("--profile=");
    reveal_strlit("--read-only");
    reveal_strlit("--result");
    reveal_strlit("--result=");
    reveal_strlit("--role");
    reveal_strlit("--role=");
    reveal_strlit("--scenario");
    reveal_strlit("--scenario-id");
    reveal_strlit("--scenario-id=");
    reveal_strlit("--scenario=");
    reveal_strlit("--session");
    reveal_strlit("--session=");
    reveal_strlit("--stdio");
    reveal_strlit("--target-message");
    reveal_strlit("--target-message-id");
    reveal_strlit("--target-message-id=");
    reveal_strlit("--target-message=");
    reveal_strlit("--title");
    reveal_strlit("--title=");
    reveal_strlit("--yes");
    reveal_strlit("-h");
    reveal_strlit("=");
    let f = "--message"@;
    let a = f + "="@ + v;
    lemma_seq_differs(f, "--session"@, 2);
    lemma_seq_differs(f, "--profile"@, 2);
    lemma_seq_differs(f, "--mode-id"@, 3);
    lemma_seq_differs(f, "--content"@, 2);
    lemma_seq_differs(a, "--read-only"@, 2);
    lemma_seq_differs(a, "--allow-writes"@, 2);
    lemma_seq_differs(a, "--allow-network"@, 2);
    lemma_seq_differs(a, "--profile-id"@, 2);
    lemma_seq_differs(a, "--character"@, 2);
    lemma_seq_differs(a, "--character-id"@, 2);
    lemma_seq_differs(a, "--scenario"@, 2);
    lemma_seq_differs(a, "--scenario-id"@, 2);
    lemma_seq_differs(a, "--operation"@, 2);
    lemma_seq_differs(a, "--message-id"@, 9);
    lemma_seq_differs(a, "--target-message"@, 2);
    lemma_seq_differs(a, "--target-message-id"@, 2);
    lemma_seq_differs(a, "--allow-tool"@, 2);
    lemma_seq_differs(a, "--allow-tools"@, 2);
    lemma_prefix_differs(f, "--db="@, 2);
    lemma_prefix_differs(f, "--limit="@, 2);
    lemma_prefix_differs(f, "--id="@, 2);
    lemma_prefix_differs(f, "--title="@, 2);
    lemma_prefix_differs(f, "--mode="@, 3);
    lemma_prefix_differs(f, "--role="@, 2);
    lemma_prefix_differs(f, "--actor="@, 2);
    lemma_prefix_differs(f, "--result="@, 2);
    lemma_prefix_differs(a, "--db="@, 2);
    lemma_prefix_differs(a, "--limit="@, 2);
    lemma_prefix_differs(a, "--session="@, 2);
    lemma_prefix_differs(a, "--id="@, 2);
    lemma_prefix_differs(a, "--profile="@, 2);
    lemma_prefix_differs(a, "--profile-id="@, 2);
    lemma_prefix_differs(a, "--character="@, 2);
    lemma_prefix_differs(a, "--character-id="@, 2);
    lemma_prefix_differs(a, "--title="@, 2);
    lemma_prefix_differs(a, "--mode="@, 3);
    lemma_prefix_differs(a, "--mode-id="@, 3);
    lemma_prefix_differs(a, "--scenario="@, 2);
    lemma_prefix_differs(a, "--scenario-id="@, 2);
    lemma_prefix_differs(a, "--role="@, 2);
    lemma_prefix_differs(a, "--content="@, 2);
    lemma_prefix_differs(a, "--operation="@, 2);
    lemma_prefix_differs(a, "--actor="@, 2);
    lemma_prefix_differs(a, "--result="@, 2);
    assert(a.subrange(0, 10) =~= "--message="@);
    assert(classify(f) == ArgKind::Valued(Slot::Message));
    assert(text::has_prefix(a, "--message="@));
    assert(classify(a) == ArgKind::Inline(Slot::Message, "--message="));
}

#[verifier::rlimit(50)]
proof fn lemma_inline_form_message_id(v: Seq<char>)
    ensures
        classify("--message-id"@ + "="@ + v) matches ArgKind::Inline(s, p) && classify("--message-id"@) == ArgKind::Valued(s) && p@
            == "--message-id"@ + "="@,
        classify("--message-id"@) == ArgKind::Valued(Slot::Message),
{
    reveal_strlit("-");
    reveal_strlit("--actor");
    reveal_strlit("--actor=");
    reveal_strlit("--allow-network");
    reveal_strlit("--allow-tool");
    reveal_strlit("--allow-tool=");
    reveal_strlit("--allow-tools");
    reveal_strlit("--allow-tools=");
    reveal_strlit("--allow-writes");
    reveal_strlit("--character");
    reveal_strlit("--character-id");
    reveal_strlit("--character-id=");
    reveal_strlit("--character=");
    reveal_strlit("--content");
    reveal_strlit("--content=");
    reveal_strlit("--db");
    reveal_strlit("--db=");
    reveal_strlit("--help");
    reveal_strlit("--id");
    reveal_strlit("--id=");
    reveal_strlit("--json");
    reveal_strlit("--limit");
    reveal_strlit("--limit=");
    reveal_strlit("--message");
    reveal_strlit("--message-id");
    reveal_strlit("--message-id=");
    reveal_strlit("--message=");
    reveal_strlit("--mode");
    reveal_strlit("--mode-id");
    reveal_strlit("--mode-id=");
    reveal_strlit("--mode=");
    reveal_strlit("--operation");
    reveal_strlit("--operation=");
    reveal_strlit("--profile");
    reveal_strlit("--profile-id");
    reveal_strlit("--profile-id=");
    reveal_strlit("--profile=");
    reveal_strlit("--read-only");
    reveal_strlit("--result");
    reveal_strlit("--result=");
    reveal_strlit("--role");
    reveal_strlit("--role=");
    reveal_strlit("--scenario");
    reveal_strlit("--scenario-id");
    reveal_strlit("--scenario-id=");
    reveal_strlit("--scenario=");
    reveal_strlit("--session");
    reveal_strlit("--session=");
    reveal_strlit("--stdio");
    reveal_strlit("--target-message");
    reveal_strlit("--target-message-id");
    reveal_strlit("--target-message-id=");
    reveal_strlit("--target-message=");
    reveal_strlit("--title");
    reveal_strlit("--title=");
    reveal_strlit("--yes");
    reveal_strlit("-h");
    reveal_strlit("=");
    let f = "--message-id"@;
    let a = f + "="@ + v;
    lemma_seq_differs(f, "--profile-id"@, 2);
    lemma_seq_differs(a, "--allow-writes"@, 2);
    lemma_seq_differs(a, "--allow-network"@, 2);
    lemma_seq_differs(a, "--character-id"@, 2);
    lemma_seq_differs(a, "--scenario-id"@, 2);
    lemma_seq_differs(a, "--target-message"@, 2);
    lemma_seq_differs(a, "--target-message-id"@, 2);
    lemma_seq_differs(a, "--allow-tools"@, 2);
    lemma_prefix_differs(f, "--db="@, 2);
    lemma_prefix_differs(f, "--limit="@, 2);
    lemma_prefix_differs(f, "--session="@, 2);
    lemma_prefix_differs(f, "--id="@, 2);
    lemma_prefix_differs(f, "--profile="@, 2);
    lemma_prefix_differs(f, "--character="@, 2);
    lemma_prefix_differs(f, "--title="@, 2);
    lemma_prefix_differs(f, "--mode="@, 3);
    lemma_prefix_differs(f, "--mode-id="@, 3);
    lemma_prefix_differs(f, "--scenario="@, 2);
    lemma_prefix_differs(f, "--role="@, 2);
    lemma_prefix_differs(f, "--content="@, 2);
    lemma_prefix_differs(f, "--operation="@, 2);
    lemma_prefix_differs(f, "--actor="@, 2);
    lemma_prefix_differs(f, "--result="@, 2);
    lemma_prefix_differs(a, "--db="@, 2);
    lemma_prefix_differs(a, "--limit="@, 2);
    lemma_prefix_differs(a, "--session="@, 2);
    lemma_prefix_differs(a, "--id="@, 2);
    lemma_prefix_differs(a, "--profile="@, 2);
    lemma_prefix_differs(a, "--profile-id="@, 2);
    lemma_prefix_differs(a, "--character="@, 2);
    lemma_prefix_differs(a, "--character-id="@, 2);
    lemma_prefix_differs(a, "--title="@, 2);
    lemma_prefix_differs(a, "--mode="@, 3);
    lemma_prefix_differs(a, "--mode-id="@, 3);
    lemma_prefix_differs(a, "--scenario="@, 2);
    lemma_prefix_differs(a, "--scenario-id="@, 2);
    lemma_prefix_differs(a, "--role="@, 2);
    lemma_prefix_differs(a, "--content="@, 2);
    lemma_prefix_differs(a, "--operation="@, 2);
    lemma_prefix_differs(a, "--actor="@, 2);
    lemma_prefix_differs(a, "--result="@, 2);
    lemma_prefix_differs(a, "--message="@, 9);
    assert(a.subrange(0, 13) =~= "--message-id="@);
    assert(classify(f) == ArgKind::Valued(Slot::Message));
    assert(text::has_prefix(a, "--message-id="@));
    assert(classify(a) == ArgKind::Inline(Slot::Message, "--message-id="));
}

#[verifier::rlimit(50)]
proof fn lemma_inline_form_target_message(v: Seq<char>)
    ensures
        classify("--target-message"@ + "="@ + v) matches ArgKind::Inline(s, p) && classify("--target-message"@) == ArgKind::Valued(s) && p@
            == "--target-message"@ + "="@,
        classify("--target-message"@) == ArgKind::Valued(Slot::Message),
{
    reveal_strlit("-");
    reveal_strlit("--actor");
    reveal_strlit("--actor=");
    reveal_strlit("--allow-network");
    reveal_strlit("--allow-tool");
    reveal_strlit("--allow-tool=");
    reveal_strlit("--allow-tools");
    reveal_strlit("--allow-tools=");
    reveal_strlit("--allow-writes");
    reveal_strlit("--character");
    reveal_strlit("--character-id");
    reveal_strlit("--character-id=");
    reveal_strlit("--character=");
    reveal_strlit("--content");
    reveal_strlit("--content=");
    reveal_strlit("--db");
    reveal_strlit("--db=");
    reveal_strlit("--help");
    reveal_strlit("--id");
    reveal_strlit("--id=");
    reveal_strlit("--json");
    reveal_strlit("--limit");
    reveal_strlit("--limit=");
    reveal_strlit("--message");
    reveal_strlit("--message-id");
    reveal_strlit("--message-id=");
    reveal_strlit("--message=");
    reveal_strlit("--mode");
    reveal_strlit("--mode-id");
    reveal_strlit("--mode-id=");
    reveal_strlit("--mode=");
    reveal_strlit("--operation");
    reveal_strlit("--operation=");
    reveal_strlit("--profile");
    reveal_strlit("--profile-id");
    reveal_strlit("--profile-id=");
    reveal_strlit("--profile=");
    reveal_strlit("--read-only");
    reveal_strlit("--result");
    reveal_strlit("--result=");
    reveal_strlit("--role");
    reveal_strlit("--role=");
    reveal_strlit("--scenario");
    reveal_strlit("--scenario-id");
    reveal_strlit("--scenario-id=");
    reveal_strlit("--scenario=");
    reveal_strlit("--session");
    reveal_strlit("--session=");
    reveal_strlit("--stdio");
    reveal_strlit("--target-message");
    reveal_strlit("--target-message-id");
    reveal_strlit("--target-message-id=");
    reveal_strlit("--target-message=");
    reveal_strlit("--title");
    reveal_strlit("--title=");
    reveal_strlit("--yes");
    reveal_strlit("-h");
    reveal_strlit("=");
    let f = "--target-message"@;
    let a = f + "="@ + v;
    lemma_seq_differs(a, "--target-message-id"@, 16);
    lemma_prefix_differs(f, "--db="@, 2);
    lemma_prefix_differs(f, "--limit="@, 2);
    lemma_prefix_differs(f, "--session="@, 2);
    lemma_prefix_differs(f, "--id="@, 2);
    lemma_prefix_differs(f, "--profile="@, 2);
    lemma_prefix_differs(f, "--profile-id="@, 2);
    lemma_prefix_differs(f, "--character="@, 2);
    lemma_prefix_differs(f, "--character-id="@, 2);
    lemma_prefix_differs(f, "--title="@, 3);
    lemma_prefix_differs(f, "--mode="@, 2);
    lemma_prefix_differs(f, "--mode-id="@, 2);
    lemma_prefix_differs(f, "--scenario="@, 2);
    lemma_prefix_differs(f, "--scenario-id="@, 2);
    lemma_prefix_differs(f, "--role="@, 2);
    lemma_prefix_differs(f, "--content="@, 2);
    lemma_prefix_differs(f, "--operation="@, 2);
    lemma_prefix_differs(f, "--actor="@, 2);
    lemma_prefix_differs(f, "--result="@, 2);
    lemma_prefix_differs(a, "--db="@, 2);
    lemma_prefix_differs(a, "--limit="@, 2);
    lemma_prefix_differs(a, "--session="@, 2);
    lemma_prefix_differs(a, "--id="@, 2);
    lemma_prefix_differs(a, "--profile="@, 2);
    lemma_prefix_differs(a, "--profile-id="@, 2);
    lemma_prefix_differs(a, "--character="@, 2);
    lemma_prefix_differs(a, "--character-id="@, 2);
    lemma_prefix_differs(a, "--title="@, 3);
    lemma_prefix_differs(a, "--mode="@, 2);
    lemma_prefix_differs(a, "--mode-id="@, 2);
    lemma_prefix_differs(a, "--scenario="@, 2);
    lemma_prefix_differs(a, "--scenario-id="@, 2);
    lemma_prefix_differs(a, "--role="@, 2);
    lemma_prefix_differs(a, "--content="@, 2);
    lemma_prefix_differs(a, "--operation="@, 2);
    lemma_prefix_differs(a, "--actor="@, 2);
    lemma_prefix_differs(a, "--result="@, 2);
    lemma_prefix_differs(a, "--message="@, 2);
    lemma_prefix_differs(a, "--message-id="@, 2);
    assert(a.subrange(0, 17) =~= "--target-message="@);
    assert(classify(f) == ArgKind::Valued(Slot::Message));
    assert(text::has_prefix(a, "--target-message="@));
    assert(classify(a) == ArgKind::Inline(Slot::Message, "--target-message="));
}

#[verifier::rlimit(50)]
proof fn lemma_inline_form_target_message_id(v: Seq<char>)
    ensures
        classify("--target-message-id"@ + "="@ + v) matches ArgKind::Inline(s, p) && classify("--target-message-id"@) == ArgKind::Valued(s) && p@
            == "--target-message-id"@ + "="@,
        classify("--target-message-id"@) == ArgKind::Valued(Slot::Message),
{
    reveal_strlit("-");
    reveal_strlit("--actor");
    reveal_strlit("--actor=");
    reveal_strlit("--allow-network");
    reveal_strlit("--allow-tool");
    reveal_strlit("--allow-tool=");
    reveal_strlit("--allow-tools");
    reveal_strlit("--allow-tools=");
    reveal_strlit("--allow-writes");
    reveal_strlit("--character");
    reveal_strlit("--character-id");
    reveal_strlit("--character-id=");
    reveal_strlit("--character=");
    reveal_strlit("--content");
    reveal_strlit("--content=");
    reveal_strlit("--db");
    reveal_strlit("--db=");
    reveal_strlit("--help");
    reveal_strlit("--id");
    reveal_strlit("--id=");
    reveal_strlit("--json");
    reveal_strlit("--limit");
    reveal_strlit("--limit=");
    reveal_strlit("--message");
    reveal_strlit("--message-id");
    reveal_strlit("--message-id=");
    reveal_strlit("--message=");
    reveal_strlit("--mode");
    reveal_strlit("--mode-id");
    reveal_strlit("--mode-id=");
    reveal_strlit("--mode=");
    reveal_strlit("--operation");
    reveal_strlit("--operation=");
    reveal_strlit("--profile");
    reveal_strlit("--profile-id");
    reveal_strlit("--profile-id=");
    reveal_strlit("--profile=");
    reveal_strlit("--read-only");
    reveal_strlit("--result");
    reveal_strlit("--result=");
    reveal_strlit("--role");
    reveal_strlit("--role=");
    reveal_strlit("--scenario");
    reveal_strlit("--scenario-id");
    reveal_strlit("--scenario-id=");
    reveal_strlit("--scenario=");
    reveal_strlit("--session");
    reveal_strlit("--session=");
    reveal_strlit("--stdio");
    reveal_strlit("--target-message");
    reveal_strlit("--target-message-id");
    reveal_strlit("--target-message-id=");
    reveal_strlit("--target-message=");
    reveal_strlit("--title");
    reveal_strlit("--title=");
    reveal_strlit("--yes");
    reveal_strlit("-h");
    reveal_strlit("=");
    let f = "--target-message-id"@;
    let a = f + "="@ + v;

    lemma_prefix_differs(f, "--db="@, 2);
    lemma_prefix_differs(f, "--limit="@, 2);
    lemma_prefix_differs(f, "--session="@, 2);
    lemma_prefix_differs(f, "--id="@, 2);
    lemma_prefix_differs(f, "--profile="@, 2);
    lemma_prefix_differs(f, "--profile-id="@, 2);
    lemma_prefix_differs(f, "--character="@, 2);
    lemma_prefix_differs(f, "--character-id="@, 2);
    lemma_prefix_differs(f, "--title="@, 3);
    lemma_prefix_differs(f, "--mode="@, 2);
    lemma_prefix_differs(f, "--mode-id="@, 2);
    lemma_prefix_differs(f, "--scenario="@, 2);
    lemma_prefix_differs(f, "--scenario-id="@, 2);
    lemma_prefix_differs(f, "--role="@, 2);
    lemma_prefix_differs(f, "--content="@, 2);
    lemma_prefix_differs(f, "--operation="@, 2);
    lemma_prefix_differs(f, "--actor="@, 2);
    lemma_prefix_differs(f, "--result="@, 2);
    lemma_prefix_differs(a, "--db="@, 2);
    lemma_prefix_differs(a, "--limit="@, 2);
    lemma_prefix_differs(a, "--session="@, 2);
    lemma_prefix_differs(a, "--id="@, 2);
    lemma_prefix_differs(a, "--profile="@, 2);
    lemma_prefix_differs(a, "--profile-id="@, 2);
    lemma_prefix_differs(a, "--character="@, 2);
    lemma_prefix_differs(a, "--character-id="@, 2);
    lemma_prefix_differs(a, "--title="@, 3);
    lemma_prefix_differs(a, "--mode="@, 2);
    lemma_prefix_differs(a, "--mode-id="@, 2);
    lemma_prefix_differs(a, "--scenario="@, 2);
    lemma_prefix_differs(a, "--scenario-id="@, 2);
    lemma_prefix_differs(a, "--role="@, 2);
    lemma_prefix_differs(a, "--content="@, 2);
    lemma_prefix_differs(a, "--operation="@, 2);
    lemma_prefix_differs(a, "--actor="@, 2);
    lemma_prefix_differs(a, "--result="@, 2);
    lemma_prefix_differs(a, "--message="@, 2);
    lemma_prefix_differs(a, "--message-id="@, 2);
    lemma_prefix_differs(a, "--target-message="@, 16);
    assert(a.subrange(0, 20) =~= "--target-message-id="@);
    assert(classify(f) == ArgKind::Valued(Slot::Message));
    assert(text::has_prefix(a, "--target-message-id="@));
    assert(classify(a) == ArgKind::Inline(Slot::Message, "--target-message-id="));
}

#[verifier::rlimit(50)]
proof fn lemma_inline_form_allow_tool(v: Seq<char>)
    ensures
        classify("--allow-tool"@ + "="@ + v) matches ArgKind::Inline(s, p) && classify("--allow-tool"@) == ArgKind::Valued(s) && p@
            == "--allow-tool"@ + "="@,
        classify("--allow-tool"@) == ArgKind::Valued(Slot::Tool),
{
    reveal_strlit("-");
    reveal_strlit("--actor");
    reveal_strlit("--actor=");
    reveal_strlit("--allow-network");
    reveal_strlit("--allow-tool");
    reveal_strlit("--allow-tool=");
    reveal_strlit("--allow-tools");
    reveal_strlit("--allow-tools=");
    reveal_strlit("--allow-writes");
    reveal_strlit("--character");
    reveal_strlit("--character-id");
    reveal_strlit("--character-id=");
    reveal_strlit("--character=");
    reveal_strlit("--content");
    reveal_strlit("--content=");
    reveal_strlit("--db");
    reveal_strlit("--db=");
    reveal_strlit("--help");
    reveal_strlit("--id");
    reveal_strlit("--id=");
    reveal_strlit("--json");
    reveal_strlit("--limit");
    reveal_strlit("--limit=");
    reveal_strlit("--message");
    reveal_strlit("--message-id");
    reveal_strlit("--message-id=");
    reveal_strlit("--message=");
    reveal_strlit("--mode");
    reveal_strlit("--mode-id");
    reveal_strlit("--mode-id=");
    reveal_strlit("--mode=");
    reveal_strlit("--operation");
    reveal_strlit("--operation=");
    reveal_strlit("--profile");
    reveal_strlit("--profile-id");
    reveal_strlit("--profile-id=");
    reveal_strlit("--profile=");
    reveal_strlit("--read-only");
    reveal_strlit("--result");
    reveal_strlit("--result=");
    reveal_strlit("--role");
    reveal_strlit("--role=");
    reveal_strlit("--scenario");
    reveal_strlit("--scenario-id");
    reveal_strlit("--scenario-id=");
    reveal_strlit("--scenario=");
    reveal_strlit("--session");
    reveal_strlit("--session=");
    reveal_strlit("--stdio");
    reveal_strlit("--target-message");
    reveal_strlit("--target-message-id");
    reveal_strlit("--target-message-id=");
    reveal_strlit("--target-message=");
    reveal_strlit("--title");
    reveal_strlit("--title=");
    reveal_strlit("--yes");
    reveal_strlit("-h");
    reveal_strlit("=");
    let f = "--allow-tool"@;
    let a = f + "="@ + v;
    lemma_seq_differs(f, "--profile-id"@, 2);
    lemma_seq_differs(f, "--message-id"@, 2);
    lemma_seq_differs(a, "--allow-writes"@, 8);
    lemma_seq_differs(a, "--allow-network"@, 8);
    lemma_seq_differs(a, "--character-id"@, 2);
    lemma_seq_differs(a, "--scenario-id"@, 2);
    lemma_seq_differs(a, "--target-message"@, 2);
    lemma_seq_differs(a, "--target-message-id"@, 2);
    lemma_seq_differs(a, "--allow-tools"@, 12);
    lemma_prefix_differs(f, "--db="@, 2);
    lemma_prefix_differs(f, "--limit="@, 2);
    lemma_prefix_differs(f, "--session="@, 2);
    lemma_prefix_differs(f, "--id="@, 2);
    lemma_prefix_differs(f, "--profile="@, 2);
    lemma_prefix_differs(f, "--character="@, 2);
    lemma_prefix_differs(f, "--title="@, 2);
    lemma_prefix_differs(f, "--mode="@, 2);
    lemma_prefix_differs(f, "--mode-id="@, 2);
    lemma_prefix_differs(f, "--scenario="@, 2);
    lemma_prefix_differs(f, "--role="@, 2);
    lemma_prefix_differs(f, "--content="@, 2);
    lemma_prefix_differs(f, "--operation="@, 2);
    lemma_prefix_differs(f, "--actor="@, 3);
    lemma_prefix_differs(f, "--result="@, 2);
    lemma_prefix_differs(f, "--message="@, 2);
    lemma_prefix_differs(a, "--db="@, 2);
    lemma_prefix_differs(a, "--limit="@, 2);
    lemma_prefix_differs(a, "--session="@, 2);
    lemma_prefix_differs(a, "--id="@, 2);
    lemma_prefix_differs(a, "--profile="@, 2);
    lemma_prefix_differs(a, "--profile-id="@, 2);
    lemma_prefix_differs(a, "--character="@, 2);
    lemma_prefix_differs(a, "--character-id="@, 2);
    lemma_prefix_differs(a, "--title="@, 2);
    lemma_prefix_differs(a, "--mode="@, 2);
    lemma_prefix_differs(a, "--mode-id="@, 2);
    lemma_prefix_differs(a, "--scenario="@, 2);
    lemma_prefix_differs(a, "--scenario-id="@, 2);
    lemma_prefix_differs(a, "--role="@, 2);
    lemma_prefix_differs(a, "--content="@, 2);
    lemma_prefix_differs(a, "--operation="@, 2);
    lemma_prefix_differs(a, "--actor="@, 3);
    lemma_prefix_differs(a, "--result="@, 2);
    lemma_prefix_differs(a, "--message="@, 2);
    lemma_prefix_differs(a, "--message-id="@, 2);
    lemma_prefix_differs(a, "--target-message="@, 2);
    lemma_prefix_differs(a, "--target-message-id="@, 2);
    assert(a.subrange(0, 13) =~= "--allow-tool="@);
    assert(classify(f) == ArgKind::Valued(Slot::Tool));
    assert(text::has_prefix(a, "--allow-tool="@));
    assert(classify(a) == ArgKind::Inline(Slot::Tool, "--allow-tool="));
}

#[verifier::rlimit(50)]
proof fn lemma_inline_form_allow_tools(v: Seq<char>)
    ensures
        classify("--allow-tools"@ + "="@ + v) matches ArgKind::Inline(s, p) && classify("--allow-tools"@) == ArgKind::Valued(s) && p@
            == "--allow-tools"@ + "="@,
        classify("--allow-tools"@) == ArgKind::Valued(Slot::Tools),
{
    reveal_strlit("-");
    reveal_strlit("--actor");
    reveal_strlit("--actor=");
    reveal_strlit("--allow-network");
    reveal_strlit("--allow-tool");
    reveal_strlit("--allow-tool=");
    reveal_strlit("--allow-tools");
    reveal_strlit("--allow-tools=");
    reveal_strlit("--allow-writes");
    reveal_strlit("--character");
    reveal_strlit("--character-id");
    reveal_strlit("--character-id=");
    reveal_strlit("--character=");
    reveal_strlit("--content");
    reveal_strlit("--content=");
    reveal_strlit("--db");
    reveal_strlit("--db=");
    reveal_strlit("--help");
    reveal_strlit("--id");
    reveal_strlit("--id=");
    reveal_strlit("--json");
    reveal_strlit("--limit");
    reveal_strlit("--limit=");
    reveal_strlit("--message");
    reveal_strlit("--message-id");
    reveal_strlit("--message-id=");
    reveal_strlit("--message=");
    reveal_strlit("--mode");
    reveal_strlit("--mode-id");
    reveal_strlit("--mode-id=");
    reveal_strlit("--mode=");
    reveal_strlit("--operation");
    reveal_strlit("--operation=");
    reveal_strlit("--profile");
    reveal_strlit("--profile-id");
    reveal_strlit("--profile-id=");
    reveal_strlit("--profile=");
    reveal_strlit("--read-only");
    reveal_strlit("--result");
    reveal_strlit("--result=");
    reveal_strlit("--role");
    reveal_strlit("--role=");
    reveal_strlit("--scenario");
    reveal_strlit("--scenario-id");
    reveal_strlit("--scenario-id=");
    reveal_strlit("--scenario=");
    reveal_strlit("--session");
    reveal_strlit("--session=");
    reveal_strlit("--stdio");
    reveal_strlit("--target-message");
    reveal_strlit("--target-message-id");
    reveal_strlit("--target-message-id=");
    reveal_strlit("--target-message=");
    reveal_strlit("--title");
    reveal_strlit("--title=");
    reveal_strlit("--yes");
    reveal_strlit("-h");
    reveal_strlit("=");
    let f = "--allow-tools"@;
    let a = f + "="@ + v;
    lemma_seq_differs(f, "--scenario-id"@, 2);
    lemma_seq_differs(a, "--allow-writes"@, 8);
    lemma_seq_differs(a, "--allow-network"@, 8);
    lemma_seq_differs(a, "--character-id"@, 2);
    lemma_seq_differs(a, "--target-message"@, 2);
    lemma_seq_differs(a, "--target-message-id"@, 2);
    lemma_prefix_differs(f, "--db="@, 2);
    lemma_prefix_differs(f, "--limit="@, 2);
    lemma_prefix_differs(f, "--session="@, 2);
    lemma_prefix_differs(f, "--id="@, 2);
    lemma_prefix_differs(f, "--profile="@, 2);
    lemma_prefix_differs(f, "--profile-id="@, 2);
    lemma_prefix_differs(f, "--character="@, 2);
    lemma_prefix_differs(f, "--title="@, 2);
    lemma_prefix_differs(f, "--mode="@, 2);
    lemma_prefix_differs(f, "--mode-id="@, 2);
    lemma_prefix_differs(f, "--scenario="@, 2);
    lemma_prefix_differs(f, "--role="@, 2);
    lemma_prefix_differs(f, "--content="@, 2);
    lemma_prefix_differs(f, "--operation="@, 2);
    lemma_prefix_differs(f, "--actor="@, 3);
    lemma_prefix_differs(f, "--result="@, 2);
    lemma_prefix_differs(f, "--message="@, 2);
    lemma_prefix_differs(f, "--message-id="@, 2);
    lemma_prefix_differs(a, "--db="@, 2);
    lemma_prefix_differs(a, "--limit="@, 2);
    lemma_prefix_differs(a, "--session="@, 2);
    lemma_prefix_differs(a, "--id="@, 2);
    lemma_prefix_differs(a, "--profile="@, 2);
    lemma_prefix_differs(a, "--profile-id="@, 2);
    lemma_prefix_differs(a, "--character="@, 2);
    lemma_prefix_differs(a, "--character-id="@, 2);
    lemma_prefix_differs(a, "--title="@, 2);
    lemma_prefix_differs(a, "--mode="@, 2);
    lemma_prefix_differs(a, "--mode-id="@, 2);
    lemma_prefix_differs(a, "--scenario="@, 2);
    lemma_prefix_differs(a, "--scenario-id="@, 2);
    lemma_prefix_differs(a, "--role="@, 2);
    lemma_prefix_differs(a, "--content="@, 2);
    lemma_prefix_differs(a, "--operation="@, 2);
    lemma_prefix_differs(a, "--actor="@, 3);
    lemma_prefix_differs(a, "--result="@, 2);
    lemma_prefix_differs(a, "--message="@, 2);
    lemma_prefix_differs(a, "--message-id="@, 2);
    lemma_prefix_differs(a, "--target-message="@, 2);
    lemma_prefix_differs(a, "--target-message-id="@, 2);
    lemma_prefix_differs(a, "--allow-tool="@, 12);
    assert(a.subrange(0, 14) =~= "--allow-tools="@);
    assert(classify(f) == ArgKind::Valued(Slot::Tools));
    assert(text::has_prefix(a, "--allow-tools="@));
    assert(classify(a) == ArgKind::Inline(Slot::Tools, "--allow-tools="));
}
/// The `--name=value` form of every option that takes a value reads as
/// that option, with what follows the first `=` as the text its value is
/// taken from.
proof fn lemma_inline_form(f: Seq<char>, v: Seq<char>)
    requires
        classify(f) is Valued,
    ensures
        classify(f + "="@ + v) matches ArgKind::Inline(s, p) && classify(f) == ArgKind::Valued(s) && p@ == f + "="@,
{
    if f == "--db"@ {
        lemma_inline_form_db(v);
    } else if f == "--limit"@ {
        lemma_inline_form_limit(v);
    } else if f == "--session"@ {
        lemma_inline_form_session(v);
    } else if f == "--id"@ {
        lemma_inline_form_id(v);
    } else if f == "--profile"@ {
        lemma_inline_form_profile(v);
    } else if f == "--profile-id"@ {
        lemma_inline_form_profile_id(v);
    } else if f == "--character"@ {
        lemma_inline_form_character(v);
    } else if f == "--character-id"@ {
        lemma_inline_form_character_id(v);
    } else if f == "--title"@ {
        lemma_inline_form_title(v);
    } else if f == "--mode"@ {
        lemma_inline_form_mode(v);
    } else if f == "--mode-id"@ {
        lemma_inline_form_mode_id(v);
    } else if f == "--scenario"@ {
        lemma_inline_form_scenario(v);
    } else if f == "--scenario-id"@ {
        lemma_inline_form_scenario_id(v);
    } else if f == "--role"@ {
        lemma_inline_form_role(v);
    } else if f == "--content"@ {
        lemma_inline_form_content(v);
    } else if f == "--operation"@ {
        lemma_inline_form_operation(v);
    } else if f == "--actor"@ {
        lemma_inline_form_actor(v);
    } else if f == "--result"@ {
        lemma_inline_form_result(v);
    } else if f == "--message"@ {
        lemma_inline_form_message(v);
    } else if f == "--message-id"@ {
        lemma_inline_form_message_id(v);
    } else if f == "--target-message"@ {
        lemma_inline_form_target_message(v);
    } else if f == "--target-message-id"@ {
        lemma_inline_form_target_message_id(v);
    } else if f == "--allow-tool"@ {
        lemma_inline_form_allow_tool(v);
    } else if f == "--allow-tools"@ {
        lemma_inline_form_allow_tools(v);
    }
}

proof fn lemma_seq_differs(a: Seq<char>, b: Seq<char>, k: int)
    requires
        0 <= k < b.len(),
        k < a.len(),
        a[k] != b[k],
    ensures
        a != b,
{
}

proof fn lemma_prefix_differs(a: Seq<char>, p: Seq<char>, k: int)
    requires
        0 <= k < p.len(),
        k < a.len(),
        a[k] != p[k],
    ensures
        !text::has_prefix(a, p),
{
    if text::has_prefix(a, p) {
        assert(a.subrange(0, p.len() as int)[k] == a[k]);
    }
}

proof fn lemma_strip_inline(f: Seq<char>, v: Seq<char>)
    requires
        !text::has_prefix(v, f + "="@),
    ensures
        text::strip_all(f + "="@ + v, f + "="@) == v,
{
    reveal_strlit("=");
    let p = f + "="@;
    let a = p + v;
    assert(a.subrange(0, p.len() as int) =~= p);
    assert(a.subrange(p.len() as int, a.len() as int) =~= v);
    assert(text::strip_all(v, p) == v);
}

/// An option's value may be written as the next argument or after `=`:
/// `--opt value` and `--opt=value` read as the same command line, for every
/// option that takes a value, when the value does not itself begin with
/// `--opt=` and the option is not taken as the value of an option before it.
pub proof fn lemma_inline_value_parses_alike(
    before: Seq<Seq<char>>,
    f: Seq<char>,
    v: Seq<char>,
    after: Seq<Seq<char>>,
)
    requires
        classify(f) is Valued,
        !text::has_prefix(v, f + "="@),
        !(scan_to(before + seq![f, v] + after, 0, initial_scan(), before.len() as int) is Crossed),
    ensures
        parsed(before + seq![f, v] + after) == parsed(before + seq![f + "="@ + v] + after),
{
    let x = before + seq![f, v] + after;
    let a = f + "="@ + v;
    let y = before + seq![a] + after;
    let k = before.len() as int;
    assert(x.take(k) =~= before);
    assert(y.take(k) =~= before);
    lemma_scan_to_prefix(x, y, 0, initial_scan(), k);
    lemma_scan_to(x, 0, initial_scan(), k);
    lemma_scan_to(y, 0, initial_scan(), k);
    lemma_inline_form(f, v);
    lemma_strip_inline(f, v);
    assert(x.len() > 0 && y.len() > 0);
    match scan_to(x, 0, initial_scan(), k) {
        ScanStop::Reached(st) => {
            assert(x[k] == f);
            assert(x[k + 1] == v);
            assert(y[k] == a);
            assert(x.skip(k + 2) =~= after);
            assert(y.skip(k + 1) =~= after);
            if let ArgKind::Valued(slot) = classify(f) {
                match assign(st, slot, v) {
                    Ok(next) => {
                        lemma_scan_suffix(x, k + 2, y, k + 1, next);
                    },
                    Err(_) => {},
                }
            }
            assert(scan(x, k, st) == scan(y, k, st));
        },
        _ => {},
    }
}

/// An argument that does not begin with `-` is a word of the command.
proof fn lemma_word_classify(w: Seq<char>)
    requires
        w.len() > 0,
        w[0] != '-',
    ensures
        classify(w) == ArgKind::Word,
{
    reveal_strlit("-");
    reveal_strlit("--actor");
    reveal_strlit("--actor=");
    reveal_strlit("--allow-network");
    reveal_strlit("--allow-tool");
    reveal_strlit("--allow-tool=");
    reveal_strlit("--allow-tools");
    reveal_strlit("--allow-tools=");
    reveal_strlit("--allow-writes");
    reveal_strlit("--character");
    reveal_strlit("--character-id");
    reveal_strlit("--character-id=");
    reveal_strlit("--character=");
    reveal_strlit("--content");
    reveal_strlit("--content=");
    reveal_strlit("--db");
    reveal_strlit("--db=");
    reveal_strlit("--help");
    reveal_strlit("--id");
    reveal_strlit("--id=");
    reveal_strlit("--json");
    reveal_strlit("--limit");
    reveal_strlit("--limit=");
    reveal_strlit("--message");
    reveal_strlit("--message-id");
    reveal_strlit("--message-id=");
    reveal_strlit("--message=");
    reveal_strlit("--mode");
    reveal_strlit("--mode-id");
    reveal_strlit("--mode-id=");
    reveal_strlit("--mode=");
    reveal_strlit("--operation");
    reveal_strlit("--operation=");
    reveal_strlit("--profile");
    reveal_strlit("--profile-id");
    reveal_strlit("--profile-id=");
    reveal_strlit("--profile=");
    reveal_strlit("--read-only");
    reveal_strlit("--result");
    reveal_strlit("--result=");
    reveal_strlit("--role");
    reveal_strlit("--role=");
    reveal_strlit("--scenario");
    reveal_strlit("--scenario-id");
    reveal_strlit("--scenario-id=");
    reveal_strlit("--scenario=");
    reveal_strlit("--session");
    reveal_strlit("--session=");
    reveal_strlit("--stdio");
    reveal_strlit("--target-message");
    reveal_strlit("--target-message-id");
    reveal_strlit("--target-message-id=");
    reveal_strlit("--target-message=");
    reveal_strlit("--title");
    reveal_strlit("--title=");
    reveal_strlit("--yes");
    reveal_strlit("-h");
    lemma_seq_differs(w, "-h"@, 0);
    lemma_seq_differs(w, "--help"@, 0);
    lemma_seq_differs(w, "--json"@, 0);
    lemma_seq_differs(w, "--read-only"@, 0);
    lemma_seq_differs(w, "--stdio"@, 0);
    lemma_seq_differs(w, "--allow-writes"@, 0);
    lemma_seq_differs(w, "--allow-network"@, 0);
    lemma_seq_differs(w, "--yes"@, 0);
    lemma_seq_differs(w, "--db"@, 0);
    lemma_seq_differs(w, "--limit"@, 0);
    lemma_seq_differs(w, "--session"@, 0);
    lemma_seq_differs(w, "--id"@, 0);
    lemma_seq_differs(w, "--profile"@, 0);
    lemma_seq_differs(w, "--profile-id"@, 0);
    lemma_seq_differs(w, "--character"@, 0);
    lemma_seq_differs(w, "--character-id"@, 0);
    lemma_seq_differs(w, "--title"@, 0);
    lemma_seq_differs(w, "--mode"@, 0);
    lemma_seq_differs(w, "--mode-id"@, 0);
    lemma_seq_differs(w, "--scenario"@, 0);
    lemma_seq_differs(w, "--scenario-id"@, 0);
    lemma_seq_differs(w, "--role"@, 0);
    lemma_seq_differs(w, "--content"@, 0);
    lemma_seq_differs(w, "--operation"@, 0);
    lemma_seq_differs(w, "--actor"@, 0);
    lemma_seq_differs(w, "--result"@, 0);
    lemma_seq_differs(w, "--message"@, 0);
    lemma_seq_differs(w, "--message-id"@, 0);
    lemma_seq_differs(w, "--target-message"@, 0);
    lemma_seq_differs(w, "--target-message-id"@, 0);
    lemma_seq_differs(w, "--allow-tool"@, 0);
    lemma_seq_differs(w, "--allow-tools"@, 0);
    lemma_prefix_differs(w, "--db="@, 0);
    lemma_prefix_differs(w, "--limit="@, 0);
    lemma_prefix_differs(w, "--session="@, 0);
    lemma_prefix_differs(w, "--id="@, 0);
    lemma_prefix_differs(w, "--profile="@, 0);
    lemma_prefix_differs(w, "--profile-id="@, 0);
    lemma_prefix_differs(w, "--character="@, 0);
    lemma_prefix_differs(w, "--character-id="@, 0);
    lemma_prefix_differs(w, "--title="@, 0);
    lemma_prefix_differs(w, "--mode="@, 0);
    lemma_prefix_differs(w, "--mode-id="@, 0);
    lemma_prefix_differs(w, "--scenario="@, 0);
    lemma_prefix_differs(w, "--scenario-id="@, 0);
    lemma_prefix_differs(w, "--role="@, 0);
    lemma_prefix_differs(w, "--content="@, 0);
    lemma_prefix_differs(w, "--operation="@, 0);
    lemma_prefix_differs(w, "--actor="@, 0);
    lemma_prefix_differs(w, "--result="@, 0);
    lemma_prefix_differs(w, "--message="@, 0);
    lemma_prefix_differs(w, "--message-id="@, 0);
    lemma_prefix_differs(w, "--target-message="@, 0);
    lemma_prefix_differs(w, "--target-message-id="@, 0);
    lemma_prefix_differs(w, "--allow-tool="@, 0);
    lemma_prefix_differs(w, "--allow-tools="@, 0);
    lemma_prefix_differs(w, "-"@, 0);
}

/// The scan of `<word> list --limit <n>`: the two words, and the limit `n`.
proof fn lemma_listing_scan(word: Seq<char>, n: nat)
    requires
        1 <= n <= 500,
        classify(word) == ArgKind::Word,
        classify("list"@) == ArgKind::Word,
        classify("--limit"@) == ArgKind::Valued(Slot::Limit),
    ensures
        scan(seq![word, "list"@, "--limit"@, text::dec(n)], 0, initial_scan()) == ScanOutcome::Done(
            (ScanView { parts: seq![word, "list"@], limit: n, ..initial_scan() }),
        ),
{
    let x = seq![word, "list"@, "--limit"@, text::dec(n)];
    let st0 = initial_scan();
    let st1 = ScanView { parts: st0.parts.push(word), ..st0 };
    let st2 = ScanView { parts: st1.parts.push("list"@), ..st1 };
    assert(st0.parts.push(word).push("list"@) =~= seq![word, "list"@]);
    text::lemma_dec_parses(n);
    assert(limit_value(text::dec(n)) == Ok::<nat, Seq<char>>(n));
    let st3 = ScanView { limit: n, ..st2 };
    assert(x[0] == word && x[1] == "list"@ && x[2] == "--limit"@ && x[3] == text::dec(n));
    assert(assign(st2, Slot::Limit, text::dec(n)) == Ok::<ScanView, Seq<char>>(st3));
    assert(scan(x, 4, st3) == ScanOutcome::Done(st3));
    assert(scan(x, 2, st2) == scan(x, 4, st3));
    assert(scan(x, 1, st1) == scan(x, 2, st2));
    assert(scan(x, 0, st0) == scan(x, 1, st1));
    assert(st3 == (ScanView { parts: seq![word, "list"@], limit: n, ..initial_scan() }));
}

/// `--limit n` sets the limit of the listing commands to `n` (for `n` from 1
/// to 500): `session list`, `character list` and `audit list` list `n`
/// entries, not the default.
pub proof fn lemma_limit_reaches_listings(n: nat)
    requires
        1 <= n <= 500,
    ensures
        (parsed(seq!["session"@, "list"@, "--limit"@, text::dec(n)]) == Ok::<CliOptionsView, Seq<char>>(
            CliOptionsView { command: CommandView::SessionList { limit: n }, json: false, db_override: None },
        )),
        (parsed(seq!["character"@, "list"@, "--limit"@, text::dec(n)]) == Ok::<CliOptionsView, Seq<char>>(
            CliOptionsView { command: CommandView::CharacterList { limit: n }, json: false, db_override: None },
        )),
        (parsed(seq!["audit"@, "list"@, "--limit"@, text::dec(n)]) == Ok::<CliOptionsView, Seq<char>>(
            CliOptionsView {
                command: CommandView::AuditList {
                    limit: n,
                    filter: filter_from(None, None, None, None, None, None, None),
                },
                json: false,
                db_override: None,
            },
        )),
{
    reveal_strlit("agent");
    reveal_strlit("append-message");
    reveal_strlit("audit");
    reveal_strlit("character");
    reveal_strlit("characters");
    reveal_strlit("coach-report");
    reveal_strlit("coaching-report");
    reveal_strlit("config");
    reveal_strlit("diagnostics");
    reveal_strlit("export");
    reveal_strlit("list");
    reveal_strlit("profiles");
    reveal_strlit("retry-last");
    reveal_strlit("run");
    reveal_strlit("send-message");
    reveal_strlit("serve");
    reveal_strlit("session");
    reveal_strlit("start");
    reveal_strlit("status");
    reveal_strlit("switch");
    reveal_strlit("tools");
    lemma_word_classify("session"@);
    lemma_word_classify("character"@);
    lemma_word_classify("audit"@);
    lemma_word_classify("list"@);
    lemma_inline_form_limit(Seq::<char>::empty());
    assert(tool_items(Seq::<Seq<char>>::empty()) =~= Seq::<Seq<char>>::empty());
    assert(allowed_tools_from(Seq::<Seq<char>>::empty()) == Ok::<Seq<Seq<char>>, Seq<char>>(Seq::empty()));
    lemma_listing_scan("session"@, n);
    lemma_listing_scan("character"@, n);
    lemma_listing_scan("audit"@, n);
}

impl ArgScan {
    pub fn new() -> (s: ArgScan)
        ensures
            s@ == initial_scan(),
    {
        let s = ArgScan {
            json: false,
            read_only: false,
            stdio: false,
            allow_writes: false,
            allow_network: false,
            yes: false,
            db_override: None,
            limit: 50,
            session_id: None,
            profile_id: None,
            character_id: None,
            title: None,
            mode_id: None,
            scenario_id: None,
            role: None,
            content: None,
            operation: None,
            actor: None,
            result: None,
            message_id: None,
            raw_tools: Vec::new(),
            parts: Vec::new(),
        };
        assert(s@.raw_tools =~= Seq::<Seq<char>>::empty());
        assert(s@.parts =~= Seq::<Seq<char>>::empty());
        s
    }

    pub fn set_flag(&mut self, f: Flag)
        ensures
            final(self)@ == set_flag(old(self)@, f),
    {
        match f {
            Flag::Json => self.json = true,
            Flag::ReadOnly => self.read_only = true,
            Flag::Stdio => self.stdio = true,
            Flag::AllowWrites => self.allow_writes = true,
            Flag::AllowNetwork => self.allow_network = true,
            Flag::Yes => self.yes = true,
        }
    }

    pub fn assign(&mut self, slot: Slot, v: String) -> (r: Result<(), String>)
        ensures
            match r {
                Ok(()) => assign(old(self)@, slot, v@) == Ok::<ScanView, Seq<char>>(final(self)@),
                Err(m) => assign(old(self)@, slot, v@) == Err::<ScanView, Seq<char>>(m@),
            },
    {
        match slot {
            Slot::Db => self.db_override = Some(v),
            Slot::Limit => {
                match parse_limit(v.as_str()) {
                    Ok(n) => self.limit = n,
                    Err(m) => return Err(m),
                }
            },
            Slot::Session => self.session_id = Some(v),
            Slot::Profile => self.profile_id = Some(v),
            Slot::Character => self.character_id = Some(v),
            Slot::Title => self.title = Some(v),
            Slot::Mode => self.mode_id = Some(v),
            Slot::Scenario => self.scenario_id = Some(v),
            Slot::Role => self.role = Some(v),
            Slot::Content => self.content = Some(v),
            Slot::Operation => self.operation = Some(v),
            Slot::Actor => self.actor = Some(v),
            Slot::Outcome => self.result = Some(v),
            Slot::Message => self.message_id = Some(v),
            Slot::Tool | Slot::Tools => {
                let ghost prev = strs_view(self.raw_tools@);
                self.raw_tools.push(v);
                assert(strs_view(self.raw_tools@) =~= prev.push(v@));
            },
        }
        Ok(())
    }
}

fn missing_value_message(arg: &String, slot: Slot) -> (m: String)
    ensures
        m@ == arg@ + missing_suffix(slot),
{
    let mut m = arg.clone();
    match slot {
        Slot::Db => m.append(" requires a path value."),
        Slot::Limit => m.append(" requires a number."),
        Slot::Session => m.append(" requires a session id."),
        Slot::Profile => m.append(" requires a profile id."),
        Slot::Character => m.append(" requires a character id."),
        Slot::Mode => m.append(" requires a practice mode id."),
        Slot::Scenario => m.append(" requires a scenario id."),
        Slot::Message => m.append(" requires a message id."),
        Slot::Tool => m.append(" requires a tool name."),
        Slot::Tools => m.append(" requires one or more tool names."),
        _ => m.append(" requires a value."),
    }
    m
}

pub enum ScanResult {
    Help { json: bool, db_override: Option<String> },
    Fail(String),
    Done(ArgScan),
}

pub open spec fn scan_result_matches(r: ScanResult, o: ScanOutcome) -> bool {
    match r {
        ScanResult::Help { json, db_override } => o == ScanOutcome::Help {
            json,
            db_override: opt_view(db_override),
        },
        ScanResult::Fail(m) => o == ScanOutcome::Fail(m@),
        ScanResult::Done(st) => o == ScanOutcome::Done(st@),
    }
}

/// Reads every argument.
pub fn scan_args(args: &Vec<String>) -> (r: ScanResult)
    ensures
        scan_result_matches(r, scan(strs_view(args@), 0, initial_scan())),
{
    let ghost av = strs_view(args@);
    let mut st = ArgScan::new();
    let mut index: usize = 0;
    while index < args.len()
        invariant
            av == strs_view(args@),
            index <= args@.len(),
            scan(av, 0, initial_scan()) == scan(av, index as int, st@),
        decreases args.len() - index,
    {
        let a = text::to_chars(args[index].as_str());
        assert(av[index as int] == args@[index as int]@);
        let kind = classify_arg(a.as_slice());
        match kind {
            ArgKind::Help => {
                return ScanResult::Help { json: st.json, db_override: st.db_override };
            },
            ArgKind::Flag(f) => {
                st.set_flag(f);
            },
            ArgKind::Valued(slot) => {
                if index + 1 >= args.len() {
                    return ScanResult::Fail(missing_value_message(&args[index], slot));
                }
                index = index + 1;
                assert(av[index as int] == args@[index as int]@);
                match st.assign(slot, args[index].clone()) {
                    Ok(()) => {},
                    Err(m) => {
                        return ScanResult::Fail(m);
                    },
                }
            },
            ArgKind::Inline(slot, prefix) => {
                let v = text::string_of(text::trim_start_matches(a.as_slice(), prefix).as_slice());
                match st.assign(slot, v) {
                    Ok(()) => {},
                    Err(m) => {
                        return ScanResult::Fail(m);
                    },
                }
            },
            ArgKind::UnknownOption => {
                let mut m = text::owned("Unknown option: ");
                m.append(args[index].as_str());
                return ScanResult::Fail(m);
            },
            ArgKind::Word => {
                let ghost prev = strs_view(st.parts@);
                st.parts.push(args[index].clone());
                assert(strs_view(st.parts@) =~= prev.push(av[index as int]));
            },
        }
        index = index + 1;
    }
    ScanResult::Done(st)
}


// ───────────────────────── choosing the command ─────────────────────────

pub open spec fn words_are2(p: Seq<Seq<char>>, a: Seq<char>, b: Seq<char>) -> bool {
    p.len() == 2 && p[0] == a && p[1] == b
}

pub open spec fn words_are3(p: Seq<Seq<char>>, a: Seq<char>, b: Seq<char>, c: Seq<char>) -> bool {
    p.len() == 3 && p[0] == a && p[1] == b && p[2] == c
}

/// The command that the words name, with the options it needs.
pub open spec fn command_of(st: ScanView, tools: Seq<Seq<char>>) -> Result<CommandView, Seq<char>> {
    let p = st.parts;
    let filter = filter_from(
        st.operation,
        st.actor,
        st.result,
        st.profile_id,
        st.session_id,
        st.message_id,
        st.character_id,
    );
    if p.len() == 0 {
        Ok(CommandView::Help)
    } else if p.len() == 1 && p[0] == "status"@ {
        Ok(CommandView::Status)
    } else if words_are3(p, "config"@, "profiles"@, "list"@) {
        Ok(CommandView::ProfilesList)
    } else if p.len() == 4 && p[0] == "config"@ && p[1] == "profiles"@ && p[2] == "switch"@ {
        Ok(CommandView::ProfileSwitch { profile_id: p[3], yes: st.yes })
    } else if words_are3(p, "config"@, "profiles"@, "switch"@) {
        match st.profile_id {
            Some(id) => Ok(CommandView::ProfileSwitch { profile_id: id, yes: st.yes }),
            None => Err("config profiles switch requires <profile-id> or --profile <id>."@),
        }
    } else if words_are2(p, "character"@, "list"@) || words_are2(p, "characters"@, "list"@) {
        Ok(CommandView::CharacterList { limit: st.limit })
    } else if words_are2(p, "diagnostics"@, "run"@) {
        Ok(CommandView::DiagnosticsRun)
    } else if words_are2(p, "session"@, "list"@) {
        Ok(CommandView::SessionList { limit: st.limit })
    } else if words_are2(p, "session"@, "start"@) {
        match st.character_id {
            Some(c) => Ok(
                CommandView::SessionStart {
                    character_id: c,
                    title: st.title,
                    mode_id: st.mode_id,
                    scenario_id: st.scenario_id,
                    yes: st.yes,
                },
            ),
            None => Err("session start requires --character <id>."@),
        }
    } else if words_are2(p, "session"@, "append-message"@) {
        match (st.session_id, st.role, st.content) {
            (None, _, _) => Err("session append-message requires --session <id>."@),
            (Some(_), None, _) => Err("session append-message requires --role <user|assistant>."@),
            (Some(_), Some(_), None) => Err("session append-message requires --content <text>."@),
            (Some(sid), Some(role), Some(content)) => Ok(
                CommandView::SessionAppendMessage { session_id: sid, role, content, yes: st.yes },
            ),
        }
    } else if words_are2(p, "session"@, "send-message"@) {
        match (st.session_id, st.content) {
            (None, _) => Err("session send-message requires --session <id>."@),
            (Some(_), None) => Err("session send-message requires --content <text>."@),
            (Some(sid), Some(content)) => Ok(
                CommandView::SessionSendMessage {
                    session_id: sid,
                    content,
                    yes: st.yes,
                    allow_network: st.allow_network,
                },
            ),
        }
    } else if words_are2(p, "session"@, "retry-last"@) {
        match st.session_id {
            Some(sid) => Ok(
                CommandView::SessionRetryLastMessage {
                    session_id: sid,
                    yes: st.yes,
                    allow_network: st.allow_network,
                },
            ),
            None => Err("session retry-last requires --session <id>."@),
        }
    } else if words_are2(p, "session"@, "coach-report"@) || words_are2(
        p,
        "session"@,
        "coaching-report"@,
    ) {
        match st.session_id {
            Some(sid) => Ok(
                CommandView::SessionCoachReport { session_id: sid, allow_network: st.allow_network },
            ),
            None => Err("session coach-report requires --session <id>."@),
        }
    } else if words_are2(p, "session"@, "export"@) {
        match st.session_id {
            Some(sid) => Ok(CommandView::SessionExport { session_id: sid }),
            None => Err("session export requires --session <id>."@),
        }
    } else if words_are2(p, "audit"@, "list"@) {
        Ok(CommandView::AuditList { limit: st.limit, filter })
    } else if words_are2(p, "audit"@, "export"@) {
        Ok(CommandView::AuditExport { filter })
    } else if words_are3(p, "agent"@, "tools"@, "list"@) {
        if !st.allow_writes && tools.len() > 0 {
            Err("agent tools list --allow-tool requires --allow-writes."@)
        } else {
            Ok(
                CommandView::AgentToolsList {
                    allow_writes: st.allow_writes,
                    allow_network: st.allow_network,
                    allowed_tools: tools,
                },
            )
        }
    } else if words_are2(p, "agent"@, "serve"@) {
        Ok(
            CommandView::AgentServe {
                read_only: st.read_only,
                stdio: st.stdio,
                allow_writes: st.allow_writes,
                yes: st.yes,
                allow_network: st.allow_network,
                allowed_tools: tools,
            },
        )
    } else {
        Err("Unknown command: "@ + text::join(p, " "@))
    }
}

/// The command line as the CLI reads it: no arguments at all means help.
pub open spec fn parsed(args: Seq<Seq<char>>) -> Result<CliOptionsView, Seq<char>> {
    if args.len() == 0 {
        Ok(CliOptionsView { command: CommandView::Help, json: false, db_override: None })
    } else {
        match scan(args, 0, initial_scan()) {
            ScanOutcome::Help { json, db_override } => Ok(
                CliOptionsView { command: CommandView::Help, json, db_override },
            ),
            ScanOutcome::Fail(m) => Err(m),
            ScanOutcome::Done(st) => match allowed_tools_from(st.raw_tools) {
                Err(m) => Err(m),
                Ok(tools) => match command_of(st, tools) {
                    Err(m) => Err(m),
                    Ok(command) => Ok(
                        CliOptionsView { command, json: st.json, db_override: st.db_override },
                    ),
                },
            },
        }
    }
}

fn word_is(p: &Vec<String>, i: usize, lit: &str) -> (r: bool)
    requires
        i < p@.len(),
    ensures
        r == (p@[i as int]@ == lit@),
{
    text::str_eq(p[i].as_str(), lit)
}

fn words2(p: &Vec<String>, a: &str, b: &str) -> (r: bool)
    ensures
        r == words_are2(strs_view(p@), a@, b@),
{
    p.len() == 2 && word_is(p, 0, a) && word_is(p, 1, b)
}

fn words3(p: &Vec<String>, a: &str, b: &str, c: &str) -> (r: bool)
    ensures
        r == words_are3(strs_view(p@), a@, b@, c@),
{
    p.len() == 3 && word_is(p, 0, a) && word_is(p, 1, b) && word_is(p, 2, c)
}

fn err_text(m: &str) -> (r: Result<Command, String>)
    ensures
        r matches Err(e) && e@ == m@,
{
    Err(text::owned(m))
}

pub fn command_of_scan(st: &ArgScan, tools: Vec<String>) -> (r: Result<Command, String>)
    ensures
        match r {
            Ok(c) => command_of(st@, strs_view(tools@)) == Ok::<CommandView, Seq<char>>(c@),
            Err(m) => command_of(st@, strs_view(tools@)) == Err::<CommandView, Seq<char>>(m@),
        },
{
    let p = &st.parts;
    proof {
        assert forall|k: int| 0 <= k < p@.len() implies strs_view(p@)[k] == p@[k]@ by {}
    }
    if p.len() == 0 {
        Ok(Command::Help)
    } else if p.len() == 1 && word_is(p, 0, "status") {
        Ok(Command::Status)
    } else if words3(p, "config", "profiles", "list") {
        Ok(Command::ProfilesList)
    } else if p.len() == 4 && word_is(p, 0, "config") && word_is(p, 1, "profiles") && word_is(
        p,
        2,
        "switch",
    ) {
        Ok(Command::ProfileSwitch { profile_id: p[3].clone(), yes: st.yes })
    } else if words3(p, "config", "profiles", "switch") {
        match clone_opt(&st.profile_id) {
            Some(id) => Ok(Command::ProfileSwitch { profile_id: id, yes: st.yes }),
            None => err_text("config profiles switch requires <profile-id> or --profile <id>."),
        }
    } else if words2(p, "character", "list") || words2(p, "characters", "list") {
        Ok(Command::CharacterList { limit: st.limit })
    } else if words2(p, "diagnostics", "run") {
        Ok(Command::DiagnosticsRun)
    } else if words2(p, "session", "list") {
        Ok(Command::SessionList { limit: st.limit })
    } else if words2(p, "session", "start") {
        match clone_opt(&st.character_id) {
            Some(c) => Ok(
                Command::SessionStart {
                    character_id: c,
                    title: clone_opt(&st.title),
                    mode_id: clone_opt(&st.mode_id),
                    scenario_id: clone_opt(&st.scenario_id),
                    yes: st.yes,
                },
            ),
            None => err_text("session start requires --character <id>."),
        }
    } else if words2(p, "session", "append-message") {
        match (clone_opt(&st.session_id), clone_opt(&st.role), clone_opt(&st.content)) {
            (None, _, _) => err_text("session append-message requires --session <id>."),
            (Some(_), None, _) => err_text(
                "session append-message requires --role <user|assistant>.",
            ),
            (Some(_), Some(_), None) => err_text(
                "session append-message requires --content <text>.",
            ),
            (Some(sid), Some(role), Some(content)) => Ok(
                Command::SessionAppendMessage { session_id: sid, role, content, yes: st.yes },
            ),
        }
    } else if words2(p, "session", "send-message") {
        match (clone_opt(&st.session_id), clone_opt(&st.content)) {
            (None, _) => err_text("session send-message requires --session <id>."),
            (Some(_), None) => err_text("session send-message requires --content <text>."),
            (Some(sid), Some(content)) => Ok(
                Command::SessionSendMessage {
                    session_id: sid,
                    content,
                    yes: st.yes,
                    allow_network: st.allow_network,
                },
            ),
        }
    } else if words2(p, "session", "retry-last") {
        match clone_opt(&st.session_id) {
            Some(sid) => Ok(
                Command::SessionRetryLastMessage {
                    session_id: sid,
                    yes: st.yes,
                    allow_network: st.allow_network,
                },
            ),
            None => err_text("session retry-last requires --session <id>."),
        }
    } else if words2(p, "session", "coach-report") || words2(p, "session", "coaching-report") {
        match clone_opt(&st.session_id) {
            Some(sid) => Ok(
                Command::SessionCoachReport { session_id: sid, allow_network: st.allow_network },
            ),
            None => err_text("session coach-report requires --session <id>."),
        }
    } else if words2(p, "session", "export") {
        match clone_opt(&st.session_id) {
            Some(sid) => Ok(Command::SessionExport { session_id: sid }),
            None => err_text("session export requires --session <id>."),
        }
    } else if words2(p, "audit", "list") || words2(p, "audit", "export") {
        let filter = build_audit_filter(
            clone_opt(&st.operation),
            clone_opt(&st.actor),
            clone_opt(&st.result),
            clone_opt(&st.profile_id),
            clone_opt(&st.session_id),
            clone_opt(&st.message_id),
            clone_opt(&st.character_id),
        );
        if words2(p, "audit", "list") {
            Ok(Command::AuditList { limit: st.limit, filter })
        } else {
            Ok(Command::AuditExport { filter })
        }
    } else if words3(p, "agent", "tools", "list") {
        if !st.allow_writes && tools.len() > 0 {
            err_text("agent tools list --allow-tool requires --allow-writes.")
        } else {
            Ok(
                Command::AgentToolsList {
                    allow_writes: st.allow_writes,
                    allow_network: st.allow_network,
                    allowed_tools: tools,
                },
            )
        }
    } else if words2(p, "agent", "serve") {
        Ok(
            Command::AgentServe {
                read_only: st.read_only,
                stdio: st.stdio,
                allow_writes: st.allow_writes,
                yes: st.yes,
                allow_network: st.allow_network,
                allowed_tools: tools,
            },
        )
    } else {
        let mut m = text::owned("Unknown command: ");
        let joined = text::join_strings(p, " ");
        m.append(joined.as_str());
        Err(m)
    }
}

/// Parses the CLI's arguments (without the program name).
pub fn parse_args(args: Vec<String>) -> (r: Result<CliOptions, String>)
    ensures
        match r {
            Ok(o) => parsed(strs_view(args@)) == Ok::<CliOptionsView, Seq<char>>(o@),
            Err(m) => parsed(strs_view(args@)) == Err::<CliOptionsView, Seq<char>>(m@),
        },
{
    if args.len() == 0 {
        return Ok(CliOptions { command: Command::Help, json: false, db_override: None });
    }
    match scan_args(&args) {
        ScanResult::Help { json, db_override } => Ok(
            CliOptions { command: Command::Help, json, db_override },
        ),
        ScanResult::Fail(m) => Err(m),
        ScanResult::Done(st) => {
            let tools = match normalize_allowed_write_tools(clone_strings(&st.raw_tools)) {
                Ok(t) => t,
                Err(m) => {
                    return Err(m);
                },
            };
            match command_of_scan(&st, tools) {
                Ok(command) => Ok(
                    CliOptions { command, json: st.json, db_override: st.db_override },
                ),
                Err(m) => Err(m),
            }
        },
    }
}

} // verus!
