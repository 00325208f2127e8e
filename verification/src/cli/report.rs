//! The CLI's reports on a practice database: the database it reads, the
//! provider profile it uses, the prompts it sends, and the summaries and
//! transcripts it builds from a session's messages.

use vstd::prelude::*;
use crate::cli::{clone_opt, opt_view};
use crate::error::prefixed;
use crate::state::{self, AiProvider};
use crate::text;

verus! {

// ───────────────────────── records ─────────────────────────

/// A place the database may be.
#[derive(Debug, Clone)]
pub struct DbCandidate {
    /// Where the candidate came from (`--db`, an environment variable, an
    /// application id).
    pub source: String,
    pub path: String,
    pub exists: bool,
}

/// The database a report reads: the chosen candidate and all candidates.
#[derive(Debug, Clone)]
pub struct DbInfo {
    pub path: Option<String>,
    pub source: Option<String>,
    pub exists: bool,
    pub candidates: Vec<DbCandidate>,
}

/// A provider profile as the CLI reports it.
#[derive(Debug, Clone)]
pub struct ProfileInfo {
    pub id: String,
    pub name: String,
    pub provider: String,
    pub base_url: String,
    pub model: String,
    pub is_default: bool,
    pub requires_api_key: bool,
    pub supports_stt: bool,
    pub keychain_status: String,
}

/// What the prompt needs of a character.
#[derive(Debug, Clone)]
pub struct CharacterPromptInfo {
    pub system_prompt: String,
}

/// A practice session as the CLI reports it.
#[derive(Debug, Clone)]
pub struct SessionInfo {
    pub id: String,
    pub character_id: String,
    pub character_name: Option<String>,
    pub title: Option<String>,
    pub mode_id: Option<String>,
    pub mode_name: Option<String>,
    pub scenario_id: Option<String>,
    pub scenario_name: Option<String>,
    pub mode_prompt_suffix: Option<String>,
    pub scenario_description: Option<String>,
    pub created_at: String,
    pub updated_at: String,
    pub message_count: i64,
}

/// A message of a session.
#[derive(Debug, Clone)]
pub struct MessageInfo {
    pub id: String,
    pub role: String,
    pub content: String,
    /// Milliseconds since the Unix epoch.
    pub timestamp: i64,
}

/// One message sent to the language model.
#[derive(Debug, Clone)]
pub struct LlmChatMessage {
    pub role: String,
    pub content: String,
}

/// The summary of an exported session.
#[derive(Debug, Clone)]
pub struct SessionExportSummary {
    pub generated_at: String,
    pub title: Option<String>,
    pub character_id: String,
    pub character_name: Option<String>,
    pub mode_id: Option<String>,
    pub mode_name: Option<String>,
    pub scenario_id: Option<String>,
    pub scenario_name: Option<String>,
    pub message_count: usize,
    pub user_message_count: usize,
    pub assistant_message_count: usize,
    pub other_message_count: usize,
    pub first_message_at: Option<i64>,
    pub last_message_at: Option<i64>,
}

// ───────────────────────── providers, as text ─────────────────────────

/// The provider a base URL points at, by its stored name.
pub open spec fn inferred_provider(base_url: Seq<char>) -> Seq<char> {
    state::provider_name(state::provider_for_url(base_url))
}

pub fn infer_provider(base_url: &str) -> (r: String)
    ensures
        r@ == inferred_provider(base_url@),
{
    text::owned(AiProvider::infer_from_base_url(base_url).as_str())
}

/// A stored provider name, normalized: a known name (trimmed, any ASCII
/// case) is kept, anything else is replaced by what the base URL points at.
pub open spec fn normalized_provider(stored: Seq<char>, base_url: Seq<char>) -> Seq<char> {
    match state::parse_provider(stored) {
        Some(p) => state::provider_name(p),
        None => inferred_provider(base_url),
    }
}

pub fn normalize_provider(stored_provider: &str, base_url: &str) -> (r: String)
    ensures
        r@ == normalized_provider(stored_provider@, base_url@),
{
    match AiProvider::from_stored_value(stored_provider) {
        Some(p) => text::owned(p.as_str()),
        None => infer_provider(base_url),
    }
}

/// Only `openai` needs an API key.
pub fn requires_api_key(provider: &str) -> (r: bool)
    ensures
        r == (provider@ == "openai"@),
{
    text::str_eq(provider, "openai")
}

/// Every provider but `ollama` offers speech-to-text.
pub fn supports_stt(provider: &str) -> (r: bool)
    ensures
        r == (provider@ != "ollama"@),
{
    !text::str_eq(provider, "ollama")
}

/// The CLI's text-level provider rules agree with the application's: the
/// normalized name is the stored name of the provider the application
/// derives, and the key and speech-to-text capabilities match.
pub proof fn lemma_cli_provider_matches_app(stored: Seq<char>, base_url: Seq<char>)
    ensures
        ({
            let p = match state::parse_provider(stored) {
                Some(x) => x,
                None => state::provider_for_url(base_url),
            };
            &&& normalized_provider(stored, base_url) == state::provider_name(p)
            &&& (normalized_provider(stored, base_url) == "openai"@) == p.requires_key_spec()
            &&& (normalized_provider(stored, base_url) != "ollama"@) == p.supports_stt_spec()
        }),
{
    reveal_strlit("openai");
    reveal_strlit("ollama");
    reveal_strlit("custom");
    assert("ollama"@[1] != "openai"@[1]);
    assert("custom"@[0] != "openai"@[0]);
    assert("custom"@[0] != "ollama"@[0]);
}

/// A normalized provider name normalizes to itself.
pub proof fn lemma_normalize_provider_idempotent(stored: Seq<char>, base_url: Seq<char>)
    ensures
        normalized_provider(normalized_provider(stored, base_url), base_url) == normalized_provider(stored, base_url),
{
    let p = match state::parse_provider(stored) {
        Some(x) => x,
        None => state::provider_for_url(base_url),
    };
    state::lemma_stored_value_round_trip(p);
}

// ───────────────────────── prompts ─────────────────────────

/// The system prompt of a CLI conversation: the character's prompt, then the
/// practice mode with its instructions (Free Talk by default), then, when
/// the session has a scenario, the scenario, its description and a reminder
/// to stay in character.
pub open spec fn cli_system_prompt(character: CharacterPromptInfo, session: SessionInfo) -> Seq<char> {
    let mode_name = match session.mode_name {
        Some(m) => m@,
        None => "Free Talk"@,
    };
    let mode_prompt = match session.mode_prompt_suffix {
        Some(m) => m@,
        None => "Let the conversation flow naturally and help the learner practice speaking."@,
    };
    let base = character.system_prompt@ + "\n\n[Practice Mode: "@ + mode_name + "]\n"@ + mode_prompt;
    match session.scenario_name {
        Some(name) => {
            let with_name = base + "\n\n[Current Scenario: "@ + name@ + "]"@;
            let with_description = match session.scenario_description {
                Some(d) => with_name + "\n"@ + d@,
                None => with_name,
            };
            with_description + "\nPlease stay in character for this scenario throughout the conversation."@
        },
        None => base,
    }
}

fn str_or<'a>(o: &'a Option<String>, default: &'a str) -> (r: &'a str)
    ensures
        r@ == match *o {
            Some(s) => s@,
            None => default@,
        },
{
    match o {
        Some(s) => s.as_str(),
        None => default,
    }
}

pub fn build_cli_system_prompt(character: &CharacterPromptInfo, session: &SessionInfo) -> (r: String)
    ensures
        r@ == cli_system_prompt(*character, *session),
{
    let mut prompt = character.system_prompt.clone();
    let mode_name = str_or(&session.mode_name, "Free Talk");
    let mode_prompt = str_or(
        &session.mode_prompt_suffix,
        "Let the conversation flow naturally and help the learner practice speaking.",
    );
    prompt.append("\n\n[Practice Mode: ");
    prompt.append(mode_name);
    prompt.append("]\n");
    prompt.append(mode_prompt);
    if let Some(name) = &session.scenario_name {
        prompt.append("\n\n[Current Scenario: ");
        prompt.append(name.as_str());
        prompt.append("]");
        if let Some(d) = &session.scenario_description {
            prompt.append("\n");
            prompt.append(d.as_str());
        }
        prompt.append("\nPlease stay in character for this scenario throughout the conversation.");
    }
    prompt
}

/// A text cut to at most `max_chars` characters for a prompt, with a note
/// that it was cut; a text that fits is left whole.
pub open spec fn truncated(value: Seq<char>, max_chars: nat) -> Seq<char> {
    if value.len() <= max_chars {
        value
    } else {
        value.subrange(0, max_chars as int) + "\n\n[Transcript truncated for coaching prompt.]"@
    }
}

pub fn truncate_prompt_text(value: &str, max_chars: usize) -> (r: String)
    ensures
        r@ == truncated(value@, max_chars as nat),
{
    if value.unicode_len() <= max_chars {
        return text::owned(value);
    }
    let mut s = text::owned(value.substring_char(0, max_chars));
    s.append("\n\n[Transcript truncated for coaching prompt.]");
    s
}

/// A message role as the CLI accepts it: `user` or `assistant`, whitespace
/// and ASCII case aside.
pub open spec fn message_role(role: Seq<char>) -> Result<Seq<char>, Seq<char>> {
    let n = text::lower(text::trim(role));
    if n == "user"@ {
        Ok("user"@)
    } else if n == "assistant"@ {
        Ok("assistant"@)
    } else {
        Err("Unsupported message role '"@ + n + "'. Use 'user' or 'assistant'."@)
    }
}

pub fn normalize_message_role(role: &str) -> (r: Result<String, String>)
    ensures
        match message_role(role@) {
            Ok(x) => r is Ok && r->Ok_0@ == x,
            Err(m) => r is Err && r->Err_0@ == m,
        },
{
    let n = state::normalized(role);
    if text::str_eq_chars("user", n.as_slice()) {
        Ok(text::owned("user"))
    } else if text::str_eq_chars("assistant", n.as_slice()) {
        Ok(text::owned("assistant"))
    } else {
        let mut m = text::owned("Unsupported message role '");
        let ns = text::string_of(n.as_slice());
        m.append(ns.as_str());
        m.append("'. Use 'user' or 'assistant'.");
        Err(m)
    }
}

// ───────────────────────── session summary ─────────────────────────

/// How many of the messages have the given role.
pub open spec fn count_role(messages: Seq<MessageInfo>, role: Seq<char>) -> nat
    decreases messages.len(),
{
    if messages.len() == 0 {
        0
    } else {
        count_role(messages.drop_last(), role) + if messages.last().role@ == role {
            1nat
        } else {
            0nat
        }
    }
}

/// Messages of two different roles are never more than all the messages.
pub proof fn lemma_role_counts_bounded(messages: Seq<MessageInfo>, a: Seq<char>, b: Seq<char>)
    requires
        a != b,
    ensures
        count_role(messages, a) + count_role(messages, b) <= messages.len(),
    decreases messages.len(),
{
    if messages.len() > 0 {
        lemma_role_counts_bounded(messages.drop_last(), a, b);
    }
}

/// What the summary of a session says: its identity, its mode (Free Talk
/// by default) and scenario, how many messages it has of each role, and
/// when the first and last were sent.
pub open spec fn summary_matches(r: SessionExportSummary, session: SessionInfo, messages: Seq<MessageInfo>, generated_at: Seq<char>) -> bool {
    &&& r.generated_at@ == generated_at
    &&& opt_view(r.title) == opt_view(session.title)
    &&& r.character_id@ == session.character_id@
    &&& opt_view(r.character_name) == opt_view(session.character_name)
    &&& opt_view(r.mode_id) == Some(
        match session.mode_id {
            Some(m) => m@,
            None => "free_talk"@,
        },
    )
    &&& opt_view(r.mode_name) == Some(
        match session.mode_name {
            Some(m) => m@,
            None => "Free Talk"@,
        },
    )
    &&& opt_view(r.scenario_id) == opt_view(session.scenario_id)
    &&& opt_view(r.scenario_name) == opt_view(session.scenario_name)
    &&& r.message_count == messages.len()
    &&& r.user_message_count == count_role(messages, "user"@)
    &&& r.assistant_message_count == count_role(messages, "assistant"@)
    &&& r.other_message_count == messages.len() - count_role(messages, "user"@) - count_role(messages, "assistant"@)
    &&& r.first_message_at == if messages.len() > 0 {
        Some(messages[0].timestamp)
    } else {
        None
    }
    &&& r.last_message_at == if messages.len() > 0 {
        Some(messages.last().timestamp)
    } else {
        None
    }
}

fn or_default(o: &Option<String>, default: &str) -> (r: Option<String>)
    ensures
        opt_view(r) == Some(
            match *o {
                Some(s) => s@,
                None => default@,
            },
        ),
{
    match o {
        Some(s) => Some(s.clone()),
        None => Some(text::owned(default)),
    }
}

/// The summary of a session's export; `generated_at` is the time it is made.
pub fn session_export_summary_at(session: &SessionInfo, messages: &[MessageInfo], generated_at: String) -> (r:
    SessionExportSummary)
    ensures
        summary_matches(r, *session, messages@, generated_at@),
{
    let mut users: usize = 0;
    let mut assistants: usize = 0;
    let mut i: usize = 0;
    proof {
        reveal_strlit("user");
        reveal_strlit("assistant");
        assert("user"@.len() != "assistant"@.len());
    }
    while i < messages.len()
        invariant
            i <= messages@.len(),
            users == count_role(messages@.subrange(0, i as int), "user"@),
            assistants == count_role(messages@.subrange(0, i as int), "assistant"@),
            users + assistants <= i,
            "user"@ != "assistant"@,
        decreases messages.len() - i,
    {
        proof {
            assert(messages@.subrange(0, i + 1).drop_last() =~= messages@.subrange(0, i as int));
        }
        if text::str_eq(messages[i].role.as_str(), "user") {
            users = users + 1;
        } else if text::str_eq(messages[i].role.as_str(), "assistant") {
            assistants = assistants + 1;
        }
        i = i + 1;
    }
    proof {
        assert(messages@.subrange(0, i as int) =~= messages@);
    }
    let n = messages.len();
    SessionExportSummary {
        generated_at,
        title: clone_opt(&session.title),
        character_id: session.character_id.clone(),
        character_name: clone_opt(&session.character_name),
        mode_id: or_default(&session.mode_id, "free_talk"),
        mode_name: or_default(&session.mode_name, "Free Talk"),
        scenario_id: clone_opt(&session.scenario_id),
        scenario_name: clone_opt(&session.scenario_name),
        message_count: n,
        user_message_count: users,
        assistant_message_count: assistants,
        other_message_count: n - (users + assistants),
        first_message_at: if n > 0 {
            Some(messages[0].timestamp)
        } else {
            None
        },
        last_message_at: if n > 0 {
            Some(messages[n - 1].timestamp)
        } else {
            None
        },
    }
}

/// The summary of a session's export, made now: `summary_matches` for the
/// time the clock gave, of which nothing is stated.
pub fn build_session_export_summary(session: &SessionInfo, messages: &[MessageInfo]) -> (r: SessionExportSummary)
    ensures
        exists|generated_at: Seq<char>| #[trigger] summary_matches(r, *session, messages@, generated_at),
{
    let now = crate::fresh::now_rfc3339();
    let ghost g = now@;
    let r = session_export_summary_at(session, messages, now);
    proof {
        assert(summary_matches(r, *session, messages@, g));
    }
    r
}

/// The message counts of a summary add up: every message is a user
/// message, an assistant message or another one.
pub proof fn lemma_summary_counts_add_up(r: SessionExportSummary, session: SessionInfo, messages: Seq<MessageInfo>, generated_at: Seq<char>)
    requires
        summary_matches(r, session, messages, generated_at),
    ensures
        r.user_message_count + r.assistant_message_count + r.other_message_count == r.message_count,
{
    reveal_strlit("user");
    reveal_strlit("assistant");
    assert("user"@.len() != "assistant"@.len());
    lemma_role_counts_bounded(messages, "user"@, "assistant"@);
}

// ───────────────────────── transcript ─────────────────────────

/// The RFC 3339 form of a time given in milliseconds since the Unix epoch,
/// when chrono can represent that time.
pub uninterp spec fn rfc3339_millis(timestamp: i64) -> Option<Seq<char>>;

/// `chrono::DateTime::<Utc>::from_timestamp_millis`, written out with
/// `to_rfc3339`: the result is `rfc3339_millis` of the time.
#[verifier::external_body]
fn rfc3339_from_millis(timestamp: i64) -> (r: Option<String>)
    ensures
        opt_view(r) == rfc3339_millis(timestamp),
{
    match chrono::DateTime::<chrono::Utc>::from_timestamp_millis(timestamp) {
        Some(value) => Some(value.to_rfc3339()),
        None => None,
    }
}

/// How a message time is shown: in RFC 3339, or as the bare number when it
/// is out of range.
pub open spec fn message_stamp(timestamp: i64) -> Seq<char> {
    match rfc3339_millis(timestamp) {
        Some(s) => s,
        None => text::signed_dec(timestamp as int),
    }
}

pub fn format_message_timestamp(timestamp: i64) -> (r: String)
    ensures
        r@ == message_stamp(timestamp),
{
    match rfc3339_from_millis(timestamp) {
        Some(s) => s,
        None => text::i64_to_string(timestamp),
    }
}

/// The heading block of a transcript.
pub open spec fn transcript_header(s: SessionInfo, message_count: nat) -> Seq<char> {
    let title = match s.title {
        Some(t) => t@,
        None => "Untitled"@,
    };
    let character = match s.character_name {
        Some(n) => n@,
        None => s.character_id@,
    };
    let mode_name = match s.mode_name {
        Some(m) => m@,
        None => "Free Talk"@,
    };
    let mode_id = match s.mode_id {
        Some(m) => m@,
        None => "free_talk"@,
    };
    let scenario = match s.scenario_id {
        Some(sid) => "- Scenario: "@ + match s.scenario_name {
            Some(n) => n@,
            None => sid@,
        } + " (`"@ + sid@ + "`)\n"@,
        None => "- Scenario: none\n"@,
    };
    "# SpeakMate Session Report\n\n"@ + "- Session: `"@ + s.id@ + "`\n"@ + "- Title: "@ + title + "\n"@
        + "- Character: "@ + character + " (`"@ + s.character_id@ + "`)\n"@ + "- Practice Mode: "@ + mode_name
        + " (`"@ + mode_id + "`)\n"@ + scenario + "- Created: "@ + s.created_at@ + "\n"@ + "- Updated: "@
        + s.updated_at@ + "\n"@ + "- Messages: "@ + text::dec(message_count) + "\n\n"@
}

/// The blocks of the messages, each under a heading with its role and time,
/// its content trimmed.
pub open spec fn message_blocks(messages: Seq<MessageInfo>, stamps: Seq<Seq<char>>) -> Seq<char>
    decreases messages.len(),
{
    if messages.len() == 0 {
        Seq::<char>::empty()
    } else {
        let k = messages.len() - 1;
        message_blocks(messages.drop_last(), stamps) + "## "@ + messages[k].role@ + " ("@ + stamps[k] + ")\n\n"@
            + text::trim(messages[k].content@) + "\n\n"@
    }
}

/// The Markdown transcript of a session, given how each message's time is
/// shown.
pub open spec fn transcript(s: SessionInfo, messages: Seq<MessageInfo>, stamps: Seq<Seq<char>>) -> Seq<char> {
    transcript_header(s, messages.len()) + if messages.len() == 0 {
        "_No messages recorded for this session yet._\n"@
    } else {
        message_blocks(messages, stamps)
    }
}

#[verifier::spinoff_prover]
#[verifier::rlimit(50)]
fn transcript_header_text(session: &SessionInfo, message_count: usize) -> (r: String)
    ensures
        r@ == transcript_header(*session, message_count as nat),
{
    let title = str_or(&session.title, "Untitled");
    let character = match &session.character_name {
        Some(n) => n.as_str(),
        None => session.character_id.as_str(),
    };
    let mut md = text::owned("# SpeakMate Session Report\n\n");
    md.append("- Session: `");
    md.append(session.id.as_str());
    md.append("`\n");
    md.append("- Title: ");
    md.append(title);
    md.append("\n");
    md.append("- Character: ");
    md.append(character);
    md.append(" (`");
    md.append(session.character_id.as_str());
    md.append("`)\n");
    md.append("- Practice Mode: ");
    md.append(str_or(&session.mode_name, "Free Talk"));
    md.append(" (`");
    md.append(str_or(&session.mode_id, "free_talk"));
    md.append("`)\n");
    match &session.scenario_id {
        Some(sid) => {
            md.append("- Scenario: ");
            md.append(str_or(&session.scenario_name, sid.as_str()));
            md.append(" (`");
            md.append(sid.as_str());
            md.append("`)\n");
        },
        None => {
            md.append("- Scenario: none\n");
        },
    }
    md.append("- Created: ");
    md.append(session.created_at.as_str());
    md.append("\n");
    md.append("- Updated: ");
    md.append(session.updated_at.as_str());
    md.append("\n");
    md.append("- Messages: ");
    text::push_dec(&mut md, message_count as u64);
    md.append("\n\n");
    md
}

/// The Markdown transcript, with the message times already written out.
pub fn transcript_markdown_with(session: &SessionInfo, messages: &[MessageInfo], stamps: &Vec<String>) -> (r: String)
    requires
        stamps@.len() == messages@.len(),
    ensures
        r@ == transcript(*session, messages@, crate::cli::strs_view(stamps@)),
{
    let ghost sv = crate::cli::strs_view(stamps@);
    let mut md = transcript_header_text(session, messages.len());
    assert(md@ == transcript_header(*session, messages@.len()));
    if messages.len() == 0 {
        md.append("_No messages recorded for this session yet._\n");
        return md;
    }
    let ghost header = md@;
    let mut i: usize = 0;
    while i < messages.len()
        invariant
            i <= messages@.len(),
            stamps@.len() == messages@.len(),
            sv == crate::cli::strs_view(stamps@),
            md@ == header + message_blocks(messages@.subrange(0, i as int), sv),
        decreases messages.len() - i,
    {
        proof {
            assert(messages@.subrange(0, i + 1).drop_last() =~= messages@.subrange(0, i as int));
        }
        md.append("## ");
        md.append(messages[i].role.as_str());
        md.append(" (");
        md.append(stamps[i].as_str());
        md.append(")\n\n");
        md.append(text::trim_str(messages[i].content.as_str()));
        md.append("\n\n");
        i = i + 1;
    }
    proof {
        assert(messages@.subrange(0, i as int) =~= messages@);
    }
    md
}

/// How each message's time is shown.
pub open spec fn stamps_of(messages: Seq<MessageInfo>) -> Seq<Seq<char>> {
    messages.map_values(|m: MessageInfo| message_stamp(m.timestamp))
}

proof fn lemma_blocks_use_own_stamps(messages: Seq<MessageInfo>, a: Seq<Seq<char>>, b: Seq<Seq<char>>)
    requires
        messages.len() <= a.len(),
        messages.len() <= b.len(),
        forall|i: int| 0 <= i < messages.len() ==> a[i] == b[i],
    ensures
        message_blocks(messages, a) == message_blocks(messages, b),
    decreases messages.len(),
{
    if messages.len() > 0 {
        lemma_blocks_use_own_stamps(messages.drop_last(), a, b);
    }
}

/// Each message of a transcript is shown under its own role and its own
/// time: appending a message to a session appends, after the blocks of the
/// earlier messages (unchanged), one block headed by that message's role and
/// the formatted time of that message, followed by its trimmed content.
pub proof fn lemma_transcript_block_per_message(s: SessionInfo, messages: Seq<MessageInfo>, m: MessageInfo)
    requires
        messages.len() > 0,
    ensures
        transcript(s, messages.push(m), stamps_of(messages.push(m))) == transcript_header(s, messages.len() + 1)
            + message_blocks(messages, stamps_of(messages)) + "## "@ + m.role@ + " ("@ + message_stamp(m.timestamp)
            + ")\n\n"@ + text::trim(m.content@) + "\n\n"@,
{
    let all = messages.push(m);
    assert(all.drop_last() =~= messages);
    let st = stamps_of(all);
    assert(st[messages.len() as int] == message_stamp(m.timestamp));
    assert forall|i: int| 0 <= i < messages.len() implies st[i] == stamps_of(messages)[i] by {
        assert(all[i] == messages[i]);
    }
    lemma_blocks_use_own_stamps(messages, st, stamps_of(messages));
}

/// A session without messages says so after its heading.
pub proof fn lemma_empty_transcript(s: SessionInfo)
    ensures
        transcript(s, Seq::empty(), stamps_of(Seq::empty())) == transcript_header(s, 0)
            + "_No messages recorded for this session yet._\n"@,
{
}

/// The Markdown transcript of a session.
pub fn build_session_transcript_markdown(session: &SessionInfo, messages: &[MessageInfo]) -> (r: String)
    ensures
        r@ == transcript(*session, messages@, stamps_of(messages@)),
{
    let mut stamps: Vec<String> = Vec::new();
    let mut i: usize = 0;
    while i < messages.len()
        invariant
            i <= messages@.len(),
            crate::cli::strs_view(stamps@) == stamps_of(messages@.subrange(0, i as int)),
        decreases messages.len() - i,
    {
        let s = format_message_timestamp(messages[i].timestamp);
        let ghost prev = crate::cli::strs_view(stamps@);
        let ghost sv = s@;
        stamps.push(s);
        assert(crate::cli::strs_view(stamps@) =~= prev.push(sv));
        assert(messages@.subrange(0, i + 1) =~= messages@.subrange(0, i as int).push(messages@[i as int]));
        assert(stamps_of(messages@.subrange(0, i + 1)) =~= stamps_of(messages@.subrange(0, i as int)).push(
            message_stamp(messages@[i as int].timestamp),
        ));
        i = i + 1;
    }
    assert(messages@.subrange(0, i as int) =~= messages@);
    transcript_markdown_with(session, messages, &stamps)
}

// ───────────────────────── model requests ─────────────────────────

/// A message as role and content.
pub open spec fn llm_view(m: LlmChatMessage) -> (Seq<char>, Seq<char>) {
    (m.role@, m.content@)
}

/// The earlier user and assistant messages, in order; other roles are left
/// out.
pub open spec fn history_turns(messages: Seq<MessageInfo>) -> Seq<(Seq<char>, Seq<char>)>
    decreases messages.len(),
{
    if messages.len() == 0 {
        Seq::empty()
    } else {
        let prev = history_turns(messages.drop_last());
        let m = messages.last();
        if m.role@ == "user"@ || m.role@ == "assistant"@ {
            prev.push((m.role@, m.content@))
        } else {
            prev
        }
    }
}

/// The messages of a chat request: the system prompt, the earlier user and
/// assistant messages, then the new message.
pub open spec fn chat_request(
    character: CharacterPromptInfo,
    session: SessionInfo,
    existing: Seq<MessageInfo>,
    user_message: MessageInfo,
) -> Seq<(Seq<char>, Seq<char>)> {
    seq![("system"@, cli_system_prompt(character, session))] + history_turns(existing) + seq![
        (user_message.role@, user_message.content@),
    ]
}

pub fn chat_completion_messages(
    character: &CharacterPromptInfo,
    session: &SessionInfo,
    existing_messages: &[MessageInfo],
    user_message: &MessageInfo,
) -> (r: Vec<LlmChatMessage>)
    ensures
        r@.map_values(|m: LlmChatMessage| llm_view(m)) == chat_request(*character, *session, existing_messages@, *user_message),
{
    let mut messages: Vec<LlmChatMessage> = Vec::new();
    messages.push(
        LlmChatMessage { role: text::owned("system"), content: build_cli_system_prompt(character, session) },
    );
    let ghost first = seq![("system"@, cli_system_prompt(*character, *session))];
    assert(messages@.map_values(|m: LlmChatMessage| llm_view(m)) =~= first);
    let mut i: usize = 0;
    while i < existing_messages.len()
        invariant
            i <= existing_messages@.len(),
            messages@.map_values(|m: LlmChatMessage| llm_view(m)) == first + history_turns(
                existing_messages@.subrange(0, i as int),
            ),
        decreases existing_messages.len() - i,
    {
        proof {
            assert(existing_messages@.subrange(0, i + 1).drop_last() =~= existing_messages@.subrange(0, i as int));
        }
        let m = &existing_messages[i];
        if text::str_eq(m.role.as_str(), "user") || text::str_eq(m.role.as_str(), "assistant") {
            let ghost before = messages@.map_values(|m: LlmChatMessage| llm_view(m));
            messages.push(LlmChatMessage { role: m.role.clone(), content: m.content.clone() });
            assert(messages@.map_values(|m: LlmChatMessage| llm_view(m)) =~= before.push((m.role@, m.content@)));
        }
        i = i + 1;
    }
    proof {
        assert(existing_messages@.subrange(0, i as int) =~= existing_messages@);
    }
    let ghost before = messages@.map_values(|m: LlmChatMessage| llm_view(m));
    messages.push(LlmChatMessage { role: user_message.role.clone(), content: user_message.content.clone() });
    assert(messages@.map_values(|m: LlmChatMessage| llm_view(m)) =~= before.push(
        (user_message.role@, user_message.content@),
    ));
    messages
}

/// The coaching instructions.
pub const COACH_SYSTEM_PROMPT: &'static str = "You are SpeakMate's speaking coach. Produce a concise Markdown coaching report for the learner. Focus on practical speaking improvements, useful phrases, grammar or pronunciation risks visible from the transcript, and a short next-practice plan. Use Chinese unless the learner clearly used another language.";

/// The most transcript characters sent for coaching.
pub const COACH_TRANSCRIPT_CHARS: usize = 12000;

/// What the coach is told about a session: its title, character, mode,
/// scenario and message counts, then the transcript (cut to 12000
/// characters).
pub open spec fn coaching_prompt(session: SessionInfo, summary: SessionExportSummary, transcript_md: Seq<char>) -> Seq<char> {
    let title = match session.title {
        Some(t) => t@,
        None => "Untitled"@,
    };
    let character = match session.character_name {
        Some(n) => n@,
        None => session.character_id@,
    };
    let mode = match session.mode_name {
        Some(m) => m@,
        None => "Free Talk"@,
    };
    let scenario = match session.scenario_name {
        Some(n) => n@,
        None => "none"@,
    };
    "Session title: "@ + title + "\nCharacter: "@ + character + " ("@ + session.character_id@ + ")\nPractice mode: "@
        + mode + "\nScenario: "@ + scenario + "\nMessages: "@ + text::dec(summary.message_count as nat) + " total, "@
        + text::dec(summary.user_message_count as nat) + " user, "@ + text::dec(
        summary.assistant_message_count as nat,
    ) + " assistant.\n\nTranscript:\n"@ + truncated(transcript_md, COACH_TRANSCRIPT_CHARS as nat)
}

/// The messages of a coaching request: the coaching instructions, then what
/// the coach is told about the session.
pub fn coaching_messages(session: &SessionInfo, summary: &SessionExportSummary, transcript_markdown: &str) -> (r: Vec<
    LlmChatMessage,
>)
    ensures
        r@.map_values(|m: LlmChatMessage| llm_view(m)) == seq![
            ("system"@, COACH_SYSTEM_PROMPT@),
            ("user"@, coaching_prompt(*session, *summary, transcript_markdown@)),
        ],
{
    let mut u = text::owned("Session title: ");
    u.append(str_or(&session.title, "Untitled"));
    u.append("\nCharacter: ");
    u.append(
        match &session.character_name {
            Some(n) => n.as_str(),
            None => session.character_id.as_str(),
        },
    );
    u.append(" (");
    u.append(session.character_id.as_str());
    u.append(")\nPractice mode: ");
    u.append(str_or(&session.mode_name, "Free Talk"));
    u.append("\nScenario: ");
    u.append(str_or(&session.scenario_name, "none"));
    u.append("\nMessages: ");
    text::push_dec(&mut u, summary.message_count as u64);
    u.append(" total, ");
    text::push_dec(&mut u, summary.user_message_count as u64);
    u.append(" user, ");
    text::push_dec(&mut u, summary.assistant_message_count as u64);
    u.append(" assistant.\n\nTranscript:\n");
    let t = truncate_prompt_text(transcript_markdown, COACH_TRANSCRIPT_CHARS);
    u.append(t.as_str());
    let mut v: Vec<LlmChatMessage> = Vec::new();
    v.push(LlmChatMessage { role: text::owned("system"), content: text::owned(COACH_SYSTEM_PROMPT) });
    v.push(LlmChatMessage { role: text::owned("user"), content: u });
    assert(v@.map_values(|m: LlmChatMessage| llm_view(m)) =~= seq![
        ("system"@, COACH_SYSTEM_PROMPT@),
        ("user"@, coaching_prompt(*session, *summary, transcript_markdown@)),
    ]);
    v
}

// ───────────────────────── overrides and keys ─────────────────────────

/// A present, non-blank override, trimmed.
pub open spec fn override_value(o: Option<Seq<char>>) -> Option<Seq<char>> {
    match o {
        Some(v) => if text::trim(v).len() > 0 {
            Some(text::trim(v))
        } else {
            None
        },
        None => None,
    }
}

fn override_of(o: Option<&str>) -> (r: Option<&str>)
    ensures
        match r {
            Some(v) => override_value(crate::services::orchestrator::opt_str(o)) == Some(v@),
            None => override_value(crate::services::orchestrator::opt_str(o)) is None,
        },
{
    match o {
        Some(v) => {
            let t = text::trim_str(v);
            if t.unicode_len() > 0 {
                Some(t)
            } else {
                None
            }
        },
        None => None,
    }
}

/// The profile after the send-message overrides: a base URL override
/// replaces the URL and the provider it implies; a provider override is
/// normalized against the (new) URL; a model override replaces the model;
/// the capabilities follow the resulting provider. Each override in effect
/// adds a warning.
pub fn apply_send_message_env_overrides(
    profile: &mut ProfileInfo,
    warnings: &mut Vec<String>,
    base_url_var: Option<&str>,
    provider_var: Option<&str>,
    model_var: Option<&str>,
)
    ensures
        ({
            let b = override_value(crate::services::orchestrator::opt_str(base_url_var));
            let p = override_value(crate::services::orchestrator::opt_str(provider_var));
            let m = override_value(crate::services::orchestrator::opt_str(model_var));
            let url = match b {
                Some(u) => u,
                None => old(profile).base_url@,
            };
            let provider = match p {
                Some(x) => normalized_provider(x, url),
                None => match b {
                    Some(u) => inferred_provider(u),
                    None => old(profile).provider@,
                },
            };
            &&& final(profile).base_url@ == url
            &&& final(profile).provider@ == provider
            &&& final(profile).model@ == match m {
                Some(x) => x,
                None => old(profile).model@,
            }
            &&& final(profile).requires_api_key == (provider == "openai"@)
            &&& final(profile).supports_stt == (provider != "ollama"@)
            &&& final(profile).id == old(profile).id
            &&& final(profile).name == old(profile).name
            &&& final(profile).is_default == old(profile).is_default
            &&& final(profile).keychain_status == old(profile).keychain_status
            &&& crate::cli::strs_view(final(warnings)@) == crate::cli::strs_view(old(warnings)@) + (if b is Some {
                seq!["SPEAKMATE_CLI_SEND_BASE_URL override is active."@]
            } else {
                Seq::<Seq<char>>::empty()
            }) + (if p is Some {
                seq!["SPEAKMATE_CLI_SEND_PROVIDER override is active."@]
            } else {
                Seq::<Seq<char>>::empty()
            }) + (if m is Some {
                seq!["SPEAKMATE_CLI_SEND_MODEL override is active."@]
            } else {
                Seq::<Seq<char>>::empty()
            })
        }),
{
    let ghost w0 = crate::cli::strs_view(warnings@);
    if let Some(u) = override_of(base_url_var) {
        profile.base_url = text::owned(u);
        profile.provider = infer_provider(profile.base_url.as_str());
        warnings.push(text::owned("SPEAKMATE_CLI_SEND_BASE_URL override is active."));
    }
    let ghost w1 = crate::cli::strs_view(warnings@);
    if let Some(p) = override_of(provider_var) {
        profile.provider = normalize_provider(p, profile.base_url.as_str());
        warnings.push(text::owned("SPEAKMATE_CLI_SEND_PROVIDER override is active."));
    }
    let ghost w2 = crate::cli::strs_view(warnings@);
    if let Some(m) = override_of(model_var) {
        profile.model = text::owned(m);
        warnings.push(text::owned("SPEAKMATE_CLI_SEND_MODEL override is active."));
    }
    let required = requires_api_key(profile.provider.as_str());
    let stt = supports_stt(profile.provider.as_str());
    profile.requires_api_key = required;
    profile.supports_stt = stt;
    proof {
        let b = override_value(crate::services::orchestrator::opt_str(base_url_var));
        let p = override_value(crate::services::orchestrator::opt_str(provider_var));
        let m = override_value(crate::services::orchestrator::opt_str(model_var));
        let e = Seq::<Seq<char>>::empty();
        assert(w1 =~= w0 + (if b is Some {
            seq!["SPEAKMATE_CLI_SEND_BASE_URL override is active."@]
        } else {
            e
        }));
        assert(w2 =~= w1 + (if p is Some {
            seq!["SPEAKMATE_CLI_SEND_PROVIDER override is active."@]
        } else {
            e
        }));
        assert(crate::cli::strs_view(warnings@) =~= w2 + (if m is Some {
            seq!["SPEAKMATE_CLI_SEND_MODEL override is active."@]
        } else {
            e
        }));
    }
}

/// Where the CLI found a key: the environment override first, then the
/// profile's legacy keychain entry, then (for the default profile) the
/// legacy global entry; a profile that needs a key fails without one, any
/// other gets an empty key.
pub open spec fn cli_key_outcome(
    profile_id: Seq<char>,
    requires_key: bool,
    env_key: Option<Seq<char>>,
    profile_entry: state::KeyLookup,
    global_entry: state::KeyLookup,
) -> Result<Seq<char>, Seq<char>> {
    match env_key {
        Some(k) => Ok(k),
        None => match profile_entry {
            state::KeyLookup::Found(k) => Ok(k@),
            _ => if profile_id == "default"@ && global_entry is Found {
                Ok(global_entry->Found_0@)
            } else if requires_key {
                Err("Active profile '"@ + profile_id + "' requires an API key, but no keychain entry was found."@)
            } else {
                Ok(Seq::<char>::empty())
            },
        },
    }
}

/// Decides the CLI's key from the environment override and the keychain
/// lookups.
pub fn choose_cli_key(
    profile: &ProfileInfo,
    env_key: Option<String>,
    profile_entry: state::KeyLookup,
    global_entry: state::KeyLookup,
) -> (r: Result<String, String>)
    ensures
        match cli_key_outcome(profile.id@, profile.requires_api_key, opt_view(env_key), profile_entry, global_entry) {
            Ok(k) => r is Ok && r->Ok_0@ == k,
            Err(m) => r is Err && r->Err_0@ == m,
        },
{
    if let Some(k) = env_key {
        return Ok(k);
    }
    if let state::KeyLookup::Found(k) = profile_entry {
        return Ok(k);
    }
    let is_default = text::str_eq(profile.id.as_str(), "default");
    if is_default {
        if let state::KeyLookup::Found(k) = global_entry {
            return Ok(k);
        }
    }
    if profile.requires_api_key {
        let mut m = prefixed("Active profile '", profile.id.as_str());
        m.append("' requires an API key, but no keychain entry was found.");
        Err(m)
    } else {
        Ok(String::new())
    }
}

/// The API key the CLI sends with a request: the environment override when
/// set (`env_key`), else what the keychain holds for the profile, looked up
/// as `choose_cli_key` says. What the keychain holds is up to the machine.
pub fn get_api_key_for_profile(profile: &ProfileInfo, env_key: Option<String>) -> (r: Result<String, String>)
    ensures
        exists|a: state::KeyLookup, b: state::KeyLookup|
            #[trigger] cli_key_matches(r, profile.id@, profile.requires_api_key, opt_view(env_key), a, b),
{
    let ghost env = opt_view(env_key);
    if env_key.is_some() {
        let r = choose_cli_key(profile, env_key, state::KeyLookup::Missing, state::KeyLookup::Missing);
        proof {
            assert(cli_key_matches(r, profile.id@, profile.requires_api_key, env, state::KeyLookup::Missing, state::KeyLookup::Missing));
        }
        return r;
    }
    let user = state::key_user_for(profile.id.as_str());
    let first = state::lookup_key("speakmate", user.as_str());
    let second = if matches!(first, state::KeyLookup::Found(_)) || !text::str_eq(profile.id.as_str(), "default") {
        state::KeyLookup::Missing
    } else {
        state::lookup_key("speakmate", "api-key")
    };
    let ghost a = first;
    let ghost b = second;
    let r = choose_cli_key(profile, env_key, first, second);
    proof {
        assert(cli_key_matches(r, profile.id@, profile.requires_api_key, env, a, b));
    }
    r
}

/// Whether `r` is the key `cli_key_outcome` gives.
pub open spec fn cli_key_matches(
    r: Result<String, String>,
    profile_id: Seq<char>,
    requires_key: bool,
    env_key: Option<Seq<char>>,
    profile_entry: state::KeyLookup,
    global_entry: state::KeyLookup,
) -> bool {
    match cli_key_outcome(profile_id, requires_key, env_key, profile_entry, global_entry) {
        Ok(k) => r is Ok && r->Ok_0@ == k,
        Err(m) => r is Err && r->Err_0@ == m,
    }
}

// ───────────────────────── the database ─────────────────────────

/// A candidate location.
pub fn make_candidate(source: &str, path: String, exists: bool) -> (r: DbCandidate)
    ensures
        r.source@ == source@,
        r.path@ == path@,
        r.exists == exists,
{
    DbCandidate { source: text::owned(source), path, exists }
}

/// The database files that may sit under the local application data
/// directory, newest first: each as its application directory and file name.
pub open spec fn app_database_files() -> Seq<(Seq<char>, Seq<char>)> {
    seq![
        ("com.voxverse.desktop"@, "voxverse.db"@),
        ("com.voxverse.app"@, "voxverse.db"@),
        ("com.ai-speaking.desktop"@, "voxverse.db"@),
        ("com.ai-speaking.desktop"@, "speakmate.db"@),
        ("com.ai-speaking.app"@, "speakmate.db"@),
        ("SpeakMate"@, "speakmate.db"@),
    ]
}

/// A location named by a setting, when the setting is given.
pub open spec fn given_location(source: Seq<char>, value: Option<Seq<char>>) -> Seq<(Seq<char>, Seq<char>)> {
    match value {
        Some(p) => seq![(source, p)],
        None => Seq::empty(),
    }
}

/// Where a database may be, in the order it is looked for: the `--db`
/// override, the `VOXVERSE_DB` setting and the legacy `SPEAKMATE_DB`
/// setting (each when given); then, under the local application data
/// directory, each file of `app_database_files`, listed under its
/// application directory.
pub open spec fn database_location_list(
    db_override: Option<Seq<char>>,
    voxverse_db: Option<Seq<char>>,
    speakmate_db: Option<Seq<char>>,
    local_app_data: Option<Seq<char>>,
) -> Seq<(Seq<char>, Seq<char>)> {
    let local = match local_app_data {
        Some(d) => app_database_files().map_values(
            |f: (Seq<char>, Seq<char>)| (f.0, joined_path(joined_path(d, f.0), f.1)),
        ),
        None => Seq::empty(),
    };
    given_location("--db"@, db_override) + given_location("VOXVERSE_DB"@, voxverse_db) + given_location(
        "SPEAKMATE_DB"@,
        speakmate_db,
    ) + local
}

fn app_database(local_app_data: &str, id: &str, file: &str) -> (r: (String, String))
    ensures
        r.0@ == id@,
        r.1@ == joined_path(joined_path(local_app_data@, id@), file@),
{
    let dir = path_join(local_app_data, id);
    (text::owned(id), path_join(dir.as_str(), file))
}

fn push_given(out: &mut Vec<(String, String)>, source: &str, value: Option<&str>)
    ensures
        final(out)@.map_values(|c: (String, String)| (c.0@, c.1@)) == old(out)@.map_values(
            |c: (String, String)| (c.0@, c.1@),
        ) + given_location(
            source@,
            match value {
                Some(p) => Some(p@),
                None => None,
            },
        ),
{
    let ghost before = out@;
    match value {
        Some(p) => {
            out.push((text::owned(source), text::owned(p)));
            assert(out@.map_values(|c: (String, String)| (c.0@, c.1@)) =~= before.map_values(
                |c: (String, String)| (c.0@, c.1@),
            ) + seq![(source@, p@)]);
        },
        None => {
            assert(out@.map_values(|c: (String, String)| (c.0@, c.1@)) =~= before.map_values(
                |c: (String, String)| (c.0@, c.1@),
            ));
        },
    }
}

pub open spec fn opt_text(o: Option<&str>) -> Option<Seq<char>> {
    match o {
        Some(p) => Some(p@),
        None => None,
    }
}

/// The places to look for the database, as (source, path) pairs in the order
/// of `database_location_list`.
pub fn database_locations(
    db_override: Option<&str>,
    voxverse_db: Option<&str>,
    speakmate_db: Option<&str>,
    local_app_data: Option<&str>,
) -> (r: Vec<(String, String)>)
    ensures
        r@.map_values(|c: (String, String)| (c.0@, c.1@)) == database_location_list(
            opt_text(db_override),
            opt_text(voxverse_db),
            opt_text(speakmate_db),
            opt_text(local_app_data),
        ),
{
    let mut out: Vec<(String, String)> = Vec::new();
    proof {
        assert(out@.map_values(|c: (String, String)| (c.0@, c.1@)) =~= Seq::<(Seq<char>, Seq<char>)>::empty());
    }
    push_given(&mut out, "--db", db_override);
    push_given(&mut out, "VOXVERSE_DB", voxverse_db);
    push_given(&mut out, "SPEAKMATE_DB", speakmate_db);
    let ghost given = out@.map_values(|c: (String, String)| (c.0@, c.1@));
    match local_app_data {
        Some(d) => {
            out.push(app_database(d, "com.voxverse.desktop", "voxverse.db"));
            out.push(app_database(d, "com.voxverse.app", "voxverse.db"));
            out.push(app_database(d, "com.ai-speaking.desktop", "voxverse.db"));
            out.push(app_database(d, "com.ai-speaking.desktop", "speakmate.db"));
            out.push(app_database(d, "com.ai-speaking.app", "speakmate.db"));
            out.push(app_database(d, "SpeakMate", "speakmate.db"));
        },
        None => {},
    }
    proof {
        reveal_strlit("--db");
        reveal_strlit("VOXVERSE_DB");
        reveal_strlit("SPEAKMATE_DB");
        reveal_strlit("com.voxverse.desktop");
        reveal_strlit("com.voxverse.app");
        reveal_strlit("com.ai-speaking.desktop");
        reveal_strlit("com.ai-speaking.app");
        reveal_strlit("SpeakMate");
        reveal_strlit("voxverse.db");
        reveal_strlit("speakmate.db");
        assert(out@.map_values(|c: (String, String)| (c.0@, c.1@)) =~= database_location_list(
            opt_text(db_override),
            opt_text(voxverse_db),
            opt_text(speakmate_db),
            opt_text(local_app_data),
        ));
    }
    out
}

/// The candidate a report reads: the first that exists, else the first.
pub open spec fn chosen_candidate(candidates: Seq<DbCandidate>) -> Option<int> {
    if exists|i: int| 0 <= i < candidates.len() && candidates[i].exists {
        Some(choose|i: int| 0 <= i < candidates.len() && candidates[i].exists && forall|j: int| 0 <= j < i ==> !candidates[j].exists)
    } else if candidates.len() > 0 {
        Some(0)
    } else {
        None
    }
}

/// The database information for the candidates, in the order they are
/// tried (`--db` or `SPEAKMATE_DB`, then the application directories).
pub fn select_database(candidates: Vec<DbCandidate>) -> (r: DbInfo)
    ensures
        r.candidates@ == candidates@,
        match chosen_candidate(candidates@) {
            Some(i) => opt_view(r.path) == Some(candidates@[i].path@) && opt_view(r.source) == Some(
                candidates@[i].source@,
            ) && r.exists == candidates@[i].exists,
            None => r.path is None && r.source is None && !r.exists,
        },
{
    let mut i: usize = 0;
    let mut found: Option<usize> = None;
    while i < candidates.len()
        invariant
            i <= candidates@.len(),
            found matches Some(k) ==> k < candidates@.len() && candidates@[k as int].exists && forall|j: int|
                0 <= j < k ==> !candidates@[j].exists,
            found is None ==> forall|j: int| 0 <= j < i ==> !candidates@[j].exists,
        decreases candidates.len() - i,
    {
        if found.is_none() && candidates[i].exists {
            found = Some(i);
        }
        i = i + 1;
    }
    let chosen: Option<usize> = match found {
        Some(k) => {
            proof {
                let c = candidates@;
                let m = choose|m: int| 0 <= m < c.len() && c[m].exists && forall|j: int| 0 <= j < m ==> !c[j].exists;
                if m < k {
                    assert(!c[m].exists);
                }
                if m > k {
                    assert(!c[k as int].exists);
                }
            }
            Some(k)
        },
        None => if candidates.len() > 0 {
            Some(0)
        } else {
            None
        },
    };
    match chosen {
        Some(k) => {
            let path = candidates[k].path.clone();
            let source = candidates[k].source.clone();
            let exists = candidates[k].exists;
            DbInfo { path: Some(path), source: Some(source), exists, candidates }
        },
        None => DbInfo { path: None, source: None, exists: false, candidates },
    }
}

/// The path of the chosen database, when it exists.
pub fn selected_existing_path(db: &DbInfo) -> (r: Option<&str>)
    ensures
        match r {
            Some(p) => db.exists && opt_view(db.path) == Some(p@),
            None => !db.exists || db.path is None,
        },
{
    if !db.exists {
        return None;
    }
    match &db.path {
        Some(p) => Some(p.as_str()),
        None => None,
    }
}

/// The message for a report that needs a database and has none.
pub open spec fn no_database_message() -> Seq<char> {
    "No SpeakMate database was found. Start the app once or pass --db."@
}

/// The existing database a write needs.
pub fn require_database(db: &DbInfo) -> (r: Result<&str, String>)
    ensures
        match r {
            Ok(p) => db.exists && opt_view(db.path) == Some(p@),
            Err(m) => (!db.exists || db.path is None) && m@ == no_database_message(),
        },
{
    match selected_existing_path(db) {
        Some(p) => Ok(p),
        None => Err(text::owned("No SpeakMate database was found. Start the app once or pass --db.")),
    }
}

/// The directory a path is in (`Path::parent`), when it has one.
pub uninterp spec fn parent_dir(path: Seq<char>) -> Option<Seq<char>>;

/// A file name placed in a directory (`Path::join`).
pub uninterp spec fn joined_path(dir: Seq<char>, name: Seq<char>) -> Seq<char>;

/// `std::path::Path::parent`, read back as text: the result is
/// `parent_dir` of the path.
#[verifier::external_body]
fn path_parent(path: &str) -> (r: Option<String>)
    ensures
        opt_view(r) == parent_dir(path@),
{
    match std::path::Path::new(path).parent() {
        Some(p) => Some(p.display().to_string()),
        None => None,
    }
}

/// `std::path::Path::join`, read back as text: the result is `joined_path`
/// of the directory and the name.
#[verifier::external_body]
fn path_join(dir: &str, name: &str) -> (r: String)
    ensures
        r@ == joined_path(dir@, name@),
{
    std::path::Path::new(dir).join(name).display().to_string()
}

/// The audit log beside the chosen database.
pub open spec fn audit_log_path(db_path: Option<Seq<char>>) -> Option<Seq<char>> {
    match db_path {
        Some(p) => match parent_dir(p) {
            Some(d) => Some(joined_path(d, "voxverse-audit.jsonl"@)),
            None => None,
        },
        None => None,
    }
}

pub fn resolve_audit_log_path(db: &DbInfo) -> (r: Option<String>)
    ensures
        opt_view(r) == audit_log_path(opt_view(db.path)),
{
    let p = match &db.path {
        Some(p) => p,
        None => return None,
    };
    match path_parent(p.as_str()) {
        Some(d) => Some(path_join(d.as_str(), "voxverse-audit.jsonl")),
        None => None,
    }
}

/// The legacy audit log beside the chosen database, still read for older
/// data.
pub open spec fn legacy_audit_log_path(db_path: Option<Seq<char>>) -> Option<Seq<char>> {
    match db_path {
        Some(p) => match parent_dir(p) {
            Some(d) => Some(joined_path(d, "speakmate-audit.jsonl"@)),
            None => None,
        },
        None => None,
    }
}

/// The current and the legacy audit log beside the chosen database.
pub fn resolve_audit_log_paths(db: &DbInfo) -> (r: Option<(String, String)>)
    ensures
        match r {
            Some((current, legacy)) => audit_log_path(opt_view(db.path)) == Some(current@)
                && legacy_audit_log_path(opt_view(db.path)) == Some(legacy@),
            None => audit_log_path(opt_view(db.path)) is None && legacy_audit_log_path(opt_view(db.path)) is None,
        },
{
    let p = match &db.path {
        Some(p) => p,
        None => return None,
    };
    match path_parent(p.as_str()) {
        Some(d) => Some((path_join(d.as_str(), "voxverse-audit.jsonl"), path_join(d.as_str(), "speakmate-audit.jsonl"))),
        None => None,
    }
}

/// The audit log a listing reads, and whether it exists: the current log
/// when it exists, else the legacy log when that exists, else the current
/// log (which does not exist yet).
pub fn audit_log_to_read(current: String, current_exists: bool, legacy: String, legacy_exists: bool) -> (r: (
    String,
    bool,
))
    ensures
        current_exists ==> r.0@ == current@ && r.1,
        !current_exists && legacy_exists ==> r.0@ == legacy@ && r.1,
        !current_exists && !legacy_exists ==> r.0@ == current@ && !r.1,
{
    if current_exists {
        (current, true)
    } else if legacy_exists {
        (legacy, true)
    } else {
        (current, false)
    }
}

// ───────────────────────── write and network gates ─────────────────────────

/// The CLI operations that write to the database or reach the network.
#[derive(Debug, Clone, Copy, PartialEq, Eq, Structural)]
pub enum CliOperation {
    SwitchProfile,
    StartSession,
    AppendMessage,
    SendMessage,
    RetryLastMessage,
    CoachReport,
}

/// Why an operation is refused: writes need `--yes`, network calls
/// `--allow-network`; a read needs no `--yes`.
pub open spec fn gate_refusal(op: CliOperation, yes: bool, allow_network: bool) -> Option<Seq<char>> {
    match op {
        CliOperation::SwitchProfile => if !yes {
            Some("config profiles switch is a write operation and requires --yes."@)
        } else {
            None
        },
        CliOperation::StartSession => if !yes {
            Some("session start is a write operation and requires --yes."@)
        } else {
            None
        },
        CliOperation::AppendMessage => if !yes {
            Some("session append-message is a write operation and requires --yes."@)
        } else {
            None
        },
        CliOperation::SendMessage => if !yes {
            Some("session send-message is a write and network operation and requires --yes."@)
        } else if !allow_network {
            Some("session send-message requires --allow-network."@)
        } else {
            None
        },
        CliOperation::RetryLastMessage => if !yes {
            Some("session retry-last is a write and network operation and requires --yes."@)
        } else if !allow_network {
            Some("session retry-last requires --allow-network."@)
        } else {
            None
        },
        CliOperation::CoachReport => if !allow_network {
            Some("session coach-report requires --allow-network."@)
        } else {
            None
        },
    }
}

pub fn check_cli_gate(op: CliOperation, yes: bool, allow_network: bool) -> (r: Result<(), String>)
    ensures
        match gate_refusal(op, yes, allow_network) {
            Some(m) => r is Err && r->Err_0@ == m,
            None => r is Ok,
        },
{
    let refusal: Option<&str> = match op {
        CliOperation::SwitchProfile => if !yes {
            Some("config profiles switch is a write operation and requires --yes.")
        } else {
            None
        },
        CliOperation::StartSession => if !yes {
            Some("session start is a write operation and requires --yes.")
        } else {
            None
        },
        CliOperation::AppendMessage => if !yes {
            Some("session append-message is a write operation and requires --yes.")
        } else {
            None
        },
        CliOperation::SendMessage => if !yes {
            Some("session send-message is a write and network operation and requires --yes.")
        } else if !allow_network {
            Some("session send-message requires --allow-network.")
        } else {
            None
        },
        CliOperation::RetryLastMessage => if !yes {
            Some("session retry-last is a write and network operation and requires --yes.")
        } else if !allow_network {
            Some("session retry-last requires --allow-network.")
        } else {
            None
        },
        CliOperation::CoachReport => if !allow_network {
            Some("session coach-report requires --allow-network.")
        } else {
            None
        },
    };
    match refusal {
        Some(m) => Err(text::owned(m)),
        None => Ok(()),
    }
}

/// Every write is refused without `--yes`, and every operation that calls
/// the model is refused without `--allow-network`.
pub proof fn lemma_gates_guard_writes_and_network(op: CliOperation, yes: bool, allow_network: bool)
    ensures
        op != CliOperation::CoachReport && !yes ==> gate_refusal(op, yes, allow_network) is Some,
        (op == CliOperation::SendMessage || op == CliOperation::RetryLastMessage || op == CliOperation::CoachReport)
            && !allow_network ==> gate_refusal(op, yes, allow_network) is Some,
        yes && allow_network ==> gate_refusal(op, yes, allow_network) is None,
{
}

// ───────────────────────── retrying and switching ─────────────────────────

/// Which message a retry answers: the last one, which must be the user's.
pub open spec fn retry_verdict(messages: Seq<MessageInfo>, session_id: Seq<char>) -> Result<int, Seq<char>> {
    if messages.len() == 0 {
        Err("Session '"@ + session_id + "' has no messages to retry. Append or send a user message first."@)
    } else if messages.last().role@ != "user"@ {
        Err(
            "Session '"@ + session_id + "' cannot be retried because the last message role is '"@
                + messages.last().role@ + "', not 'user'."@,
        )
    } else {
        Ok(messages.len() - 1)
    }
}

pub fn retry_target(messages: &[MessageInfo], session_id: &str) -> (r: Result<usize, String>)
    ensures
        match retry_verdict(messages@, session_id@) {
            Ok(i) => r is Ok && r->Ok_0 == i,
            Err(m) => r is Err && r->Err_0@ == m,
        },
{
    if messages.len() == 0 {
        let mut m = prefixed("Session '", session_id);
        m.append("' has no messages to retry. Append or send a user message first.");
        return Err(m);
    }
    let last = messages.len() - 1;
    if !text::str_eq(messages[last].role.as_str(), "user") {
        let mut m = prefixed("Session '", session_id);
        m.append("' cannot be retried because the last message role is '");
        m.append(messages[last].role.as_str());
        m.append("', not 'user'.");
        return Err(m);
    }
    Ok(last)
}

/// The active profile a status report shows: the default one, else the
/// first.
pub open spec fn active_profile_index(profiles: Seq<ProfileInfo>) -> Option<int> {
    if exists|i: int| 0 <= i < profiles.len() && profiles[i].is_default {
        Some(choose|i: int| 0 <= i < profiles.len() && profiles[i].is_default && forall|j: int| 0 <= j < i ==> !profiles[j].is_default)
    } else if profiles.len() > 0 {
        Some(0)
    } else {
        None
    }
}

pub fn active_profile_position(profiles: &[ProfileInfo]) -> (r: Option<usize>)
    ensures
        match active_profile_index(profiles@) {
            Some(i) => r == Some(i as usize),
            None => r is None,
        },
{
    let mut i: usize = 0;
    while i < profiles.len()
        invariant
            i <= profiles@.len(),
            forall|j: int| 0 <= j < i ==> !profiles@[j].is_default,
        decreases profiles.len() - i,
    {
        if profiles[i].is_default {
            proof {
                let c = profiles@;
                let m = choose|m: int| 0 <= m < c.len() && c[m].is_default && forall|j: int| 0 <= j < m ==> !c[j].is_default;
                if m < i {
                    assert(!c[m].is_default);
                }
                if m > i {
                    assert(!c[i as int].is_default);
                }
            }
            return Some(i);
        }
        i = i + 1;
    }
    if profiles.len() > 0 {
        Some(0)
    } else {
        None
    }
}

/// How a profile switch is carried out.
#[derive(Debug, Clone, Copy, PartialEq, Eq, Structural)]
pub enum SwitchPath {
    /// Through the provider profile table.
    ProviderProfiles,
    /// Through the legacy settings, for the `default` profile only.
    LegacyDefault,
}

/// A database with provider profiles switches through them; an older one
/// can only select its single legacy `default` profile.
pub fn switch_path(profile_id: &str, has_provider_profiles: bool, has_app_config: bool) -> (r: Result<SwitchPath, String>)
    ensures
        has_provider_profiles ==> r == Ok::<SwitchPath, String>(SwitchPath::ProviderProfiles),
        !has_provider_profiles && profile_id@ == "default"@ && has_app_config ==> r == Ok::<SwitchPath, String>(
            SwitchPath::LegacyDefault,
        ),
        !has_provider_profiles && !(profile_id@ == "default"@ && has_app_config) ==> r is Err && r->Err_0@
            == "provider_profiles table is missing; only legacy profile 'default' can be selected."@,
{
    if has_provider_profiles {
        Ok(SwitchPath::ProviderProfiles)
    } else if text::str_eq(profile_id, "default") && has_app_config {
        Ok(SwitchPath::LegacyDefault)
    } else {
        Err(text::owned("provider_profiles table is missing; only legacy profile 'default' can be selected."))
    }
}

/// Whether a switch changed the active profile: it did unless the profile
/// was already the active one.
pub fn switch_changed(previous: Option<&ProfileInfo>, active: &ProfileInfo) -> (r: bool)
    ensures
        r == match previous {
            Some(p) => p.id@ != active.id@,
            None => true,
        },
{
    match previous {
        Some(p) => !text::str_eq(p.id.as_str(), active.id.as_str()),
        None => true,
    }
}

/// The audit record of a profile switch.
pub fn profile_switch_event(
    timestamp: String,
    actor: &str,
    db_path: Option<String>,
    previous: Option<&ProfileInfo>,
    active: &ProfileInfo,
) -> (r: crate::cli::audit::AuditEvent)
    ensures
        r.timestamp@ == timestamp@,
        r.operation@ == "config.profiles.switch"@,
        r.actor@ == actor@,
        opt_view(r.db_path) == opt_view(db_path),
        opt_view(r.target_profile_id) == Some(active.id@),
        r.target_session_id is None,
        r.target_message_id is None,
        r.target_character_id is None,
        opt_view(r.previous_profile_id) == match previous {
            Some(p) => Some(p.id@),
            None => None,
        },
        r.result@ == "success"@,
        r.details@ == if match previous {
            Some(p) => p.id@ != active.id@,
            None => true,
        } {
            "Active provider profile changed."@
        } else {
            "Requested profile was already active."@
        },
{
    let changed = switch_changed(previous, active);
    crate::cli::audit::AuditEvent {
        timestamp,
        operation: text::owned("config.profiles.switch"),
        actor: text::owned(actor),
        db_path,
        target_profile_id: Some(active.id.clone()),
        target_session_id: None,
        target_message_id: None,
        target_character_id: None,
        previous_profile_id: match previous {
            Some(p) => Some(p.id.clone()),
            None => None,
        },
        result: text::owned("success"),
        details: if changed {
            text::owned("Active provider profile changed.")
        } else {
            text::owned("Requested profile was already active.")
        },
    }
}

/// A run that calls the model: sending a new user message, or retrying the
/// last one.
#[derive(Debug, Clone, Copy, PartialEq, Eq, Structural)]
pub enum ModelRun {
    Send,
    Retry,
}

/// The audit operation of a model run.
pub open spec fn run_operation(run: ModelRun) -> Seq<char> {
    match run {
        ModelRun::Send => "practice.message.send"@,
        ModelRun::Retry => "practice.message.retry_last"@,
    }
}

/// What the audit record of a successful model run says.
pub open spec fn run_success_details(run: ModelRun) -> Seq<char> {
    match run {
        ModelRun::Send => "User message sent to model and assistant response appended."@,
        ModelRun::Retry => "Last user message retried and assistant response appended."@,
    }
}

/// How the audit record of a failed model run begins, before the error.
pub open spec fn run_failure_prefix(run: ModelRun) -> Seq<char> {
    match run {
        ModelRun::Send => "Model call failed after user message append: "@,
        ModelRun::Retry => "Model retry failed for last user message: "@,
    }
}

/// Whether `e` records a model run of the profile in the session by the
/// actor, with the given target message and character, result and details.
pub open spec fn run_event(
    e: crate::cli::audit::AuditEvent,
    run: ModelRun,
    timestamp: Seq<char>,
    actor: Seq<char>,
    db_path: Option<Seq<char>>,
    profile_id: Seq<char>,
    session_id: Seq<char>,
    message_id: Seq<char>,
    character_id: Option<Seq<char>>,
    result: Seq<char>,
    details: Seq<char>,
) -> bool {
    &&& e.timestamp@ == timestamp
    &&& e.operation@ == run_operation(run)
    &&& e.actor@ == actor
    &&& opt_view(e.db_path) == db_path
    &&& opt_view(e.target_profile_id) == Some(profile_id)
    &&& opt_view(e.target_session_id) == Some(session_id)
    &&& opt_view(e.target_message_id) == Some(message_id)
    &&& opt_view(e.target_character_id) == character_id
    &&& e.previous_profile_id is None
    &&& e.result@ == result
    &&& e.details@ == details
}

fn run_operation_text(run: ModelRun) -> (r: String)
    ensures
        r@ == run_operation(run),
{
    match run {
        ModelRun::Send => text::owned("practice.message.send"),
        ModelRun::Retry => text::owned("practice.message.retry_last"),
    }
}

/// The audit record of a model run that succeeded: it targets the active
/// profile, the session, the appended assistant message and the session's
/// character (when the session could be read back).
pub fn model_run_succeeded_event(
    run: ModelRun,
    timestamp: String,
    actor: &str,
    db_path: Option<String>,
    profile_id: &str,
    session_id: &str,
    assistant_message_id: &str,
    character_id: Option<String>,
) -> (r: crate::cli::audit::AuditEvent)
    ensures
        run_event(
            r,
            run,
            timestamp@,
            actor@,
            opt_view(db_path),
            profile_id@,
            session_id@,
            assistant_message_id@,
            opt_view(character_id),
            "success"@,
            run_success_details(run),
        ),
{
    crate::cli::audit::AuditEvent {
        timestamp,
        operation: run_operation_text(run),
        actor: text::owned(actor),
        db_path,
        target_profile_id: Some(text::owned(profile_id)),
        target_session_id: Some(text::owned(session_id)),
        target_message_id: Some(text::owned(assistant_message_id)),
        target_character_id: character_id,
        previous_profile_id: None,
        result: text::owned("success"),
        details: match run {
            ModelRun::Send => text::owned("User message sent to model and assistant response appended."),
            ModelRun::Retry => text::owned("Last user message retried and assistant response appended."),
        },
    }
}

/// The audit record of a model run that failed: it targets the active
/// profile, the session, the user message that was sent and the session's
/// character, and gives the error after the run's failure prefix.
pub fn model_run_failed_event(
    run: ModelRun,
    timestamp: String,
    actor: &str,
    db_path: Option<String>,
    profile_id: &str,
    session_id: &str,
    user_message_id: &str,
    character_id: &str,
    error: &str,
) -> (r: crate::cli::audit::AuditEvent)
    ensures
        run_event(
            r,
            run,
            timestamp@,
            actor@,
            opt_view(db_path),
            profile_id@,
            session_id@,
            user_message_id@,
            Some(character_id@),
            "failure"@,
            run_failure_prefix(run) + error@,
        ),
{
    let details = match run {
        ModelRun::Send => prefixed("Model call failed after user message append: ", error),
        ModelRun::Retry => prefixed("Model retry failed for last user message: ", error),
    };
    crate::cli::audit::AuditEvent {
        timestamp,
        operation: run_operation_text(run),
        actor: text::owned(actor),
        db_path,
        target_profile_id: Some(text::owned(profile_id)),
        target_session_id: Some(text::owned(session_id)),
        target_message_id: Some(text::owned(user_message_id)),
        target_character_id: Some(text::owned(character_id)),
        previous_profile_id: None,
        result: text::owned("failure"),
        details,
    }
}

// ───────────────────────── rows and new records ─────────────────────────

/// A stored provider profile as the CLI reports it: the provider name
/// normalized against the base URL, the capabilities it implies, and the
/// keychain left unread.
pub fn profile_from_row(
    id: String,
    name: String,
    provider_raw: &str,
    base_url: String,
    model: String,
    is_default: i64,
) -> (r: ProfileInfo)
    ensures
        r.id@ == id@,
        r.name@ == name@,
        r.provider@ == normalized_provider(provider_raw@, base_url@),
        r.base_url@ == base_url@,
        r.model@ == model@,
        r.is_default == (is_default == 1),
        r.requires_api_key == (normalized_provider(provider_raw@, base_url@) == "openai"@),
        r.supports_stt == (normalized_provider(provider_raw@, base_url@) != "ollama"@),
        r.keychain_status@ == "not_read"@,
{
    let provider = normalize_provider(provider_raw, base_url.as_str());
    let required = requires_api_key(provider.as_str());
    let stt = supports_stt(provider.as_str());
    ProfileInfo {
        id,
        name,
        provider,
        base_url,
        model,
        is_default: is_default == 1,
        requires_api_key: required,
        supports_stt: stt,
        keychain_status: text::owned("not_read"),
    }
}

/// A stored provider profile row, as the database holds it.
#[derive(Debug, Clone)]
pub struct ProfileRow {
    pub id: String,
    pub name: String,
    pub provider: String,
    pub base_url: String,
    pub model: String,
    pub is_default: i64,
}

/// How a stored row is listed: a function of the row alone (no keychain
/// state enters it), with the keychain reported as not read.
pub open spec fn listed_profile(p: ProfileInfo, row: ProfileRow) -> bool {
    &&& p.id@ == row.id@
    &&& p.name@ == row.name@
    &&& p.provider@ == normalized_provider(row.provider@, row.base_url@)
    &&& p.base_url@ == row.base_url@
    &&& p.model@ == row.model@
    &&& p.is_default == (row.is_default == 1)
    &&& p.requires_api_key == (normalized_provider(row.provider@, row.base_url@) == "openai"@)
    &&& p.supports_stt == (normalized_provider(row.provider@, row.base_url@) != "ollama"@)
    &&& p.keychain_status@ == "not_read"@
}

/// The profile listing of the stored rows, in their order. It reads no key:
/// each entry is `listed_profile` of its row, and says the keychain was not
/// read.
pub fn profiles_from_rows(rows: Vec<ProfileRow>) -> (r: Vec<ProfileInfo>)
    ensures
        r@.len() == rows@.len(),
        forall|i: int| 0 <= i < rows@.len() ==> #[trigger] listed_profile(r@[i], rows@[i]),
{
    let mut out: Vec<ProfileInfo> = Vec::new();
    let mut i: usize = 0;
    while i < rows.len()
        invariant
            i <= rows@.len(),
            out@.len() == i,
            forall|k: int| 0 <= k < i ==> #[trigger] listed_profile(out@[k], rows@[k]),
        decreases rows.len() - i,
    {
        let row = &rows[i];
        let p = profile_from_row(
            row.id.clone(),
            row.name.clone(),
            row.provider.as_str(),
            row.base_url.clone(),
            row.model.clone(),
            row.is_default,
        );
        out.push(p);
        i = i + 1;
    }
    out
}

/// Whether two listed profiles agree field for field, both reporting the
/// keychain as not read.
pub open spec fn same_listing(a: ProfileInfo, b: ProfileInfo) -> bool {
    &&& a.id@ == b.id@
    &&& a.name@ == b.name@
    &&& a.provider@ == b.provider@
    &&& a.base_url@ == b.base_url@
    &&& a.model@ == b.model@
    &&& a.is_default == b.is_default
    &&& a.requires_api_key == b.requires_api_key
    &&& a.supports_stt == b.supports_stt
    &&& a.keychain_status@ == "not_read"@
    &&& b.keychain_status@ == "not_read"@
}

/// Profile listing reads no keys: two listings of the same stored rows agree
/// field for field, whatever the keychain holds at either time, and every
/// entry reports the keychain as not read.
pub proof fn lemma_listing_reads_no_keys(first: Seq<ProfileInfo>, second: Seq<ProfileInfo>, rows: Seq<ProfileRow>)
    requires
        first.len() == rows.len(),
        second.len() == rows.len(),
        forall|i: int| 0 <= i < rows.len() ==> #[trigger] listed_profile(first[i], rows[i]),
        forall|i: int| 0 <= i < rows.len() ==> #[trigger] listed_profile(second[i], rows[i]),
    ensures
        forall|i: int| 0 <= i < rows.len() ==> #[trigger] same_listing(first[i], second[i]),
{
    assert forall|i: int| 0 <= i < rows.len() implies #[trigger] same_listing(first[i], second[i]) by {
        assert(listed_profile(first[i], rows[i]));
        assert(listed_profile(second[i], rows[i]));
    }
}

/// An optional argument trimmed, a blank one dropped.
pub open spec fn trimmed_arg(o: Option<Seq<char>>) -> Option<Seq<char>> {
    match o {
        Some(v) => if text::trim(v).len() > 0 {
            Some(text::trim(v))
        } else {
            None
        },
        None => None,
    }
}

fn trimmed_opt(o: Option<&str>) -> (r: Option<String>)
    ensures
        opt_view(r) == trimmed_arg(crate::services::orchestrator::opt_str(o)),
{
    match o {
        Some(v) => {
            let t = text::trim_str(v);
            if t.unicode_len() > 0 {
                Some(text::owned(t))
            } else {
                None
            }
        },
        None => None,
    }
}

/// The context a new practice session is created with.
#[derive(Debug, Clone)]
pub struct NewSessionFields {
    /// `sess-` and the creation time in milliseconds.
    pub id: String,
    pub title: Option<String>,
    pub mode_id: String,
    pub scenario_id: Option<String>,
}

/// Whether `f` is a new session's id and context, made at `created_millis`:
/// the id is `sess-` and the time; title and scenario trimmed (blank ones
/// dropped), the mode trimmed and Free Talk by default.
pub open spec fn session_fields_for(
    f: NewSessionFields,
    created_millis: i64,
    title: Option<&str>,
    mode_id: Option<&str>,
    scenario_id: Option<&str>,
) -> bool {
    &&& f.id@ == "sess-"@ + text::signed_dec(created_millis as int)
    &&& opt_view(f.title) == trimmed_arg(crate::services::orchestrator::opt_str(title))
    &&& f.mode_id@ == match trimmed_arg(crate::services::orchestrator::opt_str(mode_id)) {
        Some(m) => m,
        None => "free_talk"@,
    }
    &&& opt_view(f.scenario_id) == trimmed_arg(crate::services::orchestrator::opt_str(scenario_id))
}

/// A new session's id and context at `created_millis` (`session_fields_for`).
pub fn new_session_fields(created_millis: i64, title: Option<&str>, mode_id: Option<&str>, scenario_id: Option<&str>) -> (r:
    NewSessionFields)
    ensures
        session_fields_for(r, created_millis, title, mode_id, scenario_id),
{
    let stamp = text::i64_to_string(created_millis);
    NewSessionFields {
        id: prefixed("sess-", stamp.as_str()),
        title: trimmed_opt(title),
        mode_id: match trimmed_opt(mode_id) {
            Some(m) => m,
            None => text::owned("free_talk"),
        },
        scenario_id: trimmed_opt(scenario_id),
    }
}

/// Whether `r` is the message about to be appended at `created_millis`: its
/// role normalized and its content trimmed, which must not be empty; its id
/// is `msg-` and the time, which is also its timestamp.
pub open spec fn message_for(r: Result<MessageInfo, String>, created_millis: i64, role: Seq<char>, content: Seq<char>) -> bool {
    &&& message_role(role) matches Err(m) ==> r is Err && r->Err_0@ == m
    &&& message_role(role) is Ok && text::trim(content).len() == 0 ==> r is Err && r->Err_0@
        == "Message content cannot be empty."@
    &&& message_role(role) is Ok && text::trim(content).len() > 0 ==> r is Ok && r->Ok_0.id@ == "msg-"@
        + text::signed_dec(created_millis as int) && r->Ok_0.role@ == message_role(role)->Ok_0 && r->Ok_0.content@
        == text::trim(content) && r->Ok_0.timestamp == created_millis
}

/// The message about to be appended at `created_millis` (`message_for`).
pub fn new_message(created_millis: i64, role: &str, content: &str) -> (r: Result<MessageInfo, String>)
    ensures
        message_for(r, created_millis, role@, content@),
{
    let r = normalize_message_role(role)?;
    let c = text::trim_str(content);
    if c.unicode_len() == 0 {
        return Err(text::owned("Message content cannot be empty."));
    }
    let stamp = text::i64_to_string(created_millis);
    Ok(MessageInfo { id: prefixed("msg-", stamp.as_str()), role: r, content: text::owned(c), timestamp: created_millis })
}

/// A new session's id and context, made now, with the time as RFC 3339
/// text: `session_fields_for` the milliseconds the clock gave.
pub fn fresh_session_fields(title: Option<&str>, mode_id: Option<&str>, scenario_id: Option<&str>) -> (r: (
    NewSessionFields,
    String,
))
    ensures
        exists|ms: i64| #[trigger] session_fields_for(r.0, ms, title, mode_id, scenario_id),
{
    let (ms, stamp) = crate::fresh::now_stamp();
    let f = new_session_fields(ms, title, mode_id, scenario_id);
    let r = (f, stamp);
    assert(session_fields_for(r.0, ms, title, mode_id, scenario_id));
    r
}

/// The message of a result that also carries a time.
pub open spec fn message_part(r: Result<(MessageInfo, String), String>) -> Result<MessageInfo, String> {
    match r {
        Ok((m, _)) => Ok(m),
        Err(e) => Err(e),
    }
}

/// The message about to be appended now, with the time as RFC 3339 text:
/// `message_for` the milliseconds the clock gave.
pub fn fresh_message(role: &str, content: &str) -> (r: Result<(MessageInfo, String), String>)
    ensures
        exists|ms: i64| #[trigger] message_for(message_part(r), ms, role@, content@),
{
    let (ms, stamp) = crate::fresh::now_stamp();
    let m = new_message(ms, role, content);
    proof {
        assert(message_for(m, ms, role@, content@));
    }
    match m {
        Ok(message) => Ok((message, stamp)),
        Err(e) => Err(e),
    }
}

/// The reply of a chat completion: the first choice's content, which must
/// not be blank.
pub fn assistant_content(first_choice: Option<String>) -> (r: Result<String, String>)
    ensures
        match opt_view(first_choice) {
            Some(c) => if text::trim(c).len() > 0 {
                r is Ok && r->Ok_0@ == c
            } else {
                r is Err && r->Err_0@ == "Chat completion response did not include assistant content."@
            },
            None => r is Err && r->Err_0@ == "Chat completion response did not include assistant content."@,
        },
{
    match first_choice {
        Some(c) => if text::trim_str(c.as_str()).unicode_len() > 0 {
            Ok(c)
        } else {
            Err(text::owned("Chat completion response did not include assistant content."))
        },
        None => Err(text::owned("Chat completion response did not include assistant content.")),
    }
}

} // verus!
