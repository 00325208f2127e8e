//! Practice sessions and their messages: the rules a session or message
//! must meet before it is stored.

use vstd::prelude::*;
use crate::cli::opt_view;
use crate::error::{prefixed, AppError};
use crate::text;

verus! {

/// A practice session with its messages.
#[derive(Debug, Clone)]
pub struct ChatSession {
    pub id: String,
    pub character_id: String,
    pub title: Option<String>,
    pub mode_id: Option<String>,
    pub scenario_id: Option<String>,
    pub created_at: String,
    pub updated_at: String,
    pub messages: Vec<Message>,
}

/// One message of a session.
#[derive(Debug, Clone)]
pub struct Message {
    pub id: String,
    pub session_id: String,
    pub role: String,
    pub content: String,
    pub timestamp: i64,
}

/// The practice mode and scenario a session runs in.
#[derive(Debug, Clone)]
pub struct SessionContext {
    pub session_id: String,
    pub mode_id: Option<String>,
    pub scenario_id: Option<String>,
}

/// An optional id without surrounding whitespace; a blank id is no id.
pub open spec fn normalized_id(value: Option<Seq<char>>) -> Option<Seq<char>> {
    match value {
        Some(v) => if text::trim(v).len() > 0 {
            Some(text::trim(v))
        } else {
            None
        },
        None => None,
    }
}

pub fn normalize_optional_id(value: Option<String>) -> (r: Option<String>)
    ensures
        opt_view(r) == normalized_id(opt_view(value)),
{
    match value {
        Some(v) => {
            let t = text::trim_string(v.as_str());
            if t.as_str().unicode_len() > 0 {
                Some(t)
            } else {
                None
            }
        },
        None => None,
    }
}

/// The roles a stored message may have.
pub open spec fn allowed_role(role: Seq<char>) -> bool {
    role == "user"@ || role == "assistant"@ || role == "system"@
}

/// Whether `r` is a `Config` error with message `m`.
pub open spec fn config_error(r: Result<(), AppError>, m: Seq<char>) -> bool {
    r is Err && r->Err_0 is Config && r->Err_0->Config_0@ == m
}

/// Accepts `user`, `assistant` and `system`, exactly as written.
pub fn validate_message_role(role: &str) -> (r: Result<(), AppError>)
    ensures
        allowed_role(role@) ==> r is Ok,
        !allowed_role(role@) ==> config_error(r, "Unsupported message role '"@ + role@ + "'."@),
{
    if text::str_eq(role, "user") || text::str_eq(role, "assistant") || text::str_eq(role, "system") {
        Ok(())
    } else {
        let mut m = prefixed("Unsupported message role '", role);
        m.append("'.");
        Err(AppError::Config(m))
    }
}

/// What storing a message comes to: its id, session id, role (trimmed) and
/// content must be present, and its session must exist.
pub open spec fn message_check(m: Message, session_exists: bool) -> Option<Seq<char>> {
    if text::trim(m.id@).len() == 0 {
        Some("Message id is required."@)
    } else if text::trim(m.session_id@).len() == 0 {
        Some("Message session id is required."@)
    } else if !allowed_role(text::trim(m.role@)) {
        Some("Unsupported message role '"@ + text::trim(m.role@) + "'."@)
    } else if text::trim(m.content@).len() == 0 {
        Some("Message content is required."@)
    } else if !session_exists {
        Some("Session '"@ + m.session_id@ + "' was not found."@)
    } else {
        None
    }
}

fn blank(s: &str) -> (r: bool)
    ensures
        r == (text::trim(s@).len() == 0),
{
    text::trim_str(s).unicode_len() == 0
}

/// Checks a message before it is stored; `session_exists` says whether its
/// session is in the database.
pub fn validate_message_for_save(message: &Message, session_exists: bool) -> (r: Result<(), AppError>)
    ensures
        match message_check(*message, session_exists) {
            None => r is Ok,
            Some(m) => config_error(r, m),
        },
{
    if blank(message.id.as_str()) {
        return Err(AppError::Config(text::owned("Message id is required.")));
    }
    if blank(message.session_id.as_str()) {
        return Err(AppError::Config(text::owned("Message session id is required.")));
    }
    validate_message_role(text::trim_str(message.role.as_str()))?;
    if blank(message.content.as_str()) {
        return Err(AppError::Config(text::owned("Message content is required.")));
    }
    if !session_exists {
        let mut m = prefixed("Session '", message.session_id.as_str());
        m.append("' was not found.");
        return Err(AppError::Config(m));
    }
    Ok(())
}

/// What a session's practice context comes to: a named mode must exist, then
/// a named scenario must exist.
pub open spec fn context_check(
    mode_id: Option<Seq<char>>,
    scenario_id: Option<Seq<char>>,
    mode_exists: bool,
    scenario_exists: bool,
) -> Option<Seq<char>> {
    if mode_id is Some && !mode_exists {
        Some("Practice mode '"@ + mode_id->Some_0 + "' was not found."@)
    } else if scenario_id is Some && !scenario_exists {
        Some("Scenario '"@ + scenario_id->Some_0 + "' was not found."@)
    } else {
        None
    }
}

pub open spec fn opt_str(o: Option<&str>) -> Option<Seq<char>> {
    match o {
        Some(s) => Some(s@),
        None => None,
    }
}

/// Checks a session's practice context; `mode_exists` and `scenario_exists`
/// say whether the named mode and scenario are in the database.
pub fn validate_session_context(
    mode_id: Option<&str>,
    scenario_id: Option<&str>,
    mode_exists: bool,
    scenario_exists: bool,
) -> (r: Result<(), AppError>)
    ensures
        match context_check(opt_str(mode_id), opt_str(scenario_id), mode_exists, scenario_exists) {
            None => r is Ok,
            Some(m) => config_error(r, m),
        },
{
    if let Some(mode) = mode_id {
        if !mode_exists {
            let mut m = prefixed("Practice mode '", mode);
            m.append("' was not found.");
            return Err(AppError::Config(m));
        }
    }
    if let Some(scenario) = scenario_id {
        if !scenario_exists {
            let mut m = prefixed("Scenario '", scenario);
            m.append("' was not found.");
            return Err(AppError::Config(m));
        }
    }
    Ok(())
}

/// What creating a session comes to: its id and character id must be
/// present, its character must exist, and its context must check out.
pub open spec fn session_check(
    s: ChatSession,
    character_exists: bool,
    mode_exists: bool,
    scenario_exists: bool,
) -> Option<Seq<char>> {
    if text::trim(s.id@).len() == 0 {
        Some("Session id is required."@)
    } else if text::trim(s.character_id@).len() == 0 {
        Some("Session character id is required."@)
    } else if !character_exists {
        Some("Character '"@ + s.character_id@ + "' was not found."@)
    } else {
        context_check(opt_view(s.mode_id), opt_view(s.scenario_id), mode_exists, scenario_exists)
    }
}

/// Checks a session before it is created.
pub fn validate_session_for_create(
    session: &ChatSession,
    character_exists: bool,
    mode_exists: bool,
    scenario_exists: bool,
) -> (r: Result<(), AppError>)
    ensures
        match session_check(*session, character_exists, mode_exists, scenario_exists) {
            None => r is Ok,
            Some(m) => config_error(r, m),
        },
{
    if blank(session.id.as_str()) {
        return Err(AppError::Config(text::owned("Session id is required.")));
    }
    if blank(session.character_id.as_str()) {
        return Err(AppError::Config(text::owned("Session character id is required.")));
    }
    if !character_exists {
        let mut m = prefixed("Character '", session.character_id.as_str());
        m.append("' was not found.");
        return Err(AppError::Config(m));
    }
    let mode = match &session.mode_id {
        Some(m) => Some(m.as_str()),
        None => None,
    };
    let scenario = match &session.scenario_id {
        Some(s) => Some(s.as_str()),
        None => None,
    };
    validate_session_context(mode, scenario, mode_exists, scenario_exists)
}

/// A session's context ids as they are stored: trimmed, blank ones dropped.
pub fn normalize_session_context(session: &mut ChatSession)
    ensures
        final(session).id == old(session).id,
        final(session).character_id == old(session).character_id,
        final(session).title == old(session).title,
        final(session).created_at == old(session).created_at,
        final(session).updated_at == old(session).updated_at,
        final(session).messages == old(session).messages,
        opt_view(final(session).mode_id) == normalized_id(opt_view(old(session).mode_id)),
        opt_view(final(session).scenario_id) == normalized_id(opt_view(old(session).scenario_id)),
{
    let mode = session.mode_id.take();
    session.mode_id = normalize_optional_id(mode);
    let scenario = session.scenario_id.take();
    session.scenario_id = normalize_optional_id(scenario);
}

/// Requires the session to exist.
pub fn ensure_session_exists(session_id: &str, exists: bool) -> (r: Result<(), AppError>)
    ensures
        exists ==> r is Ok,
        !exists ==> config_error(r, "Session '"@ + session_id@ + "' was not found."@),
{
    if exists {
        Ok(())
    } else {
        let mut m = prefixed("Session '", session_id);
        m.append("' was not found.");
        Err(AppError::Config(m))
    }
}

/// Normalizing an id twice changes nothing more.
pub proof fn lemma_normalized_id_idempotent(value: Option<Seq<char>>)
    ensures
        normalized_id(normalized_id(value)) == normalized_id(value),
{
    if let Some(v) = value {
        text::lemma_trim_idempotent(v);
    }
}

} // verus!
