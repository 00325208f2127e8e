use voxverse::cli::agent::{
    jsonrpc_error_code, plan_agent_call, route_agent_request, AgentArguments, AgentCall,
    AgentRoute,
};
use voxverse::cli::audit::{build_audit_filter, format_audit_filter, select_audit_events, AuditEvent};
use voxverse::cli::report::{
    assistant_content, build_session_export_summary, build_session_transcript_markdown,
    fresh_message, fresh_session_fields, session_export_summary_at,
    check_cli_gate, choose_cli_key, format_message_timestamp, infer_provider, new_message,
    new_session_fields, normalize_message_role, normalize_provider, profile_from_row,
    requires_api_key, resolve_audit_log_path, retry_target, select_database, supports_stt,
    truncate_prompt_text, apply_send_message_env_overrides, CliOperation, DbCandidate, DbInfo,
    MessageInfo, ProfileInfo, SessionInfo,
};
use voxverse::commands::chat::{
    apply_profile_to_runtime, check_new_profile_key, config_info_from_runtime,
    ensure_unique_profile_name, plan_profile_deletion, rename_runtime_profile,
};
use voxverse::commands::character::check_character_deletion;
use voxverse::commands::diagnostics::{chat_check_blocked, stt_check, tts_check};
use voxverse::commands::memory::{memory_query, validate_new_memory_fact, MemoryFactFilters};
use voxverse::commands::relationship::{apply_relationship_update, RelationshipChanges};
use voxverse::commands::scenario::check_scenario_deletion;
use voxverse::commands::session::{validate_message_for_save, Message};
use voxverse::commands::stats::{compute_streak, fill_daily_gaps, fill_gaps, streak_since, DailyActivity};
use voxverse::error::AppError;
use voxverse::protocol::session_event::InterruptReason;
use voxverse::repositories::config::ConfigProfileRecord;
use voxverse::services::llm::{authorization_header, chat_completions_url, SseDecoder};
use voxverse::services::memory_service::new_relationship_state;
use voxverse::services::stt::{audio_file_name, transcription_url};
use voxverse::services::tts::{choose_voice, VoiceChoice};
use voxverse::state::{
    delete_api_key_for_profile, has_api_key_for_profile, resolve_api_key, AiProvider, ApiConfig,
    KeyLookup,
};

#[test]
fn stored_provider_names_read_back_as_the_same_provider() {
    for p in [AiProvider::OpenAi, AiProvider::Ollama, AiProvider::Custom] {
        assert_eq!(AiProvider::from_stored_value(p.as_str()), Some(p));
    }
    assert_eq!(AiProvider::from_stored_value("  OLLAMA "), Some(AiProvider::Ollama));
    assert_eq!(AiProvider::from_stored_value("gpt"), None);
    assert_eq!(AiProvider::infer_from_base_url("https://example.com/v1"), AiProvider::Custom);
    assert_eq!(AiProvider::infer_from_base_url("  HTTP://MY-OLLAMA.local "), AiProvider::Ollama);
}

#[test]
fn cli_provider_text_agrees_with_app_provider() {
    assert_eq!(normalize_provider(" OpenAI ", "http://localhost:11434"), "openai");
    assert_eq!(normalize_provider("bogus", "http://localhost:11434/v1"), "ollama");
    assert_eq!(infer_provider("https://example.com"), "custom");
    let once = normalize_provider("bogus", "https://api.openai.com/v1");
    assert_eq!(once, "openai");
    assert_eq!(normalize_provider(&once, "https://api.openai.com/v1"), once);
    assert!(requires_api_key("openai"));
    assert!(!requires_api_key("custom"));
    assert!(!supports_stt("ollama"));
    assert!(supports_stt("custom"));
}

fn session() -> SessionInfo {
    SessionInfo {
        id: "s1".into(),
        character_id: "emily".into(),
        character_name: None,
        title: None,
        mode_id: None,
        mode_name: None,
        scenario_id: None,
        scenario_name: None,
        mode_prompt_suffix: None,
        scenario_description: None,
        created_at: "c".into(),
        updated_at: "u".into(),
        message_count: 0,
    }
}

fn message(role: &str, content: &str, timestamp: i64) -> MessageInfo {
    MessageInfo {
        id: format!("m{timestamp}"),
        role: role.into(),
        content: content.into(),
        timestamp,
    }
}

#[test]
fn export_summary_counts_add_up() {
    let messages = vec![
        message("user", "hi", 10),
        message("assistant", "hello", 20),
        message("system", "note", 30),
        message("user", "bye", 40),
    ];
    let summary = session_export_summary_at(&session(), &messages, "now".into());
    assert_eq!(summary.message_count, 4);
    assert_eq!(summary.user_message_count, 2);
    assert_eq!(summary.assistant_message_count, 1);
    assert_eq!(summary.other_message_count, 1);
    assert_eq!(
        summary.user_message_count + summary.assistant_message_count + summary.other_message_count,
        summary.message_count
    );
    assert_eq!(summary.first_message_at, Some(10));
    assert_eq!(summary.last_message_at, Some(40));
    assert_eq!(summary.mode_id.as_deref(), Some("free_talk"));
    assert_eq!(summary.mode_name.as_deref(), Some("Free Talk"));
    assert_eq!(summary.generated_at, "now");
}

#[test]
fn empty_transcript_is_exact() {
    let md = build_session_transcript_markdown(&session(), &[]);
    assert_eq!(
        md,
        "# SpeakMate Session Report\n\n- Session: `s1`\n- Title: Untitled\n- Character: emily (`emily`)\n- Practice Mode: Free Talk (`free_talk`)\n- Scenario: none\n- Created: c\n- Updated: u\n- Messages: 0\n\n_No messages recorded for this session yet._\n"
    );
}

#[test]
fn transcript_lists_messages_with_times() {
    let mut s = session();
    s.scenario_id = Some("interview".into());
    let md = build_session_transcript_markdown(&s, &[message("user", "  Hello  ", 0)]);
    assert!(md.contains("- Scenario: interview (`interview`)\n"));
    assert!(md.ends_with("- Messages: 1\n\n## user (1970-01-01T00:00:00+00:00)\n\nHello\n\n"));
}

#[test]
fn message_times_are_rfc3339_or_the_number() {
    assert_eq!(format_message_timestamp(0), "1970-01-01T00:00:00+00:00");
    assert_eq!(format_message_timestamp(1_500), "1970-01-01T00:00:01.500+00:00");
    assert_eq!(format_message_timestamp(i64::MAX), "9223372036854775807");
}

#[test]
fn truncation_keeps_short_text_and_marks_cut_text() {
    assert_eq!(truncate_prompt_text("abc", 3), "abc");
    assert_eq!(
        truncate_prompt_text("abcdef", 2),
        "ab\n\n[Transcript truncated for coaching prompt.]"
    );
    assert_eq!(truncate_prompt_text("日本語", 2), "日本\n\n[Transcript truncated for coaching prompt.]");
}

#[test]
fn cli_message_roles_are_normalized() {
    assert_eq!(normalize_message_role(" User ").unwrap(), "user");
    assert_eq!(normalize_message_role("ASSISTANT").unwrap(), "assistant");
    assert_eq!(
        normalize_message_role(" Tool ").unwrap_err(),
        "Unsupported message role 'tool'. Use 'user' or 'assistant'."
    );
}

#[test]
fn streak_counts_consecutive_days_from_today_or_yesterday() {
    let dates: Vec<String> = vec!["2026-05-03".into(), "2026-05-02".into(), "2026-04-30".into()];
    assert_eq!(streak_since(&dates, "2026-05-03", "2026-05-02"), 2);
    assert_eq!(streak_since(&dates, "2026-05-04", "2026-05-03"), 2);
    assert_eq!(streak_since(&dates, "2026-05-10", "2026-05-09"), 0);
    assert_eq!(streak_since(&[], "2026-05-03", "2026-05-02"), 0);
    let month_edge: Vec<String> = vec!["2026-03-01".into(), "2026-02-28".into(), "2026-02-27".into()];
    assert_eq!(streak_since(&month_edge, "2026-03-01", "2026-02-28"), 3);
    let broken: Vec<String> = vec!["2026-05-03".into(), "not a date".into()];
    assert_eq!(streak_since(&broken, "2026-05-03", "2026-05-02"), 1);
}

#[test]
fn streak_as_of_today_reads_the_clock() {
    let today = chrono::Utc::now().date_naive();
    let day = |back: i64| (today - chrono::Duration::days(back)).format("%Y-%m-%d").to_string();
    let current: Vec<String> = vec![day(0), day(1), day(2), day(4)];
    assert_eq!(compute_streak(&current), 3);
    let from_yesterday: Vec<String> = vec![day(1), day(2)];
    assert_eq!(compute_streak(&from_yesterday), 2);
    let stale: Vec<String> = vec![day(3), day(4)];
    assert_eq!(compute_streak(&stale), 0);
    assert_eq!(compute_streak(&[]), 0);
}

#[test]
fn last_week_of_activity_ends_today() {
    let today = chrono::Utc::now().date_naive();
    let day = |back: i64| (today - chrono::Duration::days(back)).format("%Y-%m-%d").to_string();
    let existing = vec![DailyActivity { date: day(1), message_count: 5 }];
    let week = fill_daily_gaps(existing, 7);
    let dates: Vec<String> = week.iter().map(|d| d.date.clone()).collect();
    assert_eq!(dates, (0..7).rev().map(day).collect::<Vec<String>>());
    let counts: Vec<i64> = week.iter().map(|d| d.message_count).collect();
    assert_eq!(counts, vec![0, 0, 0, 0, 0, 5, 0]);
    assert!(fill_daily_gaps(Vec::new(), 0).is_empty());
}

#[test]
fn daily_gaps_are_filled_with_zero() {
    let existing = vec![DailyActivity {
        date: "2026-05-02".into(),
        message_count: 4,
    }];
    let dates: Vec<String> = vec!["2026-05-01".into(), "2026-05-02".into(), "2026-05-03".into()];
    let filled = fill_gaps(&existing, &dates);
    let counts: Vec<i64> = filled.iter().map(|d| d.message_count).collect();
    assert_eq!(counts, vec![0, 4, 0]);
    assert_eq!(filled[2].date, "2026-05-03");
}

fn candidate(source: &str, path: &str, exists: bool) -> DbCandidate {
    DbCandidate {
        source: source.into(),
        path: path.into(),
        exists,
    }
}

#[test]
fn database_choice_prefers_an_existing_candidate() {
    let db = select_database(vec![candidate("--db", "a.db", false), candidate("app", "b.db", true)]);
    assert_eq!(db.path.as_deref(), Some("b.db"));
    assert_eq!(db.source.as_deref(), Some("app"));
    assert!(db.exists);
    let db = select_database(vec![candidate("--db", "a.db", false)]);
    assert_eq!(db.path.as_deref(), Some("a.db"));
    assert!(!db.exists);
    let db = select_database(vec![]);
    assert!(db.path.is_none());
}

fn db_at(path: Option<&str>) -> DbInfo {
    DbInfo {
        path: path.map(|p| p.to_string()),
        source: None,
        exists: true,
        candidates: vec![],
    }
}

#[test]
fn audit_log_sits_beside_the_database() {
    assert_eq!(
        resolve_audit_log_path(&db_at(Some("/data/app/voxverse.db"))).as_deref(),
        Some("/data/app/voxverse-audit.jsonl")
    );
    assert_eq!(
        resolve_audit_log_path(&db_at(Some("voxverse.db"))).as_deref(),
        Some("voxverse-audit.jsonl")
    );
    assert_eq!(resolve_audit_log_path(&db_at(Some("/"))), None);
    assert_eq!(resolve_audit_log_path(&db_at(None)), None);
}

#[test]
fn cli_gates_refuse_unconfirmed_writes_and_network() {
    assert_eq!(
        check_cli_gate(CliOperation::SendMessage, false, true).unwrap_err(),
        "session send-message is a write and network operation and requires --yes."
    );
    assert_eq!(
        check_cli_gate(CliOperation::SendMessage, true, false).unwrap_err(),
        "session send-message requires --allow-network."
    );
    assert_eq!(
        check_cli_gate(CliOperation::SwitchProfile, false, false).unwrap_err(),
        "config profiles switch is a write operation and requires --yes."
    );
    assert!(check_cli_gate(CliOperation::CoachReport, false, true).is_ok());
    assert!(check_cli_gate(CliOperation::RetryLastMessage, true, true).is_ok());
}

#[test]
fn retry_needs_a_last_user_message() {
    assert_eq!(
        retry_target(&[], "s1").unwrap_err(),
        "Session 's1' has no messages to retry. Append or send a user message first."
    );
    assert_eq!(
        retry_target(&[message("user", "a", 1), message("assistant", "b", 2)], "s1").unwrap_err(),
        "Session 's1' cannot be retried because the last message role is 'assistant', not 'user'."
    );
    assert_eq!(retry_target(&[message("assistant", "b", 2), message("user", "a", 3)], "s1").unwrap(), 1);
}

#[test]
fn new_records_get_ids_from_their_time() {
    let fields = new_session_fields(1700, Some("  Mock  "), Some("   "), Some(" interview "));
    assert_eq!(fields.id, "sess-1700");
    assert_eq!(fields.title.as_deref(), Some("Mock"));
    assert_eq!(fields.mode_id, "free_talk");
    assert_eq!(fields.scenario_id.as_deref(), Some("interview"));
    let m = new_message(42, " User ", "  hi ").unwrap();
    assert_eq!((m.id.as_str(), m.role.as_str(), m.content.as_str(), m.timestamp), ("msg-42", "user", "hi", 42));
    assert_eq!(new_message(42, "user", "   ").unwrap_err(), "Message content cannot be empty.");
}

#[test]
fn fresh_records_take_their_time_from_the_clock() {
    let before = chrono::Utc::now().timestamp_millis();
    let (fields, stamp) = fresh_session_fields(None, Some(" roleplay "), None);
    let (message, _) = fresh_message("assistant", " Sure. ").unwrap();
    let after = chrono::Utc::now().timestamp_millis();
    let millis: i64 = fields.id.strip_prefix("sess-").unwrap().parse().unwrap();
    assert!(before <= millis && millis <= after);
    assert_eq!(fields.mode_id, "roleplay");
    assert!(chrono::DateTime::parse_from_rfc3339(&stamp).is_ok());
    assert!(before <= message.timestamp && message.timestamp <= after);
    assert_eq!(message.id, format!("msg-{}", message.timestamp));
    assert_eq!(message.content, "Sure.");
    assert_eq!(fresh_message("tool", "x").unwrap_err(), normalize_message_role("tool").unwrap_err());
    let summary = build_session_export_summary(&session(), &[]);
    assert!(chrono::DateTime::parse_from_rfc3339(&summary.generated_at).is_ok());
    assert_eq!(summary.message_count, 0);
}

#[test]
fn assistant_reply_must_not_be_blank() {
    assert_eq!(assistant_content(Some("Hi".into())).unwrap(), "Hi");
    assert!(assistant_content(Some("  ".into())).is_err());
    assert!(assistant_content(None).is_err());
}

fn profile(id: &str, provider: &str, requires: bool) -> ProfileInfo {
    ProfileInfo {
        id: id.into(),
        name: "P".into(),
        provider: provider.into(),
        base_url: "https://api.openai.com/v1".into(),
        model: "gpt-4o-mini".into(),
        is_default: true,
        requires_api_key: requires,
        supports_stt: true,
        keychain_status: "not_read".into(),
    }
}

#[test]
fn stored_profiles_are_normalized() {
    let p = profile_from_row(
        "p1".into(),
        "Local".into(),
        "weird",
        "http://localhost:11434/v1".into(),
        "llama3.2".into(),
        1,
    );
    assert_eq!(p.provider, "ollama");
    assert!(p.is_default);
    assert!(!p.requires_api_key);
    assert!(!p.supports_stt);
    assert_eq!(p.keychain_status, "not_read");
}

#[test]
fn env_overrides_replace_url_provider_and_model() {
    let mut p = profile("default", "openai", true);
    let mut warnings = Vec::new();
    apply_send_message_env_overrides(&mut p, &mut warnings, Some(" http://localhost:11434/v1 "), None, Some("  "));
    assert_eq!(p.base_url, "http://localhost:11434/v1");
    assert_eq!(p.provider, "ollama");
    assert!(!p.requires_api_key);
    assert_eq!(warnings, vec!["SPEAKMATE_CLI_SEND_BASE_URL override is active."]);
    apply_send_message_env_overrides(&mut p, &mut warnings, None, Some("OpenAI"), Some("gpt-x"));
    assert_eq!(p.provider, "openai");
    assert_eq!(p.model, "gpt-x");
    assert!(p.requires_api_key);
    assert_eq!(warnings.len(), 3);
}

#[test]
fn cli_key_comes_from_env_then_keychain() {
    let p = profile("default", "openai", true);
    assert_eq!(choose_cli_key(&p, Some("env".into()), KeyLookup::Found("k".into()), KeyLookup::Missing).unwrap(), "env");
    assert_eq!(choose_cli_key(&p, None, KeyLookup::Missing, KeyLookup::Found("g".into())).unwrap(), "g");
    let other = profile("work", "openai", true);
    assert_eq!(
        choose_cli_key(&other, None, KeyLookup::Missing, KeyLookup::Found("g".into())).unwrap_err(),
        "Active profile 'work' requires an API key, but no keychain entry was found."
    );
    let local = profile("work", "ollama", false);
    assert_eq!(choose_cli_key(&local, None, KeyLookup::Missing, KeyLookup::Missing).unwrap(), "");
}

#[test]
fn app_key_resolution_follows_the_lookup_order() {
    let found = resolve_api_key(true, "default", KeyLookup::Missing, KeyLookup::Missing, KeyLookup::Found("g".into()));
    assert_eq!(found.unwrap(), "g");
    let not_default = resolve_api_key(true, "work", KeyLookup::Missing, KeyLookup::Missing, KeyLookup::Found("g".into()));
    assert_eq!(
        not_default.unwrap_err().to_string(),
        "Config error: API key not found in keychain for profile 'work'"
    );
    let unreachable = resolve_api_key(true, "work", KeyLookup::Unreachable("locked".into()), KeyLookup::Found("l".into()), KeyLookup::Missing);
    assert_eq!(unreachable.unwrap_err().to_string(), "Crypto error: Keychain error: locked");
    let keyless = resolve_api_key(false, "work", KeyLookup::Unreachable("locked".into()), KeyLookup::Found("l".into()), KeyLookup::Missing);
    assert_eq!(keyless.unwrap(), "l");
    let blank = resolve_api_key(false, "work", KeyLookup::Missing, KeyLookup::Missing, KeyLookup::Missing);
    assert_eq!(blank.unwrap(), "");
}

#[test]
fn empty_keychain_has_no_key() {
    assert!(!has_api_key_for_profile("no-such-profile"));
    let config = ApiConfig::default();
    assert!(config.get_api_key().is_err());
    let mut local = ApiConfig::default();
    local.provider = AiProvider::Ollama;
    assert_eq!(local.get_api_key().unwrap(), "");
    local.check_has_key();
    assert!(!local.has_keychain_entry);
    assert!(delete_api_key_for_profile("no-such-profile").is_ok());
}

#[test]
fn storing_a_key_marks_the_configuration() {
    let mut config = ApiConfig::default();
    if config.set_api_key("sk-test").is_ok() {
        assert!(config.has_keychain_entry);
    }
    assert_eq!(config.profile_id, "default");
}

#[test]
fn event_stream_lines_are_reassembled() {
    let mut decoder = SseDecoder::new();
    let first = decoder.push("data: {\"a\":1}\n\n: comment\nda");
    assert_eq!(first.payloads, vec!["{\"a\":1}"]);
    assert!(!first.done);
    let second = decoder.push("ta: x\r\n");
    assert_eq!(second.payloads, vec!["x"]);
    let third = decoder.push("data:  [DONE] \ndata: late\n");
    assert!(third.done);
    assert!(third.payloads.is_empty());
}

#[test]
fn chunking_does_not_change_the_payloads() {
    let stream = "data: one\n\ndata: two\nevent: x\ndata: three\n";
    let mut whole = SseDecoder::new();
    let all = whole.push(stream);
    for cut in 0..stream.len() {
        if !stream.is_char_boundary(cut) {
            continue;
        }
        let mut split = SseDecoder::new();
        let mut got = split.push(&stream[..cut]).payloads;
        got.extend(split.push(&stream[cut..]).payloads);
        assert_eq!(got, all.payloads);
    }
    assert_eq!(all.payloads, vec!["one", "two", "three"]);
}

#[test]
fn request_addresses_and_headers() {
    assert_eq!(chat_completions_url("https://api.openai.com/v1//"), "https://api.openai.com/v1/chat/completions");
    assert_eq!(authorization_header("  "), None);
    assert_eq!(authorization_header("sk").as_deref(), Some("Bearer sk"));
    assert_eq!(transcription_url("http://h/v1/"), "http://h/v1/audio/transcriptions");
    assert_eq!(audio_file_name("audio/mp4"), "audio.m4a");
    assert_eq!(audio_file_name("audio/mpeg"), "audio.mp3");
    assert_eq!(audio_file_name("audio/webm;codecs=opus"), "audio.webm");
}

#[test]
fn voices_are_chosen_by_name_or_first() {
    let names: Vec<String> = vec!["a".into(), "b".into(), "b".into()];
    assert_eq!(choose_voice(&names, "b").unwrap(), VoiceChoice { index: 1, renamed: false });
    assert_eq!(choose_voice(&names, "z").unwrap(), VoiceChoice { index: 0, renamed: true });
    assert_eq!(choose_voice(&vec![], "z").unwrap_err(), "No voices available from Edge TTS");
}

fn event(operation: &str, result: &str) -> AuditEvent {
    AuditEvent {
        timestamp: "t".into(),
        operation: operation.into(),
        actor: "speakmate-cli".into(),
        db_path: None,
        target_profile_id: None,
        target_session_id: None,
        target_message_id: None,
        target_character_id: None,
        previous_profile_id: None,
        result: result.into(),
        details: "d".into(),
    }
}

#[test]
fn audit_listing_filters_then_keeps_the_newest() {
    let events = vec![
        event("a", "success"),
        event("b", "failure"),
        event("c", "success"),
        event("d", "success"),
    ];
    let filter = build_audit_filter(None, None, Some("SUCCESS".into()), None, None, None, None);
    let kept = select_audit_events(events.clone(), &filter, Some(2));
    let ops: Vec<&str> = kept.iter().map(|e| e.operation.as_str()).collect();
    assert_eq!(ops, vec!["c", "d"]);
    let empty = build_audit_filter(None, None, None, None, None, None, None);
    assert_eq!(select_audit_events(events.clone(), &empty, None).len(), 4);
    assert_eq!(select_audit_events(events, &empty, Some(0)).len(), 0);
    assert_eq!(format_audit_filter(&filter), "result=SUCCESS");
    let full = build_audit_filter(Some(" op ".into()), Some("me".into()), None, Some("p".into()), None, None, Some("c".into()));
    assert_eq!(format_audit_filter(&full), "operation=op, actor=me, profile=p, character=c");
}

fn args_of(pairs: &[(&str, Option<&str>)], limit: Option<u64>) -> AgentArguments {
    AgentArguments {
        members: pairs.iter().map(|(k, v)| (k.to_string(), v.map(|s| s.to_string()))).collect(),
        limit,
    }
}

#[test]
fn agent_calls_are_planned_after_their_gates() {
    let allowed: Vec<String> = vec!["send_message".into()];
    match plan_agent_call("characters_list", &args_of(&[], Some(900)), false, false, &[]).unwrap() {
        AgentCall::ListCharacters { limit } => assert_eq!(limit, 500),
        other => panic!("unexpected {other:?}"),
    }
    assert_eq!(
        plan_agent_call("send_message", &args_of(&[("session", Some("s1"))], None), true, true, &allowed).unwrap_err(),
        "send_message requires arguments.content."
    );
    match plan_agent_call("send_message", &args_of(&[("session", Some("s1")), ("content", Some("hi"))], None), true, true, &allowed).unwrap() {
        AgentCall::SendMessage { session_id, content } => assert_eq!((session_id.as_str(), content.as_str()), ("s1", "hi")),
        other => panic!("unexpected {other:?}"),
    }
    assert_eq!(
        plan_agent_call("export_session", &args_of(&[("session_id", None), ("session", Some("s1"))], None), false, false, &[]).unwrap_err(),
        "export_session requires arguments.session_id."
    );
    assert_eq!(
        plan_agent_call("retry_last", &args_of(&[], None), false, true, &[]).unwrap_err(),
        "retry_last_message requires agent serve --allow-writes --yes."
    );
    assert_eq!(
        plan_agent_call("nope", &args_of(&[], None), true, true, &allowed).unwrap_err(),
        "Unknown read-only agent tool: nope"
    );
}

#[test]
fn requests_are_routed_by_protocol() {
    match route_agent_request(Some("2.0"), Some("tools/list"), None) {
        AgentRoute::ListTools { mcp } => assert!(mcp),
        other => panic!("unexpected {other:?}"),
    }
    assert!(matches!(route_agent_request(Some("2.0"), Some("notifications/initialized"), None), AgentRoute::NoReply));
    match route_agent_request(None, None, Some("status")) {
        AgentRoute::NamedTool { name } => assert_eq!(name, "status"),
        other => panic!("unexpected {other:?}"),
    }
    assert_eq!(jsonrpc_error_code("tools/call requires params.name."), -32602);
    assert_eq!(jsonrpc_error_code("Unknown MCP method: x"), -32601);
    assert_eq!(jsonrpc_error_code("disk full"), -32603);
}

fn record(id: &str, is_default: bool) -> ConfigProfileRecord {
    ConfigProfileRecord {
        id: id.into(),
        name: "Work".into(),
        provider: "unknown".into(),
        base_url: "http://localhost:11434/v1".into(),
        model: "llama3.2".into(),
        is_default,
    }
}

#[test]
fn profile_rules() {
    let mut config = ApiConfig::default();
    apply_profile_to_runtime(&mut config, &record("work", false));
    assert_eq!(config.provider, AiProvider::Ollama);
    assert_eq!(config.profile_id, "work");
    let info = config_info_from_runtime(&config);
    assert!(!info.requires_api_key);
    assert!(!info.supports_stt);
    rename_runtime_profile(&mut config, "work", "Office");
    assert_eq!(config.profile_name, "Office");
    rename_runtime_profile(&mut config, "other", "Nope");
    assert_eq!(config.profile_name, "Office");
    assert_eq!(
        plan_profile_deletion(&record("default", true), None).unwrap_err(),
        "The default config profile cannot be deleted."
    );
    assert_eq!(
        plan_profile_deletion(&record("work", true), None).unwrap_err(),
        "Cannot delete the only remaining config profile."
    );
    assert!(plan_profile_deletion(&record("work", false), None).unwrap().is_none());
    assert_eq!(
        ensure_unique_profile_name(Some("p2"), "Work", Some("p1")).unwrap_err(),
        "A config profile named 'Work' already exists."
    );
    assert!(ensure_unique_profile_name(Some("p1"), "Work", Some("p1")).is_ok());
    assert!(check_new_profile_key(AiProvider::OpenAi, "  ").is_err());
    assert!(check_new_profile_key(AiProvider::Ollama, "").is_ok());
}

#[test]
fn stored_records_follow_their_rules() {
    assert!(check_character_deletion("emily").is_err());
    assert!(check_character_deletion("custom-1").is_ok());
    assert!(matches!(check_scenario_deletion(1), Err(AppError::Config(_))));
    assert!(check_scenario_deletion(0).is_ok());
    let q = memory_query(None);
    assert_eq!((q.include_deleted, q.fact_type.clone(), q.limit), (false, None, 100));
    let q = memory_query(Some(MemoryFactFilters { fact_type: Some("event".into()), include_deleted: Some(true), limit: Some(5) }));
    assert_eq!((q.include_deleted, q.limit), (true, 5));
    assert_eq!(validate_new_memory_fact("event", "  went hiking ").unwrap(), "went hiking");
    assert_eq!(validate_new_memory_fact("event", "  ").unwrap_err(), "Memory content cannot be empty.");
    assert_eq!(
        validate_new_memory_fact("mood", "x").unwrap_err(),
        "Invalid fact type 'mood'. Must be one of: event, preference, commitment, trait, custom"
    );
}

#[test]
fn relationship_levels_are_clamped() {
    let mut state = new_relationship_state("r".into(), "c1", "t0".into());
    apply_relationship_update(
        &mut state,
        RelationshipChanges {
            intimacy_level: Some(150),
            trust_level: Some(-3),
            plot_stage: Some(String::new()),
            user_preferences: Some("{\"tea\":true}".into()),
            boundaries: None,
            commitments: None,
        },
        "t1".into(),
    );
    assert_eq!((state.intimacy_level, state.trust_level), (100, 0));
    assert!(state.plot_stage.is_none());
    assert_eq!(state.user_preferences.as_deref(), Some("{\"tea\":true}"));
    assert_eq!(state.updated_at, "t1");
}

#[test]
fn messages_are_checked_before_saving() {
    let m = Message {
        id: "m1".into(),
        session_id: "s1".into(),
        role: " tool ".into(),
        content: "x".into(),
        timestamp: 1,
    };
    assert_eq!(validate_message_for_save(&m, true).unwrap_err().to_string(), "Config error: Unsupported message role 'tool'.");
    let ok = Message { role: "user".into(), ..m.clone() };
    assert!(validate_message_for_save(&ok, true).is_ok());
    assert_eq!(
        validate_message_for_save(&ok, false).unwrap_err().to_string(),
        "Config error: Session 's1' was not found."
    );
}

#[test]
fn diagnostics_verdicts() {
    let blocked = chat_check_blocked(AiProvider::OpenAi, false).unwrap();
    assert_eq!(blocked.status, "error");
    assert!(chat_check_blocked(AiProvider::Ollama, false).is_none());
    assert_eq!(stt_check(AiProvider::Ollama, true).status, "warning");
    assert_eq!(stt_check(AiProvider::Custom, false).status, "warning");
    assert_eq!(stt_check(AiProvider::OpenAi, false).status, "error");
    assert_eq!(stt_check(AiProvider::OpenAi, true).status, "success");
    assert_eq!(
        tts_check(Ok(12)).details,
        "Loaded 12 voices from Edge TTS. Use the preview button in Settings to confirm playback."
    );
    assert_eq!(tts_check(Err("offline".into())).details, "offline");
}

#[test]
fn interrupt_reasons_round_trip() {
    for r in [InterruptReason::UserBarged, InterruptReason::UserStopped, InterruptReason::SystemAbort] {
        assert_eq!(InterruptReason::from_wire_name(r.wire_name()), Some(r));
    }
    assert_eq!(InterruptReason::from_wire_name("UserBarged"), None);
}
