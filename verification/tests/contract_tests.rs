use voxverse::cli::args::parse_args;
use voxverse::cli::agent::{
    build_agent_tools_report, check_serve_options, mcp_instructions, required_arguments,
    resolve_agent_tool, AgentTool,
};
use voxverse::cli::report::{
    session_export_summary_at, chat_completion_messages, coaching_messages, database_locations,
    audit_log_to_read, make_candidate, model_run_failed_event, model_run_succeeded_event,
    profiles_from_rows, resolve_audit_log_paths, ModelRun, ProfileRow,
    profile_switch_event, require_database, selected_existing_path, switch_changed, switch_path,
    CharacterPromptInfo, DbInfo, MessageInfo, ProfileInfo, SessionInfo, SwitchPath,
    COACH_SYSTEM_PROMPT,
};
use voxverse::commands::character::{voice_columns, voice_from_columns, Character, VoiceConfig};
use voxverse::commands::chat::{
    chat_request_messages, create_profile_config, profile_not_found, MessagePayload,
};
use voxverse::commands::feedback::{new_correction, SaveCorrectionInput};
use voxverse::commands::relationship::{apply_relationship_update_now, RelationshipChanges};
use voxverse::services::memory_service::fresh_relationship_state;
use voxverse::state::AiProvider;
use voxverse::commands::diagnostics::chat_check_from_probe;
use voxverse::commands::feedback::summary_session_id;
use voxverse::commands::practice::practice_mode_rank;
use voxverse::commands::session::{
    ensure_session_exists, normalize_session_context, validate_session_for_create, ChatSession,
};
use voxverse::commands::tts::voice_listing;
use voxverse::error::AppError;
use voxverse::providers::provider_error::ProviderError;
use voxverse::providers::stt_provider::{AudioPayload, WhisperSttProvider};
use voxverse::providers::tts_provider::{EdgeTtsProvider, EdgeVoice};
use voxverse::services::feedback::{build_summary_context_text, SummaryContext, SummaryCorrection};
use voxverse::services::llm::api_status_error;
use voxverse::state::{deletion_result, is_ollama_url, key_entries, key_present, KeyLookup, KeyStoreError};

fn tool_names(allow_writes: bool, allow_network: bool, allowed: &[&str]) -> Vec<String> {
    let allowed: Vec<String> = allowed.iter().map(|s| s.to_string()).collect();
    build_agent_tools_report(allow_writes, allow_network, &allowed)
        .tools
        .into_iter()
        .map(|t| t.name)
        .collect()
}

#[test]
fn read_only_catalogue_lists_the_seven_read_tools() {
    let report = build_agent_tools_report(false, false, &[]);
    assert_eq!(report.mode, "read-only");
    assert_eq!(report.protocol, "speakmate-jsonl-rpc-v1+mcp-jsonrpc-2.0");
    assert!(!report.network_enabled);
    assert!(report.write_allowlist.is_empty());
    assert_eq!(
        tool_names(false, false, &[]),
        vec![
            "get_app_status",
            "list_provider_profiles",
            "list_characters",
            "run_runtime_diagnostics",
            "list_sessions",
            "export_session",
            "list_audit_events",
        ]
    );
    assert!(report.tools.iter().all(|t| t.read_only));
    assert_eq!(
        report.tools[0].description,
        "Return local database discovery, active profile, and data counts."
    );
}

#[test]
fn network_and_write_tools_follow_their_flags() {
    let with_network = tool_names(false, true, &[]);
    assert_eq!(with_network.len(), 8);
    assert_eq!(with_network[7], "generate_session_coaching_report");

    let writes = tool_names(true, false, &[]);
    assert_eq!(
        writes[7..].to_vec(),
        vec!["start_practice_session", "append_session_message", "switch_provider_profile"]
    );

    let everything = tool_names(true, true, &[]);
    assert_eq!(everything.len(), 13);
    assert_eq!(
        everything[8..].to_vec(),
        vec![
            "start_practice_session",
            "append_session_message",
            "send_message",
            "retry_last_message",
            "switch_provider_profile",
        ]
    );

    let report = build_agent_tools_report(true, true, &["send_message".to_string()]);
    assert_eq!(report.mode, "allow-writes");
    assert_eq!(report.write_allowlist, vec!["send_message".to_string()]);
    let names: Vec<String> = report.tools.iter().map(|t| t.name.clone()).collect();
    assert_eq!(names.len(), 9);
    assert_eq!(names[8], "send_message");
    assert!(!report.tools[8].read_only);
}

#[test]
fn tool_arguments_mark_the_required_ones() {
    let report = build_agent_tools_report(true, true, &[]);
    let export = report.tools.iter().find(|t| t.name == "export_session").unwrap();
    assert_eq!(required_arguments(&export.arguments), vec!["session_id".to_string()]);
    let audit = report.tools.iter().find(|t| t.name == "list_audit_events").unwrap();
    assert_eq!(audit.arguments.len(), 5);
    assert!(required_arguments(&audit.arguments).is_empty());
    let append = report.tools.iter().find(|t| t.name == "append_session_message").unwrap();
    assert_eq!(
        required_arguments(&append.arguments),
        vec!["session_id".to_string(), "role".to_string(), "content".to_string()]
    );
}

#[test]
fn serve_options_are_checked_in_order() {
    let none: Vec<String> = Vec::new();
    let one = vec!["send_message".to_string()];
    assert_eq!(
        check_serve_options(true, false, false, false, false, &none),
        Err("agent serve currently requires --stdio.".to_string())
    );
    assert_eq!(
        check_serve_options(true, true, true, true, false, &none),
        Err("agent serve cannot combine --read-only and --allow-writes.".to_string())
    );
    assert_eq!(
        check_serve_options(true, true, false, false, false, &one),
        Err("agent serve --allow-tool requires --allow-writes.".to_string())
    );
    assert_eq!(
        check_serve_options(false, true, false, false, true, &none),
        Err("agent serve --allow-network requires --read-only or --allow-writes --yes.".to_string())
    );
    assert_eq!(
        check_serve_options(false, true, true, false, false, &none),
        Err("agent serve --allow-writes requires --yes.".to_string())
    );
    assert_eq!(
        check_serve_options(false, true, false, false, false, &none),
        Err("agent serve currently requires either --read-only or --allow-writes --yes.".to_string())
    );
    assert_eq!(check_serve_options(true, true, false, false, true, &none), Ok(()));
    assert_eq!(check_serve_options(false, true, true, true, true, &one), Ok(()));
}

#[test]
fn agent_tools_resolve_through_their_gates() {
    let none: Vec<String> = Vec::new();
    assert_eq!(resolve_agent_tool("status", false, false, &none), Ok(AgentTool::Status));
    assert_eq!(resolve_agent_tool("audit_list", false, false, &none), Ok(AgentTool::ListAuditEvents));
    assert_eq!(
        resolve_agent_tool("bogus", true, true, &none),
        Err("Unknown read-only agent tool: bogus".to_string())
    );
    assert_eq!(
        resolve_agent_tool("coach_report", false, false, &none),
        Err("generate_session_coaching_report requires agent serve --allow-network.".to_string())
    );
    assert_eq!(
        resolve_agent_tool("send_message", false, true, &none),
        Err("send_message requires agent serve --allow-writes --yes.".to_string())
    );
    assert_eq!(
        resolve_agent_tool("send_message", true, false, &none),
        Err("send_message requires agent serve --allow-network.".to_string())
    );
    let only_start = vec!["start_practice_session".to_string()];
    assert_eq!(
        resolve_agent_tool("retry_last", true, true, &only_start),
        Err("retry_last_message is not enabled by this agent server allowlist.".to_string())
    );
    assert_eq!(
        resolve_agent_tool("start_practice_session", true, false, &only_start),
        Ok(AgentTool::StartPracticeSession)
    );
}

#[test]
fn mcp_instructions_depend_on_write_mode() {
    assert!(mcp_instructions(true).contains("guarded provider-profile switch tool"));
    assert_eq!(
        mcp_instructions(false),
        "SpeakMate exposes local speaking-practice diagnostics, profiles, sessions, and audit events. Tools are read-only in MCP mode and never return API keys."
    );
}

fn sample_session() -> SessionInfo {
    SessionInfo {
        id: "s7".into(),
        character_id: "emily".into(),
        character_name: Some("Emily".into()),
        title: Some("Coffee".into()),
        mode_id: None,
        mode_name: None,
        scenario_id: None,
        scenario_name: None,
        mode_prompt_suffix: None,
        scenario_description: None,
        created_at: "c".into(),
        updated_at: "u".into(),
        message_count: 2,
    }
}

fn sample_message(id: &str, role: &str, content: &str) -> MessageInfo {
    MessageInfo { id: id.into(), role: role.into(), content: content.into(), timestamp: 1 }
}

#[test]
fn chat_request_keeps_only_conversation_turns() {
    let character = CharacterPromptInfo { system_prompt: "You are Emily.".into() };
    let session = sample_session();
    let existing = vec![
        sample_message("m1", "user", "hi"),
        sample_message("m2", "system", "note"),
        sample_message("m3", "assistant", "hello"),
    ];
    let user = sample_message("m4", "user", "how are you");
    let messages = chat_completion_messages(&character, &session, &existing, &user);
    let pairs: Vec<(String, String)> = messages.into_iter().map(|m| (m.role, m.content)).collect();
    assert_eq!(
        pairs,
        vec![
            (
                "system".to_string(),
                "You are Emily.\n\n[Practice Mode: Free Talk]\nLet the conversation flow naturally and help the learner practice speaking."
                    .to_string()
            ),
            ("user".to_string(), "hi".to_string()),
            ("assistant".to_string(), "hello".to_string()),
            ("user".to_string(), "how are you".to_string()),
        ]
    );
}

#[test]
fn coaching_request_describes_the_session() {
    let session = sample_session();
    let messages = vec![sample_message("m1", "user", "hi"), sample_message("m2", "assistant", "hello")];
    let summary = session_export_summary_at(&session, &messages, "g".into());
    let request = coaching_messages(&session, &summary, "# Coffee");
    assert_eq!(request.len(), 2);
    assert_eq!(request[0].role, "system");
    assert_eq!(request[0].content, COACH_SYSTEM_PROMPT);
    assert_eq!(request[1].role, "user");
    assert_eq!(
        request[1].content,
        "Session title: Coffee\nCharacter: Emily (emily)\nPractice mode: Free Talk\nScenario: none\nMessages: 2 total, 1 user, 1 assistant.\n\nTranscript:\n# Coffee"
    );
}

#[test]
fn summary_context_lists_mode_scenario_and_corrections() {
    assert_eq!(
        build_summary_context_text(None),
        "Practice mode: Free Talk\nScenario: none\nSaved corrections: none"
    );
    let context = SummaryContext {
        practice_mode_name: "Role Play".into(),
        practice_mode_description: "Act it out".into(),
        scenario_name: Some("Cafe".into()),
        scenario_description: Some("Order a drink".into()),
        recent_corrections: vec![SummaryCorrection {
            original_text: "I goed".into(),
            corrected_text: "I went".into(),
            explanation: Some("  ".into()),
            better_expression: None,
        }],
    };
    assert_eq!(
        build_summary_context_text(Some(&context)),
        "Practice mode: Role Play\nMode goal: Act it out\nScenario: Cafe\nScenario detail: Order a drink\nSaved corrections:\n- original: I goed; corrected: I went; note: no explanation; better expression: none"
    );
}

#[test]
fn live_chat_probe_verdicts() {
    let ok = chat_check_from_probe("gpt", "https://x/v1", Ok(()));
    assert_eq!(ok.status, "success");
    assert_eq!(ok.summary, "Live chat request succeeded.");
    assert_eq!(ok.details, "The configured model 'gpt' responded from 'https://x/v1'.");
    let failed = chat_check_from_probe("gpt", "https://x/v1", Err("refused".into()));
    assert_eq!(failed.status, "error");
    assert_eq!(failed.summary, "Live chat request failed.");
    assert_eq!(failed.details, "refused");
}

#[test]
fn whisper_rejects_bad_recordings_before_sending() {
    let stt = WhisperSttProvider { base_url: "https://api.openai.com/v1".into(), api_key: "k".into() };
    let empty = AudioPayload { data: Vec::new(), mime_type: "audio/webm".into(), language: None };
    match stt.check_audio(&empty) {
        Err(ProviderError::InvalidInput(m)) => assert_eq!(m, "Audio recording is empty."),
        other => panic!("unexpected {other:?}"),
    }
    let text = AudioPayload { data: vec![1, 2], mime_type: "text/plain".into(), language: None };
    match stt.check_audio(&text) {
        Err(ProviderError::InvalidInput(m)) => assert_eq!(m, "Unsupported audio MIME type: text/plain"),
        other => panic!("unexpected {other:?}"),
    }
    let good = AudioPayload { data: vec![1, 2], mime_type: " Audio/WebM ".into(), language: None };
    assert!(stt.check_audio(&good).is_ok());
}

#[test]
fn error_texts_are_exact() {
    match api_status_error("401 Unauthorized", "bad key") {
        AppError::Api(m) => assert_eq!(m, "API returned 401 Unauthorized: bad key"),
        other => panic!("unexpected {other:?}"),
    }
    match AppError::json_parse("eof") {
        AppError::Api(m) => assert_eq!(m, "JSON parse error: eof"),
        other => panic!("unexpected {other:?}"),
    }
    match AppError::from_provider_error(ProviderError::Timeout("30s".into())) {
        AppError::Provider(m) => assert_eq!(m, "Timeout: 30s"),
        other => panic!("unexpected {other:?}"),
    }
    assert!(matches!(ProviderError::from_transport(true, "t".into()), ProviderError::Timeout(m) if m == "t"));
    assert!(matches!(ProviderError::from_transport(false, "n".into()), ProviderError::Network(m) if m == "n"));
    assert_eq!(profile_not_found("p9"), "Config profile 'p9' was not found.");
}

fn store_error(missing: bool, text: &str) -> KeyStoreError {
    KeyStoreError { missing, text: text.into() }
}

#[test]
fn key_removal_tolerates_a_missing_secret() {
    assert!(deletion_result(Ok(()), Ok(())).is_ok());
    assert!(deletion_result(Ok(()), Err(store_error(true, "none"))).is_ok());
    match deletion_result(Ok(()), Err(store_error(false, "denied"))) {
        Err(AppError::Crypto(m)) => assert_eq!(m, "Failed to delete keychain entry: denied"),
        other => panic!("unexpected {other:?}"),
    }
    match deletion_result(Err(store_error(false, "locked")), Ok(())) {
        Err(AppError::Crypto(m)) => assert_eq!(m, "Keychain error: locked"),
        other => panic!("unexpected {other:?}"),
    }
}

#[test]
fn legacy_global_key_counts_for_the_default_profile_only() {
    let found = KeyLookup::Found("k".into());
    assert!(key_present("p1", &KeyLookup::Missing, &found, &KeyLookup::Missing));
    assert!(!key_present("p1", &KeyLookup::Missing, &KeyLookup::Missing, &found));
    assert!(key_present("default", &KeyLookup::Missing, &KeyLookup::Missing, &found));
    assert!(key_present("p1", &found, &KeyLookup::Missing, &KeyLookup::Missing));
}

#[test]
fn ollama_addresses_are_recognized() {
    let chars = |s: &str| s.chars().collect::<Vec<char>>();
    assert!(is_ollama_url(&chars("http://localhost:11434/v1")));
    assert!(is_ollama_url(&chars("http://my-ollama-box:8080")));
    assert!(!is_ollama_url(&chars("https://api.openai.com/v1")));
}

fn chat_session(id: &str, character_id: &str, mode: Option<&str>, scenario: Option<&str>) -> ChatSession {
    ChatSession {
        id: id.into(),
        character_id: character_id.into(),
        title: None,
        mode_id: mode.map(String::from),
        scenario_id: scenario.map(String::from),
        created_at: "c".into(),
        updated_at: "u".into(),
        messages: Vec::new(),
    }
}

fn config_text(r: Result<(), AppError>) -> String {
    match r {
        Err(AppError::Config(m)) => m,
        other => panic!("unexpected {other:?}"),
    }
}

#[test]
fn sessions_are_checked_before_creation() {
    assert_eq!(
        config_text(validate_session_for_create(&chat_session(" ", "c", None, None), true, true, true)),
        "Session id is required."
    );
    assert_eq!(
        config_text(validate_session_for_create(&chat_session("s", "", None, None), true, true, true)),
        "Session character id is required."
    );
    assert_eq!(
        config_text(validate_session_for_create(&chat_session("s", "c9", None, None), false, true, true)),
        "Character 'c9' was not found."
    );
    assert_eq!(
        config_text(validate_session_for_create(&chat_session("s", "c", Some("drill"), None), true, false, true)),
        "Practice mode 'drill' was not found."
    );
    assert_eq!(
        config_text(validate_session_for_create(&chat_session("s", "c", None, Some("cafe")), true, true, false)),
        "Scenario 'cafe' was not found."
    );
    assert!(validate_session_for_create(&chat_session("s", "c", Some("m"), Some("x")), true, true, true).is_ok());
    assert!(ensure_session_exists("s1", true).is_ok());
    assert_eq!(config_text(ensure_session_exists("s9", false)), "Session 's9' was not found.");
}

#[test]
fn session_context_ids_are_trimmed_or_dropped() {
    let mut s = chat_session("s", "c", Some("  roleplay "), Some("   "));
    normalize_session_context(&mut s);
    assert_eq!(s.mode_id.as_deref(), Some("roleplay"));
    assert_eq!(s.scenario_id, None);
    assert_eq!(s.id, "s");
}

#[test]
fn practice_modes_have_a_fixed_order() {
    assert_eq!(practice_mode_rank("free_talk"), 0);
    assert_eq!(practice_mode_rank("roleplay"), 1);
    assert_eq!(practice_mode_rank("scenario_drill"), 2);
    assert_eq!(practice_mode_rank("ielts_speaking"), 3);
    assert_eq!(practice_mode_rank("custom"), 10);
}

#[test]
fn summary_session_ids_are_trimmed() {
    assert_eq!(summary_session_id(Some("  s1 ")), Some("s1"));
    assert_eq!(summary_session_id(Some("   ")), None);
    assert_eq!(summary_session_id(None), None);
}

fn info(id: &str) -> ProfileInfo {
    ProfileInfo {
        id: id.into(),
        name: "Name".into(),
        provider: "custom".into(),
        base_url: "https://x/v1".into(),
        model: "m".into(),
        is_default: true,
        requires_api_key: false,
        supports_stt: true,
        keychain_status: "not_read".into(),
    }
}

#[test]
fn profile_switch_paths_and_events() {
    assert_eq!(switch_path("p1", true, false), Ok(SwitchPath::ProviderProfiles));
    assert_eq!(switch_path("default", false, true), Ok(SwitchPath::LegacyDefault));
    assert_eq!(
        switch_path("p1", false, true),
        Err("provider_profiles table is missing; only legacy profile 'default' can be selected.".to_string())
    );
    let before = info("p1");
    let after = info("p2");
    assert!(switch_changed(Some(&before), &after));
    assert!(!switch_changed(Some(&after), &after));
    assert!(switch_changed(None, &after));
    let event = profile_switch_event("t".into(), "speakmate-cli", Some("/db".into()), Some(&before), &after);
    assert_eq!(event.operation, "config.profiles.switch");
    assert_eq!(event.actor, "speakmate-cli");
    assert_eq!(event.target_profile_id.as_deref(), Some("p2"));
    assert_eq!(event.previous_profile_id.as_deref(), Some("p1"));
    assert_eq!(event.result, "success");
    assert_eq!(event.details, "Active provider profile changed.");
    let same = profile_switch_event("t".into(), "a", None, Some(&after), &after);
    assert_eq!(same.details, "Requested profile was already active.");
}

#[test]
fn writes_need_an_existing_database() {
    let missing = DbInfo { path: Some("/x.db".into()), source: None, exists: false, candidates: Vec::new() };
    assert_eq!(selected_existing_path(&missing), None);
    assert_eq!(
        require_database(&missing),
        Err("No SpeakMate database was found. Start the app once or pass --db.".to_string())
    );
    let present = DbInfo { path: Some("/x.db".into()), source: Some("--db".into()), exists: true, candidates: Vec::new() };
    assert_eq!(require_database(&present), Ok("/x.db"));
    let c = make_candidate("--db", "/y.db".into(), true);
    assert_eq!((c.source.as_str(), c.path.as_str(), c.exists), ("--db", "/y.db", true));
}

#[test]
fn voices_survive_the_stored_columns() {
    let character = Character {
        id: "c".into(),
        name: "N".into(),
        language: "en".into(),
        personality: "p".into(),
        style: "s".into(),
        avatar: "a".into(),
        system_prompt: "sp".into(),
        greeting: "g".into(),
        voice_config: Some(VoiceConfig { lang: "en-US".into(), name_pattern: Some("Aria".into()) }),
    };
    let (lang, name) = voice_columns(&character);
    assert_eq!(lang.as_deref(), Some("en-US"));
    assert_eq!(name.as_deref(), Some("Aria"));
    let back = voice_from_columns(lang, name).unwrap();
    assert_eq!(back.lang, "en-US");
    assert_eq!(back.name_pattern.as_deref(), Some("Aria"));
    assert!(voice_from_columns(None, Some("Aria".into())).is_none());
}

#[test]
fn edge_voices_are_listed_with_blank_gaps() {
    let voice = EdgeVoice {
        name: "Microsoft Server Speech Text to Speech Voice (en-US, AriaNeural)".into(),
        short_name: Some("en-US-AriaNeural".into()),
        friendly_name: None,
        locale: Some("en-US".into()),
        gender: Some("Female".into()),
    };
    let listed = voice_listing(voice.clone());
    assert_eq!(listed.name, voice.name);
    assert_eq!(listed.friendly_name, "");
    assert_eq!(listed.locale, "en-US");
    assert_eq!(listed.gender, "Female");
    let edge = EdgeTtsProvider;
    assert_eq!(edge.output_mime_type(), "audio/mpeg");
    let offered = edge.voice_info(voice);
    assert_eq!(offered.id, "Microsoft Server Speech Text to Speech Voice (en-US, AriaNeural)");
    assert_eq!(offered.name, "en-US-AriaNeural");
    assert_eq!(offered.language, "en-US");
    assert_eq!(offered.gender.as_deref(), Some("Female"));
}

#[test]
fn database_locations_are_tried_in_order() {
    let pairs = |v: &[(&str, &str)]| -> Vec<(String, String)> {
        v.iter().map(|(a, b)| (a.to_string(), b.to_string())).collect()
    };
    assert_eq!(
        database_locations(Some("/a.db"), Some("/v.db"), Some("/s.db"), None),
        pairs(&[("--db", "/a.db"), ("VOXVERSE_DB", "/v.db"), ("SPEAKMATE_DB", "/s.db")])
    );
    assert!(database_locations(None, None, None, None).is_empty());
    assert_eq!(
        database_locations(None, None, Some("/s.db"), Some("/L")),
        pairs(&[
            ("SPEAKMATE_DB", "/s.db"),
            ("com.voxverse.desktop", "/L/com.voxverse.desktop/voxverse.db"),
            ("com.voxverse.app", "/L/com.voxverse.app/voxverse.db"),
            ("com.ai-speaking.desktop", "/L/com.ai-speaking.desktop/voxverse.db"),
            ("com.ai-speaking.desktop", "/L/com.ai-speaking.desktop/speakmate.db"),
            ("com.ai-speaking.app", "/L/com.ai-speaking.app/speakmate.db"),
            ("SpeakMate", "/L/SpeakMate/speakmate.db"),
        ])
    );
}

#[test]
fn legacy_audit_log_is_read_when_no_current_one_exists() {
    let db = DbInfo { path: Some("/data/voxverse.db".into()), source: None, exists: true, candidates: Vec::new() };
    let (current, legacy) = resolve_audit_log_paths(&db).unwrap();
    assert_eq!(current, "/data/voxverse-audit.jsonl");
    assert_eq!(legacy, "/data/speakmate-audit.jsonl");
    assert_eq!(audit_log_to_read(current.clone(), true, legacy.clone(), true), (current.clone(), true));
    assert_eq!(audit_log_to_read(current.clone(), false, legacy.clone(), true), (legacy.clone(), true));
    assert_eq!(audit_log_to_read(current.clone(), false, legacy, false), (current, false));
    let nowhere = DbInfo { path: None, source: None, exists: false, candidates: Vec::new() };
    assert_eq!(resolve_audit_log_paths(&nowhere), None);
}

#[test]
fn chat_requests_start_with_the_system_prompt() {
    let payloads = vec![
        MessagePayload { role: "user".into(), content: "Hi".into() },
        MessagePayload { role: "assistant".into(), content: "Hello!".into() },
    ];
    let messages = chat_request_messages("Be kind.".into(), &payloads);
    let pairs: Vec<(String, String)> = messages.into_iter().map(|m| (m.role, m.content)).collect();
    assert_eq!(
        pairs,
        vec![
            ("system".to_string(), "Be kind.".to_string()),
            ("user".to_string(), "Hi".to_string()),
            ("assistant".to_string(), "Hello!".to_string()),
        ]
    );
    assert_eq!(chat_request_messages(String::new(), &[]).len(), 1);
}

#[test]
fn new_corrections_get_a_fresh_id_and_the_current_time() {
    let input = SaveCorrectionInput {
        session_id: None,
        original_text: " I goed ".into(),
        corrected_text: "I went".into(),
        explanation: None,
        better_expression: Some("  ".into()),
        created_at: None,
    };
    let record = new_correction(input, false).unwrap();
    assert!(record.id.starts_with("corr-"));
    assert_eq!(record.original_text, "I goed");
    assert_eq!(record.better_expression, None);
    assert!(!record.created_at.is_empty());
    let blank = SaveCorrectionInput {
        session_id: Some("s".into()),
        original_text: "a".into(),
        corrected_text: " ".into(),
        explanation: None,
        better_expression: None,
        created_at: None,
    };
    match new_correction(blank, true) {
        Err(AppError::Config(m)) => assert_eq!(m, "Correction corrected text is required."),
        other => panic!("unexpected {other:?}"),
    }
}

#[test]
fn relationships_start_empty_and_are_stamped_on_update() {
    let mut state = fresh_relationship_state("c1");
    assert_eq!(state.character_id, "c1");
    assert_eq!(state.id.len(), 36);
    assert_eq!((state.intimacy_level, state.trust_level), (0, 0));
    assert!(state.plot_stage.is_none() && state.learning_goal.is_none());
    let other = fresh_relationship_state("c1");
    assert_ne!(state.id, other.id);
    state.updated_at = String::new();
    apply_relationship_update_now(
        &mut state,
        RelationshipChanges {
            intimacy_level: Some(40),
            trust_level: None,
            plot_stage: Some("friends".into()),
            user_preferences: None,
            boundaries: None,
            commitments: None,
        },
    );
    assert_eq!((state.intimacy_level, state.trust_level), (40, 0));
    assert_eq!(state.plot_stage.as_deref(), Some("friends"));
    assert!(!state.updated_at.is_empty());
}

#[test]
fn new_profiles_are_checked_in_order_and_get_fresh_ids() {
    assert_eq!(
        create_profile_config("  ", None, AiProvider::Ollama, "http://localhost:11434/v1", "", "llama3").unwrap_err(),
        "Profile name is required."
    );
    assert_eq!(
        create_profile_config(" Work ", Some("p0"), AiProvider::Ollama, "x", "", "").unwrap_err(),
        "A config profile named 'Work' already exists."
    );
    assert_eq!(
        create_profile_config("Work", None, AiProvider::Ollama, "ftp://x", "", "m").unwrap_err(),
        "API base URL must start with http:// or https://."
    );
    assert_eq!(
        create_profile_config("Work", None, AiProvider::OpenAi, "https://api.openai.com/v1", "  ", "gpt-4o-mini")
            .unwrap_err(),
        "This provider requires an API key for a new profile."
    );
    let config =
        create_profile_config(" Local ", None, AiProvider::Ollama, " http://localhost:11434/v1 ", "", " llama3 ")
            .unwrap();
    assert_eq!(config.profile_name, "Local");
    assert_eq!(config.base_url, "http://localhost:11434/v1");
    assert_eq!(config.model, "llama3");
    assert!(!config.has_keychain_entry);
    assert_eq!(config.profile_id.len(), 36);
}

#[test]
fn model_runs_are_audited_with_their_targets() {
    let ok = model_run_succeeded_event(
        ModelRun::Send,
        "t".into(),
        "speakmate-cli",
        Some("/db".into()),
        "p1",
        "s1",
        "msg-2",
        Some("emily".into()),
    );
    assert_eq!(ok.operation, "practice.message.send");
    assert_eq!(ok.result, "success");
    assert_eq!(ok.details, "User message sent to model and assistant response appended.");
    assert_eq!(
        (ok.target_profile_id.as_deref(), ok.target_session_id.as_deref(), ok.target_message_id.as_deref()),
        (Some("p1"), Some("s1"), Some("msg-2"))
    );
    assert_eq!(ok.target_character_id.as_deref(), Some("emily"));
    assert_eq!(ok.previous_profile_id, None);
    let failed = model_run_failed_event(
        ModelRun::Retry,
        "t".into(),
        "speakmate-agent",
        None,
        "p1",
        "s1",
        "msg-1",
        "emily",
        "timeout",
    );
    assert_eq!(failed.operation, "practice.message.retry_last");
    assert_eq!(failed.result, "failure");
    assert_eq!(failed.details, "Model retry failed for last user message: timeout");
    assert_eq!(failed.target_message_id.as_deref(), Some("msg-1"));
    let sent_failed = model_run_failed_event(ModelRun::Send, "t".into(), "a", None, "p", "s", "m", "c", "boom");
    assert_eq!(sent_failed.details, "Model call failed after user message append: boom");
}

#[test]
fn keys_live_per_profile_with_legacy_fallbacks() {
    let pairs = |v: &[(&str, &str)]| -> Vec<(String, String)> {
        v.iter().map(|(a, b)| (a.to_string(), b.to_string())).collect()
    };
    assert_eq!(
        key_entries("p1"),
        pairs(&[("voxverse", "api-key:p1"), ("speakmate", "api-key:p1")])
    );
    assert_eq!(
        key_entries("default"),
        pairs(&[("voxverse", "api-key:default"), ("speakmate", "api-key:default"), ("speakmate", "api-key")])
    );
}

#[test]
fn provider_errors_convert_with_their_text() {
    let converted: AppError = AppError::from(ProviderError::Timeout("took too long".into()));
    match &converted {
        AppError::Provider(m) => assert_eq!(m, "Timeout: took too long"),
        other => panic!("unexpected {other:?}"),
    }
    assert_eq!(converted.to_string(), "Provider error: Timeout: took too long");
}

#[test]
fn profile_listing_reports_the_keychain_unread() {
    let rows = vec![
        ProfileRow {
            id: "default".into(),
            name: "Default".into(),
            provider: "bogus".into(),
            base_url: "https://api.openai.com/v1".into(),
            model: "gpt-4o-mini".into(),
            is_default: 1,
        },
        ProfileRow {
            id: "local".into(),
            name: "Local".into(),
            provider: "custom".into(),
            base_url: "http://localhost:11434/v1".into(),
            model: "llama3".into(),
            is_default: 0,
        },
    ];
    let listed = profiles_from_rows(rows);
    assert_eq!(listed.len(), 2);
    assert_eq!((listed[0].provider.as_str(), listed[0].is_default, listed[0].requires_api_key), ("openai", true, true));
    assert_eq!((listed[1].provider.as_str(), listed[1].supports_stt), ("custom", true));
    assert!(listed.iter().all(|p| p.keychain_status == "not_read"));
}

fn cli(words: &[&str]) -> String {
    format!("{:?}", parse_args(words.iter().map(|w| w.to_string()).collect()))
}

#[test]
fn option_values_may_follow_an_equals_sign() {
    assert_eq!(
        cli(&["session", "export", "--session", "s1", "--json"]),
        cli(&["session", "export", "--session=s1", "--json"])
    );
    assert_eq!(
        cli(&["audit", "list", "--limit", "7", "--actor", "voxverse-cli"]),
        cli(&["audit", "list", "--limit=7", "--actor=voxverse-cli"])
    );
    assert_eq!(
        cli(&["--db", "/x.db", "status"]),
        cli(&["--db=/x.db", "status"])
    );
}
