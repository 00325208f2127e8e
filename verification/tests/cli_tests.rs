use voxverse::cli::agent::ensure_network_enabled;
use voxverse::cli::args::{parse_args, Command};
use voxverse::cli::audit::{audit_event_matches_filter, build_audit_filter, AuditEvent};
use voxverse::cli::report::{build_cli_system_prompt, CharacterPromptInfo, SessionInfo};

fn args(values: &[&str]) -> Vec<String> {
    values.iter().map(|value| (*value).into()).collect()
}

#[test]
fn parses_session_coach_report_as_network_read_command() {
    let options = parse_args(args(&[
        "session",
        "coach-report",
        "--session",
        "sess-1",
        "--allow-network",
        "--json",
    ]))
    .expect("coach-report args should parse");

    assert!(options.json);
    match options.command {
        Command::SessionCoachReport {
            session_id,
            allow_network,
        } => {
            assert_eq!(session_id, "sess-1");
            assert!(allow_network);
        }
        _ => panic!("expected SessionCoachReport"),
    }
}

#[test]
fn parses_agent_write_allowlist_from_comma_separated_value() {
    let options = parse_args(args(&[
        "agent",
        "tools",
        "list",
        "--allow-writes",
        "--allow-tool",
        "send_message,retry_last_message",
    ]))
    .expect("agent tools args should parse");

    match options.command {
        Command::AgentToolsList { allowed_tools, .. } => {
            assert_eq!(allowed_tools, vec!["send_message", "retry_last_message"]);
        }
        _ => panic!("expected AgentToolsList"),
    }
}

#[test]
fn parses_session_start_context_flags() {
    let options = parse_args(args(&[
        "session",
        "start",
        "--character",
        "emily",
        "--title",
        "Mock interview",
        "--mode",
        "ielts_speaking",
        "--scenario",
        "interview",
        "--yes",
        "--json",
    ]))
    .expect("session start args should parse");

    assert!(options.json);
    match options.command {
        Command::SessionStart {
            character_id,
            title,
            mode_id,
            scenario_id,
            yes,
        } => {
            assert_eq!(character_id, "emily");
            assert_eq!(title.as_deref(), Some("Mock interview"));
            assert_eq!(mode_id.as_deref(), Some("ielts_speaking"));
            assert_eq!(scenario_id.as_deref(), Some("interview"));
            assert!(yes);
        }
        _ => panic!("expected SessionStart"),
    }
}

#[test]
fn cli_system_prompt_orders_character_mode_then_scenario() {
    let character = CharacterPromptInfo {
        system_prompt: "You are Emily.".into(),
    };
    let session = SessionInfo {
        id: "sess-1".into(),
        character_id: "emily".into(),
        character_name: Some("Emily".into()),
        title: Some("Interview".into()),
        mode_id: Some("roleplay".into()),
        mode_name: Some("Roleplay".into()),
        scenario_id: Some("interview".into()),
        scenario_name: Some("Job Interview".into()),
        mode_prompt_suffix: Some("Stay in roleplay.".into()),
        scenario_description: Some("Ask interview questions.".into()),
        created_at: "2026-05-16T00:00:00Z".into(),
        updated_at: "2026-05-16T00:00:00Z".into(),
        message_count: 0,
    };

    let prompt = build_cli_system_prompt(&character, &session);
    let character_index = prompt.find("You are Emily.").unwrap();
    let mode_index = prompt.find("[Practice Mode: Roleplay]").unwrap();
    let scenario_index = prompt.find("[Current Scenario: Job Interview]").unwrap();

    assert!(character_index < mode_index);
    assert!(mode_index < scenario_index);
    assert!(prompt.contains("Stay in roleplay."));
    assert!(prompt.contains("Ask interview questions."));
}

#[test]
fn rejects_network_tool_when_network_gate_is_closed() {
    let error = ensure_network_enabled("send_message", false)
        .expect_err("network gate should reject disabled network access");
    assert!(error.contains("--allow-network"));
    assert!(ensure_network_enabled("send_message", true).is_ok());
}

#[test]
fn audit_filter_matches_operation_actor_and_target_session() {
    let event = AuditEvent {
        timestamp: "2026-04-28T00:00:00Z".into(),
        operation: "practice.message.send".into(),
        actor: "speakmate-cli".into(),
        db_path: Some("speakmate.db".into()),
        target_profile_id: Some("default".into()),
        target_session_id: Some("sess-1".into()),
        target_message_id: Some("msg-1".into()),
        target_character_id: Some("emily".into()),
        previous_profile_id: None,
        result: "success".into(),
        details: "ok".into(),
    };
    let filter = build_audit_filter(
        Some("practice.message.send".into()),
        Some("SPEAKMATE-CLI".into()),
        Some("success".into()),
        None,
        Some("sess-1".into()),
        None,
        None,
    );

    assert!(audit_event_matches_filter(&event, &filter));
}
