use voxverse::commands::feedback::{
    correction_session_id, new_correction, prepare_correction, SaveCorrectionInput,
};
use voxverse::commands::session::validate_session_context;
use voxverse::protocol::session_event::InterruptReason;
use voxverse::providers::llm_provider::ChatMessage;
use voxverse::providers::stt_provider::WhisperSttProvider;
use voxverse::repositories::memory::RelationshipStateRecord;
use voxverse::services::memory_service::{
    build_memory_prompt_injection, build_relationship_context, new_relationship_state, MemoryNote,
};
use voxverse::services::orchestrator::{SessionConfig, SessionOrchestrator};
use voxverse::services::tool_router::{
    SaveMemoryArgs, SaveMemoryTool, ToolExecutionContext, ToolRouter,
};

#[test]
fn whisper_provider_has_correct_name() {
    let provider = WhisperSttProvider {
        base_url: "https://api.openai.com/v1".into(),
        api_key: "test".into(),
    };
    assert_eq!(provider.name(), "Whisper");
    assert!(!provider.supports_streaming());
}

fn note(fact_type: &str, content: &str) -> MemoryNote {
    MemoryNote {
        fact_type: fact_type.into(),
        content: content.into(),
        is_visible: true,
    }
}

#[test]
fn builds_memory_injection_from_facts() {
    let facts = vec![
        note("preference", "User likes coffee"),
        note("event", "Had a great chat yesterday"),
    ];
    let injection = build_memory_prompt_injection(&facts);
    assert!(injection.is_some());
    let text = injection.unwrap();
    assert!(text.contains("User likes coffee"));
    assert!(text.contains("[Preference]"));
    assert!(text.contains("[Event]"));
}

#[test]
fn returns_none_for_empty_memory() {
    let injection = build_memory_prompt_injection(&[]);
    assert!(injection.is_none());
}

#[test]
fn ensures_relationship_state_exists() {
    let state = new_relationship_state("rel-1".into(), "c1", "2026-06-01T00:00:00Z".into());
    assert_eq!(state.intimacy_level, 0);
    assert_eq!(state.character_id, "c1");
    let state2 = state.clone();
    assert_eq!(state2.id, state.id);
}

#[test]
fn builds_relationship_context() {
    let mut state: RelationshipStateRecord =
        new_relationship_state("rel-1".into(), "c1", "2026-06-01T00:00:00Z".into());
    state.intimacy_level = 5;
    state.trust_level = 3;
    state.plot_stage = Some("friends".into());
    state.learning_goal = Some("Practice past tense stories".into());

    let context = build_relationship_context(Some(&state));
    assert!(context.is_some());
    let text = context.unwrap();
    assert!(text.contains("intimacy=5"));
    assert!(text.contains("trust=3"));
    assert!(text.contains("friends"));
    assert!(text.contains("Practice past tense stories"));
}

fn test_config() -> SessionConfig {
    SessionConfig {
        system_prompt: "You are a helpful assistant.".into(),
        character_id: "char-1".into(),
        session_id: "sess-1".into(),
        model: "gpt-4o-mini".into(),
        prompt_suffix: "Be concise.".into(),
    }
}

#[test]
fn builds_system_prompt_with_suffix() {
    let orch = SessionOrchestrator::new(test_config());
    let prompt = orch.build_system_prompt(None);
    assert!(prompt.contains("You are a helpful assistant."));
    assert!(prompt.contains("Be concise."));
}

#[test]
fn builds_system_prompt_with_memory_context() {
    let orch = SessionOrchestrator::new(test_config());
    let prompt = orch.build_system_prompt(Some("User likes coffee."));
    assert!(prompt.contains("[Memory Context]"));
    assert!(prompt.contains("User likes coffee."));
}

#[test]
fn builds_messages_with_system_and_history() {
    let orch = SessionOrchestrator::new(test_config());
    let history = vec![
        ChatMessage {
            role: "user".into(),
            content: "Hi".into(),
        },
        ChatMessage {
            role: "assistant".into(),
            content: "Hello!".into(),
        },
    ];
    let messages = orch.build_messages(&history, None);
    assert_eq!(messages.len(), 3);
    assert_eq!(messages[0].role, "system");
}

#[test]
fn orchestrator_has_built_in_tools() {
    let orch = SessionOrchestrator::new(test_config());
    let defs = orch.tool_definitions();
    assert!(!defs.is_empty());
    assert!(defs.iter().any(|d| d.name == "save_memory"));
}

#[test]
fn tool_router_registers_and_finds_tools() {
    let mut router = ToolRouter::new();
    router.register(SaveMemoryTool.definition());
    assert!(router.has_tool("save_memory"));
    assert!(!router.has_tool("nonexistent"));
}

#[test]
fn tool_router_lists_definitions() {
    let mut router = ToolRouter::new();
    router.register(SaveMemoryTool.definition());
    let defs = router.tool_definitions();
    assert_eq!(defs.len(), 1);
    assert_eq!(defs[0].name, "save_memory");
}

fn coffee_args() -> SaveMemoryArgs {
    SaveMemoryArgs {
        content: Some("User likes coffee".into()),
        fact_type: Some("preference".into()),
    }
}

fn full_context() -> ToolExecutionContext {
    ToolExecutionContext {
        has_database: true,
        character_id: Some("c1".into()),
        session_id: Some("s1".into()),
        source_turn_id: Some("m1".into()),
    }
}

#[test]
fn tool_router_executes_known_tool() {
    let mut router = ToolRouter::new();
    router.register(SaveMemoryTool.definition());
    let result = router
        .execute_with_context("save_memory", &coffee_args(), &full_context())
        .unwrap();
    assert_eq!(result.content, "User likes coffee");
}

#[test]
fn tool_router_rejects_unknown_tool() {
    let router = ToolRouter::new();
    let result = router.execute_with_context(
        "nonexistent",
        &SaveMemoryArgs {
            content: None,
            fact_type: None,
        },
        &ToolExecutionContext::default(),
    );
    assert!(result.is_err());
}

#[test]
fn save_memory_tool_persists_fact() {
    let fact = SaveMemoryTool.prepare(&coffee_args(), &full_context()).unwrap();
    assert_eq!(fact.character_id, "c1");
    assert_eq!(fact.session_id.as_deref(), Some("s1"));
    assert_eq!(fact.fact_type, "preference");
    assert_eq!(fact.source_turn_id.as_deref(), Some("m1"));
}

#[test]
fn save_memory_tool_requires_context() {
    let result = SaveMemoryTool.prepare(&coffee_args(), &ToolExecutionContext::default());
    assert!(result.is_err());
}

#[test]
fn validates_session_context_against_known_mode_and_scenario() {
    // "roleplay" and "interview" are known; "missing" is not.
    assert!(validate_session_context(Some("roleplay"), Some("interview"), true, true).is_ok());
    assert!(validate_session_context(Some("missing"), Some("interview"), false, true).is_err());
    assert!(validate_session_context(Some("roleplay"), Some("missing"), true, false).is_err());
}

#[test]
fn interrupt_reason_serializes_as_snake_case() {
    assert!(InterruptReason::UserBarged.wire_name().contains("user_barged"));
}

fn correction(session_id: Option<&str>, original: &str, corrected: &str) -> SaveCorrectionInput {
    SaveCorrectionInput {
        session_id: session_id.map(|s| s.to_string()),
        original_text: original.into(),
        corrected_text: corrected.into(),
        explanation: Some(" Subject verb agreement. ".into()),
        better_expression: Some("A more natural expression.".into()),
        created_at: Some("2026-05-16T00:00:00Z".into()),
    }
}

#[test]
fn persists_correction_with_trimmed_content_and_uuid_ids() {
    let first = new_correction(
        correction(Some(" session-1 "), " I has apple ", "Corrected sentence."),
        true,
    )
    .unwrap();
    let second = new_correction(
        correction(Some(" session-1 "), " She go home ", "Corrected sentence."),
        true,
    )
    .unwrap();
    assert_eq!(first.original_text, "I has apple");
    assert_eq!(first.session_id.as_deref(), Some("session-1"));
    assert_eq!(first.explanation.as_deref(), Some("Subject verb agreement."));
    assert_eq!(first.created_at, "2026-05-16T00:00:00Z");
    assert_ne!(first.id, second.id);
    assert!(first.id.starts_with("corr-"));
    assert_eq!(first.id.len(), "corr-".len() + 36);
    let fixed = prepare_correction(
        correction(None, "x", "y"),
        false,
        "0b7e3e6a-1111-4222-8333-444455556666",
        "2026-06-01T00:00:00Z".into(),
    )
    .unwrap();
    assert_eq!(fixed.id, "corr-0b7e3e6a-1111-4222-8333-444455556666");
}

#[test]
fn rejects_correction_for_unknown_session() {
    let input = SaveCorrectionInput {
        session_id: Some("missing-session".into()),
        original_text: "I has apple".into(),
        corrected_text: "I have an apple.".into(),
        explanation: None,
        better_expression: None,
        created_at: None,
    };
    assert_eq!(
        correction_session_id(&input).as_deref(),
        Some("missing-session")
    );
    let result = prepare_correction(input, false, "uuid", "2026-06-01T00:00:00Z".into());
    assert!(result.is_err());
}
