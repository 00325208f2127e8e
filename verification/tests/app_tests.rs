use voxverse::commands::chat::{validate_profile_name, validate_provider_fields};
use voxverse::commands::session::{normalize_optional_id, validate_message_role};
use voxverse::error::AppError;
use voxverse::providers::llm_provider::OpenAiCompatibleProvider;
use voxverse::providers::provider_error::ProviderError;
use voxverse::providers::stt_provider::AudioPayload;
use voxverse::providers::tts_provider::{AudioOutput, EdgeTtsProvider, VoiceConfig};
use voxverse::services::feedback::{
    build_correction_prompt, build_polish_prompt, build_summary_prompt, build_translation_prompt,
};
use voxverse::services::stt::{validate_audio_payload, MAX_STT_AUDIO_BYTES};
use voxverse::services::tts::{validate_tts_text, MAX_TTS_TEXT_CHARS};
use voxverse::state::{AiProvider, ApiConfig, DEFAULT_PROFILE_ID};

#[test]
fn validates_profile_name_boundaries() {
    assert_eq!(validate_profile_name("  Work  ").unwrap(), "Work");
    assert!(validate_profile_name("   ").is_err());
    assert!(validate_profile_name(&"a".repeat(81)).is_err());
}

#[test]
fn validates_provider_fields() {
    let (base_url, model) =
        validate_provider_fields("  http://localhost:11434/v1  ", " llama3.2 ").unwrap();
    assert_eq!(base_url, "http://localhost:11434/v1");
    assert_eq!(model, "llama3.2");
    assert!(validate_provider_fields("", "gpt-4o-mini").is_err());
    assert!(validate_provider_fields("api.openai.com/v1", "gpt-4o-mini").is_err());
    assert!(validate_provider_fields("https://api.openai.com/v1", "").is_err());
}

#[test]
fn accepts_supported_message_roles() {
    assert!(validate_message_role("user").is_ok());
    assert!(validate_message_role("assistant").is_ok());
    assert!(validate_message_role("system").is_ok());
}

#[test]
fn rejects_unsupported_message_roles() {
    assert!(validate_message_role("tool").is_err());
    assert!(validate_message_role("").is_err());
}

#[test]
fn normalizes_optional_session_context_ids() {
    assert_eq!(
        normalize_optional_id(Some(" roleplay ".into())),
        Some("roleplay".into())
    );
    assert_eq!(normalize_optional_id(Some("   ".into())), None);
    assert_eq!(normalize_optional_id(None), None);
}

#[test]
fn openai_provider_has_correct_name() {
    let provider = OpenAiCompatibleProvider {
        base_url: "https://api.openai.com/v1".into(),
        api_key: "test".into(),
    };
    assert_eq!(provider.name(), "OpenAI Compatible");
}

#[test]
fn provider_error_displays_category() {
    let err = ProviderError::Auth("bad key".into());
    assert!(err.to_string().contains("Authentication"));

    let err = ProviderError::RateLimit {
        retry_after_ms: Some(5000),
        message: "too fast".into(),
    };
    assert!(err.to_string().contains("Rate limited"));
}

#[test]
fn provider_error_converts_to_app_error() {
    let provider_err = ProviderError::Timeout("took too long".into());
    let app_err: AppError = provider_err.into();
    let msg = app_err.to_string();
    assert!(msg.contains("Provider"));
    assert!(msg.contains("Timeout"));
}

#[test]
fn audio_payload_can_be_constructed() {
    let payload = AudioPayload {
        data: vec![1, 2, 3],
        mime_type: "audio/webm".into(),
        language: Some("en".into()),
    };
    assert_eq!(payload.data.len(), 3);
    assert!(payload.language.is_some());
}

#[test]
fn edge_tts_provider_has_correct_name() {
    let provider = EdgeTtsProvider;
    assert_eq!(provider.name(), "Edge TTS");
}

#[test]
fn voice_config_can_be_constructed() {
    let config = VoiceConfig {
        voice_id: "en-US-AriaNeural".into(),
        language: Some("en-US".into()),
    };
    assert_eq!(config.voice_id, "en-US-AriaNeural");
}

#[test]
fn audio_output_stores_data() {
    let output = AudioOutput {
        data: vec![0xFF, 0xFB],
        mime_type: "audio/mpeg".into(),
    };
    assert_eq!(output.data.len(), 2);
    assert_eq!(output.mime_type, "audio/mpeg");
}

#[test]
fn correction_prompt_demands_json_and_contains_source_text() {
    let messages = build_correction_prompt("I has a apple.");
    assert_eq!(messages.len(), 2);
    assert!(messages[0].content.contains("ONLY valid JSON"));
    assert!(messages[1].content.contains("hasErrors"));
    assert!(messages[1].content.contains("I has a apple."));
}

#[test]
fn translation_prompt_includes_target_language() {
    let messages = build_translation_prompt("Good morning", "中文");
    assert!(messages[1]
        .content
        .contains("Translate the following text to 中文"));
    assert!(messages[1].content.contains("Good morning"));
}

#[test]
fn summary_prompt_preserves_role_order() {
    let messages = build_summary_prompt(
        &[
            ("user".into(), "Hello".into()),
            ("assistant".into(), "Hi there".into()),
        ],
        None,
    );
    let prompt = &messages[1].content;
    assert!(prompt.contains("user: Hello\nassistant: Hi there"));
    assert!(prompt.contains("overallScore"));
    assert!(prompt.contains("scoreBreakdown"));
    assert!(prompt.contains("nextDrills"));
}

#[test]
fn polish_prompt_requests_change_rationale() {
    let messages = build_polish_prompt("I want speak better.");
    assert!(messages[1].content.contains("\"polished\""));
    assert!(messages[1].content.contains("\"reason\""));
}

#[test]
fn validates_supported_audio_payload() {
    assert!(validate_audio_payload(&[1, 2, 3], "audio/webm;codecs=opus").is_ok());
}

#[test]
fn rejects_empty_audio_payload() {
    assert!(validate_audio_payload(&[], "audio/webm").is_err());
}

#[test]
fn rejects_oversized_audio_payload() {
    let payload = vec![0; MAX_STT_AUDIO_BYTES + 1];
    let error = validate_audio_payload(&payload, "audio/webm").unwrap_err();
    assert!(error.contains("too large"));
}

#[test]
fn rejects_non_audio_mime_type() {
    let error = validate_audio_payload(&[1, 2, 3], "application/json").unwrap_err();
    assert!(error.contains("Unsupported audio MIME type"));
}

#[test]
fn accepts_trimmed_tts_text() {
    assert_eq!(validate_tts_text("  hello  ").unwrap(), "hello");
}

#[test]
fn rejects_empty_tts_text() {
    assert!(validate_tts_text("   ").is_err());
}

#[test]
fn rejects_oversized_tts_text() {
    let long_text = "a".repeat(MAX_TTS_TEXT_CHARS + 1);
    let error = validate_tts_text(&long_text).unwrap_err();
    assert!(error.contains("too long"));
}

#[test]
fn infers_ollama_from_local_base_url() {
    assert_eq!(
        AiProvider::infer_from_base_url("http://localhost:11434/v1"),
        AiProvider::Ollama
    );
    assert_eq!(
        AiProvider::infer_from_base_url("http://127.0.0.1:11434/v1"),
        AiProvider::Ollama
    );
}

#[test]
fn infers_openai_from_official_base_url() {
    assert_eq!(
        AiProvider::infer_from_base_url("https://api.openai.com/v1"),
        AiProvider::OpenAi
    );
}

#[test]
fn provider_capabilities_match_v0_1_boundaries() {
    assert!(AiProvider::OpenAi.requires_api_key());
    assert!(!AiProvider::Ollama.requires_api_key());
    assert!(AiProvider::Custom.supports_whisper_stt());
    assert!(!AiProvider::Ollama.supports_whisper_stt());
}

#[test]
fn default_config_uses_default_profile_without_key_material() {
    let config = ApiConfig::default();
    assert_eq!(config.profile_id, DEFAULT_PROFILE_ID);
    assert_eq!(config.provider, AiProvider::OpenAi);
    assert!(!config.has_keychain_entry);
}
