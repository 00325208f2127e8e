//! Runtime diagnostics: the verdict on each of chat, speech input and
//! speech output, from the configuration and from what the live probes
//! reported.

use vstd::prelude::*;
use crate::state::AiProvider;
use crate::text;

verus! {

/// The verdict on one part of the runtime.
#[derive(Debug, Clone)]
pub struct DiagnosticCheck {
    /// `success`, `warning` or `error`.
    pub status: String,
    pub summary: String,
    pub details: String,
}

/// The verdicts on chat, speech-to-text and text-to-speech.
#[derive(Debug, Clone)]
pub struct RuntimeDiagnostics {
    pub chat: DiagnosticCheck,
    pub stt: DiagnosticCheck,
    pub tts: DiagnosticCheck,
}

/// Whether `c` reads `status`, `summary`, `details`.
pub open spec fn reads(c: DiagnosticCheck, status: Seq<char>, summary: Seq<char>, details: Seq<char>) -> bool {
    c.status@ == status && c.summary@ == summary && c.details@ == details
}

fn check(status: &str, summary: &str, details: String) -> (r: DiagnosticCheck)
    ensures
        reads(r, status@, summary@, details@),
{
    DiagnosticCheck { status: text::owned(status), summary: text::owned(summary), details }
}

/// The chat verdict when no live request can be made: a provider that
/// needs a key has none.
pub fn chat_check_blocked(provider: AiProvider, has_key: bool) -> (r: Option<DiagnosticCheck>)
    ensures
        provider.requires_key_spec() && !has_key ==> r is Some && reads(
            r->Some_0,
            "error"@,
            "Chat endpoint is not ready yet."@,
            "This provider requires an API key. Save a key in Settings, then run diagnostics again."@,
        ),
        !(provider.requires_key_spec() && !has_key) ==> r is None,
{
    if provider.requires_api_key() && !has_key {
        Some(check("error", "Chat endpoint is not ready yet.", text::owned("This provider requires an API key. Save a key in Settings, then run diagnostics again.")))
    } else {
        None
    }
}

/// The chat verdict from a live request: success names the model and the
/// endpoint, failure carries the error.
pub fn chat_check_from_probe(model: &str, base_url: &str, probe: Result<(), String>) -> (r: DiagnosticCheck)
    ensures
        probe is Ok ==> reads(
            r,
            "success"@,
            "Live chat request succeeded."@,
            "The configured model '"@ + model@ + "' responded from '"@ + base_url@ + "'."@,
        ),
        probe matches Err(e) ==> reads(r, "error"@, "Live chat request failed."@, e@),
{
    match probe {
        Ok(()) => {
            let mut d = crate::error::prefixed("The configured model '", model);
            d.append("' responded from '");
            d.append(base_url);
            d.append("'.");
            check("success", "Live chat request succeeded.", d)
        },
        Err(e) => check("error", "Live chat request failed.", e),
    }
}

/// The verdict on voice input: disabled when the provider has no Whisper
/// endpoint, blocked when a needed key is missing, uncertain without a key,
/// ready with one.
pub fn stt_check(provider: AiProvider, has_key: bool) -> (r: DiagnosticCheck)
    ensures
        !provider.supports_stt_spec() ==> reads(
            r,
            "warning"@,
            "Whisper STT is disabled for this provider."@,
            "The current Ollama path is treated as chat-only for Whisper. The frontend can still try browser speech recognition when the WebView supports it."@,
        ),
        provider.supports_stt_spec() && provider.requires_key_spec() && !has_key ==> reads(
            r,
            "error"@,
            "Whisper STT is blocked by missing credentials."@,
            "Save an API key before testing voice input with the microphone."@,
        ),
        provider.supports_stt_spec() && !provider.requires_key_spec() && !has_key ==> reads(
            r,
            "warning"@,
            "Whisper STT is configuration-ready, but auth is uncertain."@,
            "This endpoint may still require an API key. If microphone transcription fails later, save credentials and retry."@,
        ),
        provider.supports_stt_spec() && has_key ==> reads(
            r,
            "success"@,
            "Whisper STT is ready for a live microphone test."@,
            "The provider supports speech transcription and a key is already stored. Use the mic button once to verify end-to-end recording and upload."@,
        ),
{
    if !provider.supports_whisper_stt() {
        check("warning", "Whisper STT is disabled for this provider.", text::owned("The current Ollama path is treated as chat-only for Whisper. The frontend can still try browser speech recognition when the WebView supports it."))
    } else if provider.requires_api_key() && !has_key {
        check("error", "Whisper STT is blocked by missing credentials.", text::owned("Save an API key before testing voice input with the microphone."))
    } else if !has_key {
        check("warning", "Whisper STT is configuration-ready, but auth is uncertain.", text::owned("This endpoint may still require an API key. If microphone transcription fails later, save credentials and retry."))
    } else {
        check("success", "Whisper STT is ready for a live microphone test.", text::owned("The provider supports speech transcription and a key is already stored. Use the mic button once to verify end-to-end recording and upload."))
    }
}

/// The text-to-speech verdict from loading the voice list: how many voices
/// came, or why none did.
pub fn tts_check(voices: Result<u64, String>) -> (r: DiagnosticCheck)
    ensures
        voices matches Ok(n) ==> reads(
            r,
            "success"@,
            "Edge TTS voice catalog loaded."@,
            "Loaded "@ + text::dec(n as nat) + " voices from Edge TTS. Use the preview button in Settings to confirm playback."@,
        ),
        voices matches Err(e) ==> reads(r, "error"@, "Edge TTS voice catalog could not be loaded."@, e@),
{
    match voices {
        Ok(n) => {
            let mut d = text::owned("Loaded ");
            text::push_dec(&mut d, n);
            d.append(" voices from Edge TTS. Use the preview button in Settings to confirm playback.");
            check("success", "Edge TTS voice catalog loaded.", d)
        },
        Err(e) => check("error", "Edge TTS voice catalog could not be loaded.", e),
    }
}

} // verus!
