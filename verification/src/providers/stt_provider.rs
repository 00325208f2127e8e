//! The speech-to-text provider: recorded audio and the Whisper back end.

use vstd::prelude::*;
use crate::providers::provider_error::ProviderError;
use crate::services::stt;

verus! {

/// Recorded audio handed to a speech-to-text provider.
#[derive(Debug, Clone)]
pub struct AudioPayload {
    pub data: Vec<u8>,
    pub mime_type: String,
    pub language: Option<String>,
}

/// OpenAI's Whisper transcription endpoint.
#[derive(Debug, Clone)]
pub struct WhisperSttProvider {
    pub base_url: String,
    pub api_key: String,
}

impl WhisperSttProvider {
    /// The provider's display name.
    pub fn name(&self) -> (r: &'static str)
        ensures
            r@ == "Whisper"@,
    {
        "Whisper"
    }

    /// Whisper transcribes whole recordings, not streams.
    pub fn supports_streaming(&self) -> (r: bool)
        ensures
            !r,
    {
        false
    }

    /// The check made before a recording is sent: the payload rules of
    /// `validate_audio_payload`, a refusal reported as invalid input.
    pub fn check_audio(&self, audio: &AudioPayload) -> (r: Result<(), ProviderError>)
        ensures
            match stt::audio_verdict(audio.data@.len(), audio.mime_type@) {
                Ok(_) => r is Ok,
                Err(m) => r is Err && r->Err_0 is InvalidInput && r->Err_0->InvalidInput_0@ == m,
            },
    {
        match stt::validate_audio_payload(audio.data.as_slice(), audio.mime_type.as_str()) {
            Ok(()) => Ok(()),
            Err(m) => Err(ProviderError::InvalidInput(m)),
        }
    }
}

} // verus!
