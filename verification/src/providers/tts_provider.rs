//! The text-to-speech provider: voices, synthesized audio and the Microsoft
//! Edge back end.

use vstd::prelude::*;
use crate::cli::opt_view;

verus! {

/// The voice a synthesis request asks for.
#[derive(Debug, Clone)]
pub struct VoiceConfig {
    pub voice_id: String,
    pub language: Option<String>,
}

/// A voice a provider offers.
#[derive(Debug, Clone)]
pub struct VoiceInfo {
    pub id: String,
    pub name: String,
    pub language: String,
    pub gender: Option<String>,
}

/// Synthesized audio.
#[derive(Debug, Clone)]
pub struct AudioOutput {
    pub data: Vec<u8>,
    pub mime_type: String,
}

/// A voice as the Edge voice list describes it.
#[derive(Debug, Clone)]
pub struct EdgeVoice {
    pub name: String,
    pub short_name: Option<String>,
    pub friendly_name: Option<String>,
    pub locale: Option<String>,
    pub gender: Option<String>,
}

/// Microsoft Edge's online text-to-speech service.
#[derive(Debug, Clone, Copy)]
pub struct EdgeTtsProvider;

/// An optional string, or the empty string.
pub open spec fn or_empty(o: Option<Seq<char>>) -> Seq<char> {
    match o {
        Some(s) => s,
        None => Seq::<char>::empty(),
    }
}

impl EdgeTtsProvider {
    /// The provider's display name.
    pub fn name(&self) -> (r: &'static str)
        ensures
            r@ == "Edge TTS"@,
    {
        "Edge TTS"
    }

    /// Edge synthesizes MP3 audio.
    pub fn output_mime_type(&self) -> (r: &'static str)
        ensures
            r@ == "audio/mpeg"@,
    {
        "audio/mpeg"
    }

    /// How an Edge voice is offered: its full name is its id, its short name
    /// its name and its locale its language (empty when absent).
    pub fn voice_info(&self, v: EdgeVoice) -> (r: VoiceInfo)
        ensures
            r.id@ == v.name@,
            r.name@ == or_empty(opt_view(v.short_name)),
            r.language@ == or_empty(opt_view(v.locale)),
            opt_view(r.gender) == opt_view(v.gender),
    {
        VoiceInfo {
            id: v.name,
            name: match v.short_name {
                Some(s) => s,
                None => String::new(),
            },
            language: match v.locale {
                Some(s) => s,
                None => String::new(),
            },
            gender: v.gender,
        }
    }
}

} // verus!
