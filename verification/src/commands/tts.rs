//! The voice list as the user interface shows it.

use vstd::prelude::*;
use crate::cli::opt_view;
use crate::providers::tts_provider::{or_empty, EdgeVoice};

verus! {

/// A voice as the settings page lists it.
#[derive(Debug, Clone)]
pub struct VoiceInfo {
    pub name: String,
    pub friendly_name: String,
    pub locale: String,
    pub gender: String,
}

fn or_blank(o: Option<String>) -> (r: String)
    ensures
        r@ == or_empty(opt_view(o)),
{
    match o {
        Some(s) => s,
        None => String::new(),
    }
}

/// How an Edge voice is listed: missing details are shown empty.
pub fn voice_listing(v: EdgeVoice) -> (r: VoiceInfo)
    ensures
        r.name@ == v.name@,
        r.friendly_name@ == or_empty(opt_view(v.friendly_name)),
        r.locale@ == or_empty(opt_view(v.locale)),
        r.gender@ == or_empty(opt_view(v.gender)),
{
    VoiceInfo {
        name: v.name,
        friendly_name: or_blank(v.friendly_name),
        locale: or_blank(v.locale),
        gender: or_blank(v.gender),
    }
}

} // verus!
