//! Characters the learner talks to.

use vstd::prelude::*;
use crate::cli::opt_view;
use crate::error::AppError;
use crate::text;

verus! {

/// The voice a character speaks with.
#[derive(Debug, Clone)]
pub struct VoiceConfig {
    pub lang: String,
    pub name_pattern: Option<String>,
}

/// A conversation partner.
#[derive(Debug, Clone)]
pub struct Character {
    pub id: String,
    pub name: String,
    pub language: String,
    pub personality: String,
    pub style: String,
    pub avatar: String,
    pub system_prompt: String,
    pub greeting: String,
    pub voice_config: Option<VoiceConfig>,
}

/// The characters that ship with the app.
pub open spec fn is_preset_character(id: Seq<char>) -> bool {
    id == "emily"@ || id == "kenji"@ || id == "sophie"@
}

/// Preset characters cannot be deleted.
pub fn check_character_deletion(id: &str) -> (r: Result<(), AppError>)
    ensures
        is_preset_character(id@) ==> r is Err && r->Err_0 is Config && r->Err_0->Config_0@
            == "Preset characters cannot be deleted."@,
        !is_preset_character(id@) ==> r is Ok,
{
    if text::str_eq(id, "emily") || text::str_eq(id, "kenji") || text::str_eq(id, "sophie") {
        Err(AppError::Config(text::owned("Preset characters cannot be deleted.")))
    } else {
        Ok(())
    }
}

/// The stored voice columns of a character: its voice language and name
/// pattern, both absent without a voice.
pub fn voice_columns(character: &Character) -> (r: (Option<String>, Option<String>))
    ensures
        match character.voice_config {
            Some(v) => opt_view(r.0) == Some(v.lang@) && opt_view(r.1) == opt_view(v.name_pattern),
            None => r.0 is None && r.1 is None,
        },
{
    match &character.voice_config {
        Some(v) => (Some(v.lang.clone()), crate::cli::clone_opt(&v.name_pattern)),
        None => (None, None),
    }
}

/// The voice read back from the stored columns: a voice exactly when a
/// voice language is stored.
pub fn voice_from_columns(voice_lang: Option<String>, voice_name: Option<String>) -> (r: Option<VoiceConfig>)
    ensures
        match voice_lang {
            Some(l) => r is Some && r->Some_0.lang@ == l@ && opt_view(r->Some_0.name_pattern) == opt_view(voice_name),
            None => r is None,
        },
{
    match voice_lang {
        Some(lang) => Some(VoiceConfig { lang, name_pattern: voice_name }),
        None => None,
    }
}

} // verus!
