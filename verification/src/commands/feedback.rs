//! Saving a correction the learner accepted.

use vstd::prelude::*;
use crate::cli::opt_view;
use crate::commands::session::{normalize_optional_id, normalized_id};
use crate::error::{prefixed, AppError};
use crate::text;

verus! {

/// A correction as the user interface hands it over.
#[derive(Debug, Clone)]
pub struct SaveCorrectionInput {
    pub session_id: Option<String>,
    pub original_text: String,
    pub corrected_text: String,
    pub explanation: Option<String>,
    pub better_expression: Option<String>,
    pub created_at: Option<String>,
}

/// A correction as it is stored.
#[derive(Debug, Clone)]
pub struct CorrectionRecord {
    pub id: String,
    pub session_id: Option<String>,
    pub original_text: String,
    pub corrected_text: String,
    pub explanation: Option<String>,
    pub better_expression: Option<String>,
    pub created_at: String,
}

/// The session a correction belongs to: its id trimmed, none when blank.
pub fn correction_session_id(input: &SaveCorrectionInput) -> (r: Option<String>)
    ensures
        opt_view(r) == normalized_id(opt_view(input.session_id)),
{
    normalize_optional_id(crate::cli::clone_opt(&input.session_id))
}

/// Whether `r` is what saving `input` comes to, with `uuid` for the fresh
/// part of the id and `now` for the time: both texts are required
/// (trimmed); a named session must exist (`session_exists`); the id is
/// `corr-` and `uuid`; the time is the given one (trimmed) or `now`; blank
/// notes are dropped.
pub open spec fn correction_outcome(
    r: Result<CorrectionRecord, AppError>,
    input: SaveCorrectionInput,
    session_exists: bool,
    uuid: Seq<char>,
    now: Seq<char>,
) -> bool {
    &&& text::trim(input.original_text@).len() == 0 ==> r is Err && r->Err_0 is Config && r->Err_0->Config_0@
        == "Correction original text is required."@
    &&& text::trim(input.original_text@).len() > 0 && text::trim(input.corrected_text@).len() == 0 ==> r is Err
        && r->Err_0 is Config && r->Err_0->Config_0@ == "Correction corrected text is required."@
    &&& text::trim(input.original_text@).len() > 0 && text::trim(input.corrected_text@).len() > 0 && normalized_id(
        opt_view(input.session_id),
    ) is Some && !session_exists ==> r is Err && r->Err_0 is Config && r->Err_0->Config_0@ == "Session '"@
        + normalized_id(opt_view(input.session_id))->Some_0 + "' was not found."@
    &&& r matches Ok(c) ==> {
        &&& c.id@ == "corr-"@ + uuid
        &&& opt_view(c.session_id) == normalized_id(opt_view(input.session_id))
        &&& c.original_text@ == text::trim(input.original_text@)
        &&& c.corrected_text@ == text::trim(input.corrected_text@)
        &&& opt_view(c.explanation) == normalized_id(opt_view(input.explanation))
        &&& opt_view(c.better_expression) == normalized_id(opt_view(input.better_expression))
        &&& c.created_at@ == match normalized_id(opt_view(input.created_at)) {
            Some(t) => t,
            None => now,
        }
    }
    &&& text::trim(input.original_text@).len() > 0 && text::trim(input.corrected_text@).len() > 0 && (normalized_id(
        opt_view(input.session_id),
    ) is None || session_exists) ==> r is Ok
}

/// The record for a correction, given the fresh part of its id and the
/// current time (see `correction_outcome`).
pub fn prepare_correction(input: SaveCorrectionInput, session_exists: bool, uuid: &str, now: String) -> (r: Result<
    CorrectionRecord,
    AppError,
>)
    ensures
        correction_outcome(r, input, session_exists, uuid@, now@),
{
    let original = text::trim_string(input.original_text.as_str());
    if original.as_str().unicode_len() == 0 {
        return Err(AppError::Config(text::owned("Correction original text is required.")));
    }
    let corrected = text::trim_string(input.corrected_text.as_str());
    if corrected.as_str().unicode_len() == 0 {
        return Err(AppError::Config(text::owned("Correction corrected text is required.")));
    }
    let session_id = normalize_optional_id(input.session_id);
    if let Some(s) = &session_id {
        if !session_exists {
            let mut m = prefixed("Session '", s.as_str());
            m.append("' was not found.");
            return Err(AppError::Config(m));
        }
    }
    let created_at = match normalize_optional_id(input.created_at) {
        Some(t) => t,
        None => now,
    };
    Ok(CorrectionRecord {
        id: prefixed("corr-", uuid),
        session_id,
        original_text: original,
        corrected_text: corrected,
        explanation: normalize_optional_id(input.explanation),
        better_expression: normalize_optional_id(input.better_expression),
        created_at,
    })
}

/// The record for a correction, with a fresh random id and the current
/// time: `correction_outcome` for the uuid and the time that the calls gave,
/// of which nothing more is stated.
pub fn new_correction(input: SaveCorrectionInput, session_exists: bool) -> (r: Result<CorrectionRecord, AppError>)
    ensures
        exists|uuid: Seq<char>, now: Seq<char>| #[trigger] correction_outcome(r, input, session_exists, uuid, now),
{
    let uuid = crate::fresh::new_uuid();
    let now = crate::fresh::now_rfc3339();
    let ghost (u, n) = (uuid@, now@);
    let r = prepare_correction(input, session_exists, uuid.as_str(), now);
    proof {
        assert(correction_outcome(r, input, session_exists, u, n));
    }
    r
}

/// The session a summary is written for: its id trimmed, none when blank.
pub fn summary_session_id(session_id: Option<&str>) -> (r: Option<&str>)
    ensures
        match session_id {
            Some(s) => if text::trim(s@).len() > 0 {
                r is Some && r->Some_0@ == text::trim(s@)
            } else {
                r is None
            },
            None => r is None,
        },
{
    match session_id {
        Some(s) => {
            let t = text::trim_str(s);
            if t.unicode_len() > 0 {
                Some(t)
            } else {
                None
            }
        },
        None => None,
    }
}

} // verus!
