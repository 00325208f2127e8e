//! Practice modes.

use vstd::prelude::*;
use crate::text;

verus! {

/// A way of practising (free talk, role play, exam drills, ...).
#[derive(Debug, Clone)]
pub struct PracticeMode {
    pub id: String,
    pub name: String,
    pub description: String,
    pub prompt_suffix: String,
    pub is_preset: bool,
    pub created_at: String,
}

/// Where a mode is listed: the built-in modes first, in a fixed order, then
/// the others (by name).
pub open spec fn mode_rank(id: Seq<char>) -> int {
    if id == "free_talk"@ {
        0
    } else if id == "roleplay"@ {
        1
    } else if id == "scenario_drill"@ {
        2
    } else if id == "ielts_speaking"@ {
        3
    } else {
        10
    }
}

pub fn practice_mode_rank(id: &str) -> (r: u32)
    ensures
        r as int == mode_rank(id@),
{
    if text::str_eq(id, "free_talk") {
        0
    } else if text::str_eq(id, "roleplay") {
        1
    } else if text::str_eq(id, "scenario_drill") {
        2
    } else if text::str_eq(id, "ielts_speaking") {
        3
    } else {
        10
    }
}

} // verus!
