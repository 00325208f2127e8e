//! Role-play scenarios.

use vstd::prelude::*;
use crate::error::AppError;
use crate::text;

verus! {

/// A situation to practise in.
#[derive(Debug, Clone)]
pub struct Scenario {
    pub id: String,
    pub name: String,
    pub description: String,
    pub icon: String,
    pub learning_goals: Option<String>,
    pub is_preset: bool,
    pub created_at: String,
}

/// Preset scenarios cannot be deleted; `is_preset` is the stored flag (zero
/// when the scenario is not found).
pub fn check_scenario_deletion(is_preset: i32) -> (r: Result<(), AppError>)
    ensures
        is_preset != 0 ==> r is Err && r->Err_0 is Config && r->Err_0->Config_0@ == "Cannot delete preset scenarios"@,
        is_preset == 0 ==> r is Ok,
{
    if is_preset != 0 {
        Err(AppError::Config(text::owned("Cannot delete preset scenarios")))
    } else {
        Ok(())
    }
}

} // verus!
