//! Changes the user makes to a relationship.

use vstd::prelude::*;
use crate::cli::opt_view;
use crate::repositories::memory::RelationshipStateRecord;

verus! {

/// The fields a relationship update may change; the JSON fields are given
/// as JSON text.
#[derive(Debug, Clone)]
pub struct RelationshipChanges {
    pub intimacy_level: Option<i64>,
    pub trust_level: Option<i64>,
    pub plot_stage: Option<String>,
    pub user_preferences: Option<String>,
    pub boundaries: Option<String>,
    pub commitments: Option<String>,
}

/// A level kept between 0 and 100.
pub open spec fn clamp_level(v: i64) -> i64 {
    if v < 0 {
        0
    } else if v > 100 {
        100
    } else {
        v
    }
}

fn clamp(v: i64) -> (r: i64)
    ensures
        r == clamp_level(v),
{
    if v < 0 {
        0
    } else if v > 100 {
        100
    } else {
        v
    }
}

/// Whether `after` is `before` with the given changes applied: levels are
/// clamped to 0..=100, an empty story stage clears it, JSON fields are
/// replaced; the identity and the learning goal stay. The update time is not
/// part of it.
pub open spec fn changes_applied(
    before: RelationshipStateRecord,
    after: RelationshipStateRecord,
    changes: RelationshipChanges,
) -> bool {
    &&& after.id == before.id
    &&& after.character_id == before.character_id
    &&& after.learning_goal == before.learning_goal
    &&& after.intimacy_level == match changes.intimacy_level {
        Some(v) => clamp_level(v),
        None => before.intimacy_level,
    }
    &&& after.trust_level == match changes.trust_level {
        Some(v) => clamp_level(v),
        None => before.trust_level,
    }
    &&& opt_view(after.plot_stage) == match changes.plot_stage {
        Some(s) => if s@.len() == 0 {
            None
        } else {
            Some(s@)
        },
        None => opt_view(before.plot_stage),
    }
    &&& opt_view(after.user_preferences) == match changes.user_preferences {
        Some(s) => Some(s@),
        None => opt_view(before.user_preferences),
    }
    &&& opt_view(after.boundaries) == match changes.boundaries {
        Some(s) => Some(s@),
        None => opt_view(before.boundaries),
    }
    &&& opt_view(after.commitments) == match changes.commitments {
        Some(s) => Some(s@),
        None => opt_view(before.commitments),
    }
}

/// Applies the changes that are given (`changes_applied`); the update time
/// becomes `now`. Nothing else changes.
pub fn apply_relationship_update(state: &mut RelationshipStateRecord, changes: RelationshipChanges, now: String)
    ensures
        changes_applied(*old(state), *final(state), changes),
        final(state).updated_at@ == now@,
{
    if let Some(v) = changes.intimacy_level {
        state.intimacy_level = clamp(v);
    }
    if let Some(v) = changes.trust_level {
        state.trust_level = clamp(v);
    }
    if let Some(stage) = changes.plot_stage {
        state.plot_stage = if stage.as_str().unicode_len() == 0 {
            None
        } else {
            Some(stage)
        };
    }
    if let Some(p) = changes.user_preferences {
        state.user_preferences = Some(p);
    }
    if let Some(b) = changes.boundaries {
        state.boundaries = Some(b);
    }
    if let Some(c) = changes.commitments {
        state.commitments = Some(c);
    }
    state.updated_at = now;
}

/// Applies the changes that are given (`changes_applied`), stamped with the
/// current time, of which nothing is stated.
pub fn apply_relationship_update_now(state: &mut RelationshipStateRecord, changes: RelationshipChanges)
    ensures
        changes_applied(*old(state), *final(state), changes),
{
    let now = crate::fresh::now_rfc3339();
    apply_relationship_update(state, changes, now);
}

/// After any update the levels lie between 0 and 100, provided they did
/// before.
pub proof fn lemma_levels_stay_in_range(before: i64, change: Option<i64>)
    requires
        0 <= before <= 100,
    ensures
        0 <= (match change {
            Some(v) => clamp_level(v),
            None => before,
        }) <= 100,
{
}

} // verus!
