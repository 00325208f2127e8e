//! Records of a character's relationship with the user and of tool calls.

use vstd::prelude::*;

verus! {

/// How far the relationship with a character has come.
#[derive(Debug, Clone)]
pub struct RelationshipStateRecord {
    pub id: String,
    pub character_id: String,
    pub intimacy_level: i64,
    pub trust_level: i64,
    pub plot_stage: Option<String>,
    pub learning_goal: Option<String>,
    pub user_preferences: Option<String>,
    pub boundaries: Option<String>,
    pub commitments: Option<String>,
    pub updated_at: String,
}

/// One call of a tool during a session.
#[derive(Debug, Clone)]
pub struct ToolInvocationRecord {
    pub id: String,
    pub session_id: String,
    pub tool_name: String,
    pub status: String,
    pub input_json: Option<String>,
    pub output_json: Option<String>,
    pub error_message: Option<String>,
    pub started_at: String,
    pub completed_at: Option<String>,
}

} // verus!
