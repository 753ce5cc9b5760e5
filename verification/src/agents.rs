//! Agent records exchanged with the lifecycle endpoints.

use vstd::prelude::*;

verus! {

/// Request to register a new agent. Its metadata, a JSON object, is held as
/// its JSON text.
#[derive(Debug, Clone)]
pub struct RegisterAgentRequest {
    pub agent_id: String,
    pub display_name: Option<String>,
    pub tags: Option<Vec<String>>,
    pub metadata_json: Option<String>,
    pub policy_id: Option<String>,
}

/// Result of registering an agent.
#[derive(Debug, Clone)]
pub struct RegisterAgentResult {
    pub id: String,
    pub agent_id: String,
    pub display_name: Option<String>,
    pub status: String,
    pub key_id: String,
    pub signing_secret: String,
    pub created_at: Option<String>,
}

/// Result of rotating an agent's key.
#[derive(Debug, Clone)]
pub struct RotateKeyResult {
    pub agent_id: String,
    pub key_id: String,
    pub signing_secret: String,
    pub rotated_at: String,
}

} // verus!
