//! What comes in and what goes out.
use crate::score::Score;
use vstd::prelude::*;

verus! {

#[derive(Debug, Clone)]
pub struct UserPrompt {
    pub session_id: String,
    pub actor_id: String,
    pub text: String,
    /// Optional domain hint (overrides routing).
    pub domain: Option<String>,
}

/// What one soul answered.
#[derive(Debug, Clone)]
pub struct SoulResult {
    pub soul_id: String,
    pub brain_id: String,
    pub output: serde_json::Value,
    pub confidence: Score,
    pub tokens: u32,
    pub latency_ms: u64,
}

/// What a prompt came to.
#[derive(Debug, Clone)]
pub struct OrchResult {
    pub session_id: String,
    pub prompt_text: String,
    pub souls_called: Vec<String>,
    pub results: Vec<SoulResult>,
    /// The primary output, that of the soul with the highest confidence.
    pub merged: serde_json::Value,
    pub strategy: String,
}

} // verus!
