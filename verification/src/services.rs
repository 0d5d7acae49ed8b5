//! What the orchestrator asks of the services around it, and what they reply.
//!
//! The services are the soul authority, the router, the hooks, the soul
//! registry, the memory and the brain. A `Request` names one piece of work for
//! one of them, a `Reply` brings its result back.
use crate::error::{BrainError, MemoryError, ProfileError, RoutingError, SoulError};
use crate::score::Score;
use vstd::prelude::*;

verus! {

/// Whether `actor_id` may do `action` through `scope`.
#[derive(Debug)]
pub struct AuthRequest {
    pub actor_id: String,
    pub scope: String,
    pub action: String,
}

/// The authority's verdict.
#[derive(Debug)]
pub struct AuthDecision {
    pub allowed: bool,
    pub reason: String,
}

/// The intent to route: the prompt's text, with its domain hint where it has one.
#[derive(Debug)]
pub struct RouteRequest {
    pub text: String,
    pub domain: Option<String>,
}

/// The souls that the router selected, the primary one first.
#[derive(Debug)]
pub struct Route {
    pub souls: Vec<String>,
    pub strategy: String,
}

/// The points of a visit at which hooks run.
#[derive(Debug, Clone, Copy, PartialEq, Eq, Structural)]
pub enum HookPoint {
    BeforeSwitch,
    BeforeBrain,
    AfterBrain,
    AfterResponse,
}

/// The identifiers under which the hooks of each point are registered.
#[derive(Debug)]
pub struct HookIds {
    pub before_switch: String,
    pub before_brain: String,
    pub after_brain: String,
    pub after_response: String,
}

/// What the hooks of a point are told.
#[derive(Debug)]
pub struct HookCtx {
    pub point: HookPoint,
    pub hook_id: String,
    pub soul_id: Option<String>,
    pub session_id: Option<String>,
    pub action: String,
    pub actor_id: Option<String>,
}

/// What the hooks of a point decided.
#[derive(Debug, Clone, Copy, PartialEq, Eq, Structural)]
pub enum HookOutcome {
    Continue,
    /// Anything but to continue.
    Stop,
}

/// What the registry knows of a soul.
#[derive(Debug)]
pub struct SoulProfile {
    pub id: String,
    pub expertise: Vec<String>,
    pub preferred_brains: Vec<String>,
}

/// An item that a soul's memory recalled.
#[derive(Debug)]
pub struct RecalledItem {
    pub key: String,
    pub value: serde_json::Value,
    pub relevance: Score,
}

/// A memory item as the brain takes it.
#[derive(Debug)]
pub struct MemoryItem {
    pub key: String,
    pub value: serde_json::Value,
    pub relevance: Score,
}

/// The brain's input for one soul: profile, memory and prompt.
#[derive(Debug)]
pub struct ReasonCtx {
    pub intent_id: String,
    pub action: String,
    pub payload: serde_json::Value,
    pub memory: Vec<MemoryItem>,
    pub domain: Option<String>,
    pub soul_id: Option<String>,
    pub brain_profile: Option<String>,
}

/// The brain's output.
#[derive(Debug)]
pub struct ReasonResult {
    pub output: serde_json::Value,
    pub confidence: Score,
    pub tokens_used: u32,
    pub model_id: String,
    pub latency_ms: u64,
}

/// What is committed to a soul's memory.
#[derive(Debug)]
pub struct Interaction {
    pub soul_id: String,
    pub session_id: String,
    pub role: String,
    pub content: serde_json::Value,
    pub created_at: u64,
}

/// One piece of work for a service.
#[derive(Debug)]
pub enum Request {
    Authorize(AuthRequest),
    Route(RouteRequest),
    RunHooks(HookCtx),
    LoadProfile { soul_id: String },
    LoadMemory { soul_id: String, session_id: String, limit: usize },
    Reason(ReasonCtx),
    Save(Interaction),
}

/// What a service made of a request.
#[derive(Debug)]
pub enum Reply {
    Authorized(Result<AuthDecision, SoulError>),
    Routed(Result<Route, RoutingError>),
    HooksRan(HookOutcome),
    ProfileLoaded(Result<SoulProfile, ProfileError>),
    MemoryLoaded(Result<Vec<RecalledItem>, MemoryError>),
    Reasoned(Result<ReasonResult, BrainError>),
    Saved(Result<(), MemoryError>),
}

impl HookPoint {
    /// What is happening at this point, in the hooks' terms.
    pub open spec fn happening(self) -> Seq<char> {
        match self {
            HookPoint::BeforeSwitch => "soul_switch"@,
            HookPoint::BeforeBrain => "brain.reason"@,
            HookPoint::AfterBrain => "brain.reason.done"@,
            HookPoint::AfterResponse => "soul.response"@,
        }
    }

    /// The action that the hooks of this point are told of.
    pub fn action(&self) -> (action: String)
        ensures
            action@ == self.happening(),
    {
        match self {
            HookPoint::BeforeSwitch => "soul_switch".to_owned(),
            HookPoint::BeforeBrain => "brain.reason".to_owned(),
            HookPoint::AfterBrain => "brain.reason.done".to_owned(),
            HookPoint::AfterResponse => "soul.response".to_owned(),
        }
    }
}

impl HookIds {
    /// The identifier of the hooks of `point`.
    pub open spec fn of(self, point: HookPoint) -> String {
        match point {
            HookPoint::BeforeSwitch => self.before_switch,
            HookPoint::BeforeBrain => self.before_brain,
            HookPoint::AfterBrain => self.after_brain,
            HookPoint::AfterResponse => self.after_response,
        }
    }

    /// The identifier of the hooks of `point`.
    pub fn id(&self, point: HookPoint) -> (id: String)
        ensures
            id == self.of(point),
    {
        match point {
            HookPoint::BeforeSwitch => self.before_switch.clone(),
            HookPoint::BeforeBrain => self.before_brain.clone(),
            HookPoint::AfterBrain => self.after_brain.clone(),
            HookPoint::AfterResponse => self.after_response.clone(),
        }
    }
}

/// Each hook point has its own action and its own identifier.
pub proof fn law_hook_points_are_told_apart(ids: HookIds)
    ensures
        HookPoint::BeforeSwitch.happening() == "soul_switch"@,
        HookPoint::BeforeBrain.happening() == "brain.reason"@,
        HookPoint::AfterBrain.happening() == "brain.reason.done"@,
        HookPoint::AfterResponse.happening() == "soul.response"@,
        ids.of(HookPoint::BeforeSwitch) == ids.before_switch,
        ids.of(HookPoint::BeforeBrain) == ids.before_brain,
        ids.of(HookPoint::AfterBrain) == ids.after_brain,
        ids.of(HookPoint::AfterResponse) == ids.after_response,
{
}

} // verus!
