//! Soul orchestrator: routes a prompt to the souls that are expert on it, has the
//! one brain they share reason for each in turn, and merges what they answer.
//!
//! A run goes as follows.
//!
//! ```text
//! UserPrompt
//!   -> the authority allows the actor
//!   -> the router selects souls
//!   -> for each soul called:
//!        hooks before the switch
//!        its profile and its memory are loaded
//!        hooks before the brain executes
//!        the brain reasons on profile, memory and prompt
//!        hooks after the brain executed
//!        its answer is committed to its memory
//!        hooks after the response
//!   -> OrchResult
//! ```
//!
//! The library decides and the caller does the work: see `orchestrator` for how
//! the two take turns, and `laws` for what holds of every run.
pub mod config;
pub mod error;
pub mod json;
pub mod laws;
pub mod merge;
pub mod orchestrator;
pub mod prompt;
pub mod run;
pub mod score;
pub mod services;

pub use config::OrchConfig;
pub use error::OrchError;
pub use merge::merge_results;
pub use orchestrator::{Run, SoulOrchestrator, Step};
pub use prompt::{OrchResult, SoulResult, UserPrompt};
pub use score::Score;
