//! Where a run stands between a request and its reply.
use crate::prompt::{SoulResult, UserPrompt};
use crate::services::{ReasonResult, RecalledItem, Reply, SoulProfile};
use vstd::prelude::*;

verus! {

/// How far the visit to the current soul has come, and what it still needs of
/// the replies so far.
pub enum Stage {
    /// The hooks before the switch to the soul are running.
    Switching,
    LoadingProfile,
    LoadingMemory(SoulProfile),
    /// The hooks before the brain executes are running.
    EnteringBrain(SoulProfile, Vec<RecalledItem>),
    /// The brain is at work on this profile and these items.
    Reasoning(Ghost<SoulProfile>, Ghost<Seq<RecalledItem>>),
    /// The hooks after the brain executed are running.
    LeavingBrain(ReasonResult),
    Saving(SoulResult),
    /// The hooks after the soul's response are running.
    Responding(SoulResult),
}

/// The souls a run visits, and what those visited so far answered.
pub struct ProgressView {
    pub souls: Seq<String>,
    pub strategy: String,
    pub results: Seq<SoulResult>,
}

pub enum PhaseView {
    Authorizing,
    Routing,
    /// Visiting the souls in turn, the one at index `results.len()` now.
    Visiting(ProgressView, Stage),
}

/// A prompt in the course of being processed.
pub struct RunView {
    pub prompt: UserPrompt,
    pub phase: PhaseView,
}

impl Stage {
    /// The answer that this stage of a visit holds, if it holds one already.
    pub open spec fn answer(self) -> Option<SoulResult> {
        match self {
            Stage::Saving(result) => Some(result),
            Stage::Responding(result) => Some(result),
            _ => None,
        }
    }

    /// Whether `reply` is of the kind that this stage waits for.
    pub open spec fn awaits(self, reply: Reply) -> bool {
        match self {
            Stage::Switching => reply is HooksRan,
            Stage::LoadingProfile => reply is ProfileLoaded,
            Stage::LoadingMemory(_) => reply is MemoryLoaded,
            Stage::EnteringBrain(_, _) => reply is HooksRan,
            Stage::Reasoning(_, _) => reply is Reasoned,
            Stage::LeavingBrain(_) => reply is HooksRan,
            Stage::Saving(_) => reply is Saved,
            Stage::Responding(_) => reply is HooksRan,
        }
    }
}

impl ProgressView {
    /// Each result so far is that of the soul at its place.
    pub open spec fn aligned(self) -> bool {
        &&& self.results.len() <= self.souls.len()
        &&& forall|i: int|
            0 <= i < self.results.len() ==> (#[trigger] self.results[i]).soul_id == self.souls[i]
    }

    /// The soul being visited.
    pub open spec fn current(self) -> String {
        self.souls[self.results.len() as int]
    }

    /// With the answer of the soul being visited.
    pub open spec fn with(self, result: SoulResult) -> ProgressView {
        ProgressView { results: self.results.push(result), ..self }
    }
}

impl RunView {
    /// A run that visits souls has one left to visit, and each answer it holds is
    /// that of the soul at the same place.
    pub open spec fn well_formed(self) -> bool {
        match self.phase {
            PhaseView::Visiting(progress, stage) => {
                &&& progress.aligned()
                &&& progress.results.len() < progress.souls.len()
                &&& stage.answer() matches Some(result) ==> result.soul_id == progress.current()
            },
            _ => true,
        }
    }

    /// Whether `reply` is of the kind that the run waits for.
    pub open spec fn awaits(self, reply: Reply) -> bool {
        match self.phase {
            PhaseView::Authorizing => reply is Authorized,
            PhaseView::Routing => reply is Routed,
            PhaseView::Visiting(_, stage) => stage.awaits(reply),
        }
    }
}

} // verus!
