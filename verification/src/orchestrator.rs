//! The orchestrator: which request comes next, and what a run comes to.
//!
//! `SoulOrchestrator::process` starts a run and hands out its first request. The
//! caller has the service concerned do the work and gives the reply to
//! `SoulOrchestrator::resume`, until a step says that the run is done.
use crate::config::OrchConfig;
use crate::error::OrchError;
use crate::json::{text_object, wrap_text};
use crate::merge::{merge_results, merged_output};
use crate::prompt::{OrchResult, SoulResult, UserPrompt};
use crate::run::{PhaseView, ProgressView, RunView, Stage};
use crate::services::{
    AuthRequest, HookCtx, HookIds, HookOutcome, HookPoint, Interaction, MemoryItem, ReasonCtx,
    ReasonResult, RecalledItem, Reply, Request, RouteRequest, SoulProfile,
};
use vstd::prelude::*;

verus! {

#[derive(Debug)]
pub struct SoulOrchestrator {
    pub config: OrchConfig,
    pub hook_ids: HookIds,
}

/// What a run has gathered since it was routed.
struct Progress {
    souls: Vec<String>,
    strategy: String,
    results: Vec<SoulResult>,
}

enum Phase {
    Authorizing,
    Routing,
    Visiting(Progress, Stage),
}

/// A prompt in the course of being processed.
pub struct Run {
    prompt: UserPrompt,
    phase: Phase,
}

/// What `process` and `resume` leave to do.
pub enum Step {
    /// The run waits for the reply to the request.
    Ask(Run, Request),
    Done(Result<OrchResult, OrchError>),
}

impl View for Progress {
    type V = ProgressView;

    closed spec fn view(&self) -> ProgressView {
        ProgressView { souls: self.souls@, strategy: self.strategy, results: self.results@ }
    }
}

impl View for Run {
    type V = RunView;

    closed spec fn view(&self) -> RunView {
        RunView {
            prompt: self.prompt,
            phase: match self.phase {
                Phase::Authorizing => PhaseView::Authorizing,
                Phase::Routing => PhaseView::Routing,
                Phase::Visiting(progress, stage) => PhaseView::Visiting(progress@, stage),
            },
        }
    }
}

/// What a reply makes of a run.
pub enum Next {
    Wait(RunView),
    Fail(OrchError),
    Complete(ProgressView),
}

/// The result of a soul from what the brain said.
pub open spec fn answer_of(soul_id: String, said: ReasonResult) -> SoulResult {
    SoulResult {
        soul_id,
        brain_id: said.model_id,
        output: said.output,
        confidence: said.confidence,
        tokens: said.tokens_used,
        latency_ms: said.latency_ms,
    }
}

/// Whether `item` is what the brain gets of `recalled`.
pub open spec fn same_item(item: MemoryItem, recalled: RecalledItem) -> bool {
    &&& item.key == recalled.key
    &&& item.value == recalled.value
    &&& item.relevance == recalled.relevance
}

/// Whether `ctx` is the brain's input for a soul: the prompt, the soul's profile
/// and everything it recalled, in order.
pub open spec fn is_reason_ctx(
    ctx: ReasonCtx,
    prompt: UserPrompt,
    profile: SoulProfile,
    memory: Seq<RecalledItem>,
) -> bool {
    &&& ctx.intent_id@ == prompt.session_id@ + "::"@ + prompt.actor_id@
    &&& ctx.action == prompt.text
    &&& ctx.payload == text_object(prompt.text@)
    &&& ctx.memory@.len() == memory.len()
    &&& forall|i: int| 0 <= i < memory.len() ==> same_item(#[trigger] ctx.memory@[i], memory[i])
    &&& ctx.domain == (if profile.expertise@.len() > 0 {
        Some(profile.expertise@[0])
    } else {
        None
    })
    &&& ctx.soul_id == Some(profile.id)
    &&& ctx.brain_profile is Some <==> profile.preferred_brains@.len() > 0
    &&& ctx.brain_profile matches Some(brain) ==> brain@ == "zeus://"@
        + profile.preferred_brains@[0]@
}

/// Whether `res` is the result of a run over `prompt` that gathered `progress`.
pub open spec fn is_orch_result(
    res: OrchResult,
    prompt: UserPrompt,
    progress: ProgressView,
) -> bool {
    &&& res.session_id == prompt.session_id
    &&& res.prompt_text == prompt.text
    &&& res.souls_called@ == progress.souls
    &&& res.results@ == progress.results
    &&& res.merged == merged_output(progress.results)
    &&& res.strategy == progress.strategy
}

/// A run goes to the next soul, or is complete once all have answered.
pub open spec fn visit_next(prompt: UserPrompt, progress: ProgressView) -> Next {
    if progress.results.len() < progress.souls.len() {
        Next::Wait(RunView { prompt, phase: PhaseView::Visiting(progress, Stage::Switching) })
    } else {
        Next::Complete(progress)
    }
}

impl SoulOrchestrator {
    /// What the reply to the pending request of a visit makes of it. (A reply that
    /// the stage does not wait for leaves it where it is.)
    pub open spec fn next_in_visit(
        self,
        prompt: UserPrompt,
        progress: ProgressView,
        stage: Stage,
        reply: Reply,
    ) -> Next {
        let go_on = |stage: Stage|
            Next::Wait(RunView { prompt, phase: PhaseView::Visiting(progress, stage) });
        match (stage, reply) {
            (Stage::Switching, Reply::HooksRan(outcome)) => if outcome is Continue {
                go_on(Stage::LoadingProfile)
            } else {
                Next::Fail(OrchError::HookDenied { hook_id: self.hook_ids.before_switch })
            },
            (Stage::LoadingProfile, Reply::ProfileLoaded(loaded)) => match loaded {
                Ok(profile) => go_on(Stage::LoadingMemory(profile)),
                Err(e) => Next::Fail(OrchError::SoulNotFound { soul_id: e.msg }),
            },
            (Stage::LoadingMemory(profile), Reply::MemoryLoaded(loaded)) => match loaded {
                Ok(memory) => go_on(Stage::EnteringBrain(profile, memory)),
                Err(e) => Next::Fail(OrchError::MemoryError { msg: e.msg }),
            },
            (Stage::EnteringBrain(profile, memory), Reply::HooksRan(outcome)) => if outcome is
                Continue {
                go_on(Stage::Reasoning(Ghost(profile), Ghost(memory@)))
            } else {
                Next::Fail(OrchError::HookDenied { hook_id: self.hook_ids.before_brain })
            },
            (Stage::Reasoning(_, _), Reply::Reasoned(reasoned)) => match reasoned {
                Ok(said) => go_on(Stage::LeavingBrain(said)),
                Err(e) => Next::Fail(OrchError::BrainFailed { msg: e.msg }),
            },
            (Stage::LeavingBrain(said), Reply::HooksRan(_)) => go_on(
                Stage::Saving(answer_of(progress.current(), said)),
            ),
            (Stage::Saving(result), Reply::Saved(_)) => go_on(Stage::Responding(result)),
            (Stage::Responding(result), Reply::HooksRan(_)) => visit_next(
                prompt,
                progress.with(result),
            ),
            _ => go_on(stage),
        }
    }

    /// What the reply to its pending request makes of a run.
    pub open spec fn next(self, run: RunView, reply: Reply) -> Next {
        match (run.phase, reply) {
            (PhaseView::Authorizing, Reply::Authorized(authorized)) => match authorized {
                Ok(decision) => if decision.allowed {
                    Next::Wait(RunView { prompt: run.prompt, phase: PhaseView::Routing })
                } else {
                    Next::Fail(OrchError::AuthDenied { msg: decision.reason })
                },
                Err(e) => Next::Fail(OrchError::AuthDenied { msg: e.msg }),
            },
            (PhaseView::Routing, Reply::Routed(routed)) => match routed {
                Ok(route) => visit_next(
                    run.prompt,
                    ProgressView {
                        souls: self.config.called(route.souls@),
                        strategy: route.strategy,
                        results: Seq::empty(),
                    },
                ),
                Err(e) => Next::Fail(OrchError::RoutingFailed { msg: e.msg }),
            },
            (PhaseView::Visiting(progress, stage), _) => self.next_in_visit(
                run.prompt,
                progress,
                stage,
                reply,
            ),
            _ => Next::Wait(run),
        }
    }

    /// Whether `ctx` tells the hooks of `point` of a visit to `soul_id`.
    pub open spec fn is_hook_ctx(
        self,
        ctx: HookCtx,
        point: HookPoint,
        prompt: UserPrompt,
        soul_id: String,
    ) -> bool {
        &&& ctx.point == point
        &&& ctx.hook_id == self.hook_ids.of(point)
        &&& ctx.soul_id == Some(soul_id)
        &&& ctx.session_id == Some(prompt.session_id)
        &&& ctx.action@ == point.happening()
        &&& ctx.actor_id == Some(prompt.actor_id)
    }

    /// Whether `request` is the one to whose reply a run waits.
    pub open spec fn asks(self, run: RunView, request: Request) -> bool {
        let prompt = run.prompt;
        match run.phase {
            PhaseView::Authorizing => {
                &&& request matches Request::Authorize(asked)
                &&& asked.actor_id == prompt.actor_id
                &&& asked.scope@ == "aura-orch"@
                &&& asked.action@ == "soul.process"@
            },
            PhaseView::Routing => {
                &&& request matches Request::Route(asked)
                &&& asked.text == prompt.text
                &&& asked.domain == prompt.domain
            },
            PhaseView::Visiting(progress, stage) => {
                let soul = progress.current();
                match stage {
                    Stage::Switching => {
                        &&& request matches Request::RunHooks(ctx)
                        &&& self.is_hook_ctx(ctx, HookPoint::BeforeSwitch, prompt, soul)
                    },
                    Stage::LoadingProfile => request == (Request::LoadProfile { soul_id: soul }),
                    Stage::LoadingMemory(_) => request == (Request::LoadMemory {
                        soul_id: soul,
                        session_id: prompt.session_id,
                        limit: self.config.memory_context_limit,
                    }),
                    Stage::EnteringBrain(_, _) => {
                        &&& request matches Request::RunHooks(ctx)
                        &&& self.is_hook_ctx(ctx, HookPoint::BeforeBrain, prompt, soul)
                    },
                    Stage::Reasoning(profile, memory) => {
                        &&& request matches Request::Reason(ctx)
                        &&& is_reason_ctx(ctx, prompt, profile@, memory@)
                    },
                    Stage::LeavingBrain(_) => {
                        &&& request matches Request::RunHooks(ctx)
                        &&& self.is_hook_ctx(ctx, HookPoint::AfterBrain, prompt, soul)
                    },
                    Stage::Saving(result) => {
                        &&& request matches Request::Save(saved)
                        &&& saved.soul_id == soul
                        &&& saved.session_id == prompt.session_id
                        &&& saved.role@ == "soul"@
                        &&& saved.content == result.output
                        &&& saved.created_at == 0
                    },
                    Stage::Responding(_) => {
                        &&& request matches Request::RunHooks(ctx)
                        &&& self.is_hook_ctx(ctx, HookPoint::AfterResponse, prompt, soul)
                    },
                }
            },
        }
    }

    /// Whether `step` is what `next` leaves to do of a run over `prompt`.
    pub open spec fn takes(self, prompt: UserPrompt, next: Next, step: Step) -> bool {
        match next {
            Next::Wait(after) => {
                &&& step matches Step::Ask(run, request)
                &&& run@ == after
                &&& run@.well_formed()
                &&& self.asks(after, request)
            },
            Next::Fail(err) => step == Step::Done(Err(err)),
            Next::Complete(progress) => {
                &&& step matches Step::Done(Ok(res))
                &&& is_orch_result(res, prompt, progress)
            },
        }
    }

    /// An orchestrator with the given limits, whose hooks are registered under
    /// the given identifiers.
    pub fn new(config: OrchConfig, hook_ids: HookIds) -> (orch: SoulOrchestrator)
        ensures
            orch.config == config,
            orch.hook_ids == hook_ids,
    {
        SoulOrchestrator { config, hook_ids }
    }

    /// Builds the brain's input for a soul from the prompt, the soul's profile and
    /// what its memory recalled.
    pub fn build_reason_ctx(
        &self,
        prompt: &UserPrompt,
        profile: &SoulProfile,
        memory: Vec<RecalledItem>,
    ) -> (ctx: ReasonCtx)
        ensures
            is_reason_ctx(ctx, *prompt, *profile, memory@),
            ctx.memory@.len() == memory@.len(),
            forall|i: int|
                #![trigger ctx.memory@[i]]
                0 <= i < memory@.len() ==> {
                    &&& ctx.memory@[i].key == memory@[i].key
                    &&& ctx.memory@[i].value == memory@[i].value
                    &&& ctx.memory@[i].relevance.bits == memory@[i].relevance.bits
                },
    {
        let mut brain_memory: Vec<MemoryItem> = Vec::new();
        for m in recalled: memory
            invariant
                recalled.seq() == memory@,
                brain_memory@.len() == recalled.index(),
                forall|i: int|
                    0 <= i < recalled.index() ==> same_item(
                        #[trigger] brain_memory@[i],
                        memory@[i],
                    ),
        {
            brain_memory.push(MemoryItem { key: m.key, value: m.value, relevance: m.relevance });
        }
        let domain = if profile.expertise.len() > 0 {
            Some(profile.expertise[0].clone())
        } else {
            None
        };
        let brain_profile = if profile.preferred_brains.len() > 0 {
            Some("zeus://".to_owned().concat(profile.preferred_brains[0].as_str()))
        } else {
            None
        };
        ReasonCtx {
            intent_id: prompt.session_id.clone().concat("::").concat(prompt.actor_id.as_str()),
            action: prompt.text.clone(),
            payload: wrap_text(prompt.text.clone()),
            memory: brain_memory,
            domain,
            soul_id: Some(profile.id.clone()),
            brain_profile,
        }
    }

    /// What the hooks of `point` are told of a visit to `soul_id`.
    pub fn hook_ctx(&self, point: HookPoint, prompt: &UserPrompt, soul_id: &String) -> (ctx:
        HookCtx)
        ensures
            self.is_hook_ctx(ctx, point, *prompt, *soul_id),
            ctx.soul_id == Some(*soul_id),
            ctx.session_id == Some(prompt.session_id),
            ctx.actor_id == Some(prompt.actor_id),
    {
        HookCtx {
            point,
            hook_id: self.hook_ids.id(point),
            soul_id: Some(soul_id.clone()),
            session_id: Some(prompt.session_id.clone()),
            action: point.action(),
            actor_id: Some(prompt.actor_id.clone()),
        }
    }

    /// Starts to process a prompt: the actor has to be authorized first.
    pub fn process(&self, prompt: UserPrompt) -> (step: Step)
        ensures
            step matches Step::Ask(run, request) && {
                &&& run@ == (RunView { prompt, phase: PhaseView::Authorizing })
                &&& run@.well_formed()
                &&& self.asks(run@, request)
                &&& request matches Request::Authorize(asked)
                &&& asked.actor_id == prompt.actor_id
                &&& asked.scope@ == "aura-orch"@
                &&& asked.action@ == "soul.process"@
            },
    {
        let request = Request::Authorize(
            AuthRequest {
                actor_id: prompt.actor_id.clone(),
                scope: "aura-orch".to_owned(),
                action: "soul.process".to_owned(),
            },
        );
        Step::Ask(Run { prompt, phase: Phase::Authorizing }, request)
    }

    /// Takes the reply to the pending request of a run, and says what is left to do.
    pub fn resume(&self, run: Run, reply: Reply) -> (step: Step)
        requires
            run@.well_formed(),
            run@.awaits(reply),
        ensures
            self.takes(run@.prompt, self.next(run@, reply), step),
    {
        let Run { prompt, phase } = run;
        match (phase, reply) {
            (Phase::Authorizing, Reply::Authorized(Ok(decision))) => {
                if decision.allowed {
                    let request = Request::Route(
                        RouteRequest { text: prompt.text.clone(), domain: prompt.domain.clone() },
                    );
                    Step::Ask(Run { prompt, phase: Phase::Routing }, request)
                } else {
                    Step::Done(Err(OrchError::AuthDenied { msg: decision.reason }))
                }
            },
            (Phase::Authorizing, Reply::Authorized(Err(e))) => Step::Done(Err(OrchError::from(e))),
            (Phase::Routing, Reply::Routed(Ok(route))) => {
                let souls = self.config.limit_souls(route.souls);
                let progress = Progress { souls, strategy: route.strategy, results: Vec::new() };
                self.visit(prompt, progress)
            },
            (Phase::Routing, Reply::Routed(Err(e))) => Step::Done(Err(OrchError::from(e))),
            (Phase::Visiting(progress, stage), reply) => self.resume_visit(
                prompt,
                progress,
                stage,
                reply,
            ),
            _ => vstd::pervasive::unreached(),
        }
    }

    /// Goes to the next soul, or merges the results once all have answered.
    fn visit(&self, prompt: UserPrompt, progress: Progress) -> (step: Step)
        requires
            progress@.aligned(),
        ensures
            self.takes(prompt, visit_next(prompt, progress@), step),
    {
        if progress.results.len() < progress.souls.len() {
            self.ask_hooks(HookPoint::BeforeSwitch, prompt, progress, Stage::Switching)
        } else {
            let merged = merge_results(progress.results.as_slice());
            Step::Done(
                Ok(
                    OrchResult {
                        session_id: prompt.session_id,
                        prompt_text: prompt.text,
                        souls_called: progress.souls,
                        results: progress.results,
                        merged,
                        strategy: progress.strategy,
                    },
                ),
            )
        }
    }

    /// Enters `stage` of the current visit with a request to the hooks of `point`.
    fn ask_hooks(
        &self,
        point: HookPoint,
        prompt: UserPrompt,
        progress: Progress,
        stage: Stage,
    ) -> (step: Step)
        requires
            progress@.aligned(),
            progress@.results.len() < progress@.souls.len(),
        ensures
            step matches Step::Ask(run, request) && {
                &&& run@ == (RunView { prompt, phase: PhaseView::Visiting(progress@, stage) })
                &&& request matches Request::RunHooks(ctx)
                &&& self.is_hook_ctx(ctx, point, prompt, progress@.current())
            },
    {
        let ctx = self.hook_ctx(point, &prompt, &progress.souls[progress.results.len()]);
        Step::Ask(
            Run { prompt, phase: Phase::Visiting(progress, stage) },
            Request::RunHooks(ctx),
        )
    }

    /// Takes the reply to the pending request of a visit.
    fn resume_visit(
        &self,
        prompt: UserPrompt,
        progress: Progress,
        stage: Stage,
        reply: Reply,
    ) -> (step: Step)
        requires
            (RunView { prompt, phase: PhaseView::Visiting(progress@, stage) }).well_formed(),
            stage.awaits(reply),
        ensures
            self.takes(prompt, self.next_in_visit(prompt, progress@, stage, reply), step),
    {
        let soul_id = progress.souls[progress.results.len()].clone();
        match (stage, reply) {
            (Stage::Switching, Reply::HooksRan(outcome)) => match outcome {
                HookOutcome::Continue => Step::Ask(
                    Run { prompt, phase: Phase::Visiting(progress, Stage::LoadingProfile) },
                    Request::LoadProfile { soul_id },
                ),
                HookOutcome::Stop => Step::Done(
                    Err(
                        OrchError::HookDenied {
                            hook_id: self.hook_ids.id(HookPoint::BeforeSwitch),
                        },
                    ),
                ),
            },
            (Stage::LoadingProfile, Reply::ProfileLoaded(loaded)) => match loaded {
                Ok(profile) => {
                    let request = Request::LoadMemory {
                        soul_id,
                        session_id: prompt.session_id.clone(),
                        limit: self.config.memory_context_limit,
                    };
                    let stage = Stage::LoadingMemory(profile);
                    Step::Ask(Run { prompt, phase: Phase::Visiting(progress, stage) }, request)
                },
                Err(e) => Step::Done(Err(OrchError::from(e))),
            },
            (Stage::LoadingMemory(profile), Reply::MemoryLoaded(loaded)) => match loaded {
                Ok(memory) => self.ask_hooks(
                    HookPoint::BeforeBrain,
                    prompt,
                    progress,
                    Stage::EnteringBrain(profile, memory),
                ),
                Err(e) => Step::Done(Err(OrchError::from(e))),
            },
            (Stage::EnteringBrain(profile, memory), Reply::HooksRan(outcome)) => match outcome {
                HookOutcome::Continue => {
                    let stage = Stage::Reasoning(Ghost(profile), Ghost(memory@));
                    let ctx = self.build_reason_ctx(&prompt, &profile, memory);
                    Step::Ask(
                        Run { prompt, phase: Phase::Visiting(progress, stage) },
                        Request::Reason(ctx),
                    )
                },
                HookOutcome::Stop => Step::Done(
                    Err(
                        OrchError::HookDenied {
                            hook_id: self.hook_ids.id(HookPoint::BeforeBrain),
                        },
                    ),
                ),
            },
            (Stage::Reasoning(_, _), Reply::Reasoned(reasoned)) => match reasoned {
                Ok(said) => self.ask_hooks(
                    HookPoint::AfterBrain,
                    prompt,
                    progress,
                    Stage::LeavingBrain(said),
                ),
                Err(e) => Step::Done(Err(OrchError::from(e))),
            },
            (Stage::LeavingBrain(said), Reply::HooksRan(_)) => {
                let request = Request::Save(
                    Interaction {
                        soul_id: soul_id.clone(),
                        session_id: prompt.session_id.clone(),
                        role: "soul".to_owned(),
                        content: said.output.clone(),
                        created_at: 0,
                    },
                );
                let stage = Stage::Saving(
                    SoulResult {
                        soul_id,
                        brain_id: said.model_id,
                        output: said.output,
                        confidence: said.confidence,
                        tokens: said.tokens_used,
                        latency_ms: said.latency_ms,
                    },
                );
                Step::Ask(Run { prompt, phase: Phase::Visiting(progress, stage) }, request)
            },
            (Stage::Saving(result), Reply::Saved(_)) => self.ask_hooks(
                HookPoint::AfterResponse,
                prompt,
                progress,
                Stage::Responding(result),
            ),
            (Stage::Responding(result), Reply::HooksRan(_)) => {
                let mut progress = progress;
                progress.results.push(result);
                self.visit(prompt, progress)
            },
            _ => vstd::pervasive::unreached(),
        }
    }
}

impl Run {
    /// Tells whether `reply` is of the kind that the run waits for.
    pub fn awaits(&self, reply: &Reply) -> (awaited: bool)
        ensures
            awaited == self@.awaits(*reply),
    {
        match (&self.phase, reply) {
            (Phase::Authorizing, Reply::Authorized(_)) => true,
            (Phase::Routing, Reply::Routed(_)) => true,
            (Phase::Visiting(_, stage), _) => match (stage, reply) {
                (Stage::Switching, Reply::HooksRan(_)) => true,
                (Stage::LoadingProfile, Reply::ProfileLoaded(_)) => true,
                (Stage::LoadingMemory(_), Reply::MemoryLoaded(_)) => true,
                (Stage::EnteringBrain(_, _), Reply::HooksRan(_)) => true,
                (Stage::Reasoning(_, _), Reply::Reasoned(_)) => true,
                (Stage::LeavingBrain(_), Reply::HooksRan(_)) => true,
                (Stage::Saving(_), Reply::Saved(_)) => true,
                (Stage::Responding(_), Reply::HooksRan(_)) => true,
                _ => false,
            },
            _ => false,
        }
    }
}

} // verus!
