//! What holds of whole runs, whatever the services reply.
use crate::error::{BrainError, MemoryError, OrchError, ProfileError, RoutingError, SoulError};
use crate::json::{json_object, json_text};
use crate::merge::{law_some_result_prevails, merged_output, prevails, winner};
use crate::orchestrator::{
    answer_of, is_orch_result, is_reason_ctx, same_item, visit_next, Next, SoulOrchestrator,
    Step,
};
use crate::prompt::{OrchResult, SoulResult, UserPrompt};
use crate::run::{PhaseView, ProgressView, RunView, Stage};
use crate::services::{
    AuthDecision, HookOutcome, ReasonCtx, ReasonResult, RecalledItem, Reply, Request, Route,
    SoulProfile,
};
use vstd::prelude::*;

verus! {

/// What the services reply in the course of a visit to one soul.
pub struct VisitReplies {
    pub before_switch: HookOutcome,
    pub profile: Result<SoulProfile, ProfileError>,
    pub memory: Result<Vec<RecalledItem>, MemoryError>,
    pub before_brain: HookOutcome,
    pub reasoned: Result<ReasonResult, BrainError>,
    pub after_brain: HookOutcome,
    pub saved: Result<(), MemoryError>,
    pub after_response: HookOutcome,
}

/// What the services reply in the course of a run, if they are asked.
pub struct Replies {
    pub authorized: Result<AuthDecision, SoulError>,
    pub routed: Result<Route, RoutingError>,
    pub visits: Seq<VisitReplies>,
}

impl VisitReplies {
    /// The reply to the pending request of a visit at `stage`.
    pub open spec fn to(self, stage: Stage) -> Reply {
        match stage {
            Stage::Switching => Reply::HooksRan(self.before_switch),
            Stage::LoadingProfile => Reply::ProfileLoaded(self.profile),
            Stage::LoadingMemory(_) => Reply::MemoryLoaded(self.memory),
            Stage::EnteringBrain(_, _) => Reply::HooksRan(self.before_brain),
            Stage::Reasoning(_, _) => Reply::Reasoned(self.reasoned),
            Stage::LeavingBrain(_) => Reply::HooksRan(self.after_brain),
            Stage::Saving(_) => Reply::Saved(self.saved),
            Stage::Responding(_) => Reply::HooksRan(self.after_response),
        }
    }
}

impl Replies {
    /// The reply to the pending request of `run`.
    pub open spec fn to(self, run: RunView) -> Reply {
        match run.phase {
            PhaseView::Authorizing => Reply::Authorized(self.authorized),
            PhaseView::Routing => Reply::Routed(self.routed),
            PhaseView::Visiting(progress, stage) => self.visits[progress.results.len() as int].to(
                stage,
            ),
        }
    }
}

impl SoulOrchestrator {
    /// Why a visit with these replies ends the run, if it does: the hooks before the
    /// switch and before the brain may stop it; profile, memory and brain may fail.
    pub open spec fn refusal(self, visit: VisitReplies) -> Option<OrchError> {
        if !(visit.before_switch is Continue) {
            Some(OrchError::HookDenied { hook_id: self.hook_ids.before_switch })
        } else if visit.profile is Err {
            Some(OrchError::SoulNotFound { soul_id: visit.profile->Err_0.msg })
        } else if visit.memory is Err {
            Some(OrchError::MemoryError { msg: visit.memory->Err_0.msg })
        } else if !(visit.before_brain is Continue) {
            Some(OrchError::HookDenied { hook_id: self.hook_ids.before_brain })
        } else if visit.reasoned is Err {
            Some(OrchError::BrainFailed { msg: visit.reasoned->Err_0.msg })
        } else {
            None
        }
    }

    /// Whether `end` is what the visits to `souls` come to: the first refusal ends
    /// the run; without one every soul has answered, in order.
    pub open spec fn visits_come_to(
        self,
        souls: Seq<String>,
        strategy: String,
        visits: Seq<VisitReplies>,
        end: Next,
    ) -> bool {
        ||| exists|i: int|
            {
                &&& 0 <= i < souls.len()
                &&& self.refusal(#[trigger] visits[i]) is Some
                &&& forall|j: int| 0 <= j < i ==> self.refusal(#[trigger] visits[j]) is None
                &&& end == Next::Fail(self.refusal(visits[i])->0)
            }
        ||| {
            &&& forall|i: int| 0 <= i < souls.len() ==> self.refusal(#[trigger] visits[i]) is None
            &&& end == Next::Complete(
                ProgressView { souls, strategy, results: answers(souls, visits, souls.len()) },
            )
        }
    }

    /// Whether `end` is what a run comes to when the services reply with `replies`.
    pub open spec fn comes_to(self, replies: Replies, end: Next) -> bool {
        match replies.authorized {
            Err(e) => end == Next::Fail(OrchError::AuthDenied { msg: e.msg }),
            Ok(decision) => if !decision.allowed {
                end == Next::Fail(OrchError::AuthDenied { msg: decision.reason })
            } else {
                match replies.routed {
                    Err(e) => end == Next::Fail(OrchError::RoutingFailed { msg: e.msg }),
                    Ok(route) => self.visits_come_to(
                        self.config.called(route.souls@),
                        route.strategy,
                        replies.visits,
                        end,
                    ),
                }
            },
        }
    }

    /// What `run` comes to under `replies`, if `patience` of them suffice.
    pub open spec fn play(self, run: RunView, replies: Replies, patience: nat) -> Option<Next>
        decreases patience,
    {
        if patience == 0 {
            None
        } else {
            match self.next(run, replies.to(run)) {
                Next::Wait(after) => self.play(after, replies, (patience - 1) as nat),
                end => Some(end),
            }
        }
    }

    /// A bound on the replies that a run takes until it is done.
    pub open spec fn remaining(self, run: RunView) -> int {
        match run.phase {
            PhaseView::Authorizing => 2 + 8 * self.config.soul_limit() as int,
            PhaseView::Routing => 1 + 8 * self.config.soul_limit() as int,
            PhaseView::Visiting(progress, stage) => 8 * (progress.souls.len()
                - progress.results.len()) - (match stage {
                Stage::Switching => 0int,
                Stage::LoadingProfile => 1,
                Stage::LoadingMemory(_) => 2,
                Stage::EnteringBrain(_, _) => 3,
                Stage::Reasoning(_, _) => 4,
                Stage::LeavingBrain(_) => 5,
                Stage::Saving(_) => 6,
                Stage::Responding(_) => 7,
            }),
        }
    }
}

/// What the first `n` of `souls` answer.
pub open spec fn answers(souls: Seq<String>, visits: Seq<VisitReplies>, n: nat) -> Seq<SoulResult> {
    Seq::new(n, |i: int| answer_of(souls[i], visits[i].reasoned->Ok_0))
}

/// Whatever the services reply, a run is done within two replies and eight more for
/// each soul that may be called, and it comes to this: an authority that fails or
/// does not allow ends it, and so does a router that fails. Otherwise the souls called are
/// visited in the order of the route. The first visit that a hook stops, or whose
/// profile, memory or brain fails, ends the run with that error. Where none does,
/// the run holds the answer of every soul.
pub proof fn law_runs_come_to_their_end(
    orch: SoulOrchestrator,
    prompt: UserPrompt,
    replies: Replies,
)
    requires
        replies.routed matches Ok(route) ==> replies.visits.len() >= orch.config.called(
            route.souls@,
        ).len(),
    ensures
        orch.play(
            RunView { prompt, phase: PhaseView::Authorizing },
            replies,
            2 + 8 * orch.config.soul_limit(),
        ) matches Some(end) && orch.comes_to(replies, end),
{
    reveal_with_fuel(SoulOrchestrator::play, 3);
    match replies.routed {
        Ok(route) => {
            let souls = orch.config.called(route.souls@);
            assert(answers(souls, replies.visits, 0) =~= Seq::empty());
            if souls.len() > 0 {
                lemma_visits_come_to_their_end(
                    orch,
                    prompt,
                    replies,
                    souls,
                    route.strategy,
                    0,
                    8 * orch.config.soul_limit(),
                );
            }
        },
        Err(_) => {},
    }
}

proof fn lemma_visits_come_to_their_end(
    orch: SoulOrchestrator,
    prompt: UserPrompt,
    replies: Replies,
    souls: Seq<String>,
    strategy: String,
    k: nat,
    patience: nat,
)
    requires
        k < souls.len() <= replies.visits.len(),
        patience >= 8 * (souls.len() - k),
        forall|i: int| 0 <= i < k ==> orch.refusal(#[trigger] replies.visits[i]) is None,
    ensures
        orch.play(
            RunView {
                prompt,
                phase: PhaseView::Visiting(
                    ProgressView { souls, strategy, results: answers(souls, replies.visits, k) },
                    Stage::Switching,
                ),
            },
            replies,
            patience,
        ) matches Some(end) && orch.visits_come_to(souls, strategy, replies.visits, end),
    decreases souls.len() - k,
{
    reveal_with_fuel(SoulOrchestrator::play, 9);
    let visit = replies.visits[k as int];
    let progress = ProgressView { souls, strategy, results: answers(souls, replies.visits, k) };
    if orch.refusal(visit) is None {
        let result = answer_of(souls[k as int], visit.reasoned->Ok_0);
        assert(progress.with(result).results =~= answers(souls, replies.visits, k + 1));
        if k + 1 < souls.len() {
            lemma_visits_come_to_their_end(
                orch,
                prompt,
                replies,
                souls,
                strategy,
                k + 1,
                (patience - 8) as nat,
            );
        }
    }
}

/// Every reply that a run waits for brings it closer to its end, and leaves it
/// well-formed, with no more souls than may be called.
pub proof fn law_replies_make_progress(orch: SoulOrchestrator, run: RunView, reply: Reply)
    requires
        run.well_formed(),
        run.awaits(reply),
        run.phase matches PhaseView::Visiting(progress, _) ==> progress.souls.len()
            <= orch.config.soul_limit(),
    ensures
        orch.remaining(run) > 0,
        orch.next(run, reply) matches Next::Wait(after) ==> {
            &&& after.well_formed()
            &&& after.prompt == run.prompt
            &&& 0 < orch.remaining(after) < orch.remaining(run)
            &&& after.phase matches PhaseView::Visiting(progress, _) ==> progress.souls.len()
                <= orch.config.soul_limit()
        },
{
}

/// The result of a run that completes holds one answer per soul called, each at
/// its soul's place, and the output of the one that prevails; null where no soul
/// was called.
pub proof fn law_every_soul_called_has_answered(
    orch: SoulOrchestrator,
    run: RunView,
    reply: Reply,
    progress: ProgressView,
    res: OrchResult,
)
    requires
        run.well_formed(),
        run.awaits(reply),
        orch.next(run, reply) == Next::Complete(progress),
        is_orch_result(res, run.prompt, progress),
    ensures
        res.results@.len() == res.souls_called@.len(),
        forall|i: int|
            0 <= i < res.souls_called@.len() ==> (#[trigger] res.results@[i]).soul_id
                == res.souls_called@[i],
        res.souls_called@.len() == 0 ==> res.merged == json_text(None),
        res.souls_called@.len() > 0 ==> prevails(res.results@, winner(res.results@))
            && res.merged == res.results@[winner(res.results@)].output,
{
    if res.results@.len() > 0 {
        law_some_result_prevails(res.results@);
    }
}

/// Nothing is routed, and no soul visited, for an actor whom the authority does not allow.
pub proof fn law_authority_comes_first(orch: SoulOrchestrator, run: RunView, reply: Reply)
    requires
        run.phase is Authorizing,
        run.awaits(reply),
        !(orch.next(run, reply) is Fail),
    ensures
        reply matches Reply::Authorized(Ok(decision)) && decision.allowed,
        orch.next(run, reply) == Next::Wait(
            RunView { prompt: run.prompt, phase: PhaseView::Routing },
        ),
{
}

/// A soul is loaded only once the hooks before the switch let it, and the brain executes only
/// once the hooks before it do, on the profile and the memory loaded for that soul.
pub proof fn law_hooks_gate_the_visit(
    orch: SoulOrchestrator,
    prompt: UserPrompt,
    progress: ProgressView,
    stage: Stage,
    reply: Reply,
    after: ProgressView,
    entered: Stage,
)
    requires
        stage.awaits(reply),
        orch.next(RunView { prompt, phase: PhaseView::Visiting(progress, stage) }, reply)
            == Next::Wait(RunView { prompt, phase: PhaseView::Visiting(after, entered) }),
    ensures
        entered is LoadingProfile ==> {
            &&& stage is Switching
            &&& reply == Reply::HooksRan(HookOutcome::Continue)
            &&& after == progress
        },
        entered matches Stage::Reasoning(profile, memory) ==> {
            &&& stage matches Stage::EnteringBrain(loaded, recalled)
            &&& profile@ == loaded
            &&& memory@ == recalled@
            &&& reply == Reply::HooksRan(HookOutcome::Continue)
            &&& after == progress
        },
{
}

/// The hooks after the brain and after the response only watch, and a failure to
/// save goes unnoticed: what they reply changes nothing.
pub proof fn law_observers_decide_nothing(
    orch: SoulOrchestrator,
    prompt: UserPrompt,
    progress: ProgressView,
    stage: Stage,
    one: Reply,
    other: Reply,
)
    requires
        stage is LeavingBrain || stage is Saving || stage is Responding,
        stage.awaits(one),
        stage.awaits(other),
    ensures
        orch.next_in_visit(prompt, progress, stage, one) == orch.next_in_visit(
            prompt,
            progress,
            stage,
            other,
        ),
        !(orch.next_in_visit(prompt, progress, stage, one) is Fail),
{
}

/// What the brain said of a soul is what is committed to that soul's memory and
/// what the run reports of it.
pub proof fn law_memory_keeps_what_is_reported(
    orch: SoulOrchestrator,
    prompt: UserPrompt,
    progress: ProgressView,
    said: ReasonResult,
    ran: HookOutcome,
    saved: Result<(), MemoryError>,
    ran_last: HookOutcome,
    request: Request,
)
    requires
        orch.asks(
            RunView {
                prompt,
                phase: PhaseView::Visiting(
                    progress,
                    Stage::Saving(answer_of(progress.current(), said)),
                ),
            },
            request,
        ),
    ensures
        ({
            let result = answer_of(progress.current(), said);
            let at = |stage: Stage| RunView { prompt, phase: PhaseView::Visiting(progress, stage) };
            &&& orch.next(at(Stage::LeavingBrain(said)), Reply::HooksRan(ran)) == Next::Wait(
                at(Stage::Saving(result)),
            )
            &&& orch.next(at(Stage::Saving(result)), Reply::Saved(saved)) == Next::Wait(
                at(Stage::Responding(result)),
            )
            &&& orch.next(at(Stage::Responding(result)), Reply::HooksRan(ran_last)) == visit_next(
                prompt,
                progress.with(result),
            )
            &&& progress.with(result).results.last() == result
            &&& request matches Request::Save(interaction)
            &&& interaction.soul_id == result.soul_id
            &&& interaction.session_id == prompt.session_id
            &&& interaction.content == said.output
            &&& result.output == said.output
        }),
{
}

/// The brain's input for a soul rests on the prompt, the soul's profile and what
/// it recalled, and on nothing else.
pub proof fn law_brain_input_is_determined(
    prompt: UserPrompt,
    profile: SoulProfile,
    memory: Seq<RecalledItem>,
    one: ReasonCtx,
    other: ReasonCtx,
)
    requires
        is_reason_ctx(one, prompt, profile, memory),
        is_reason_ctx(other, prompt, profile, memory),
    ensures
        one.intent_id@ == other.intent_id@,
        one.action == other.action,
        one.payload == other.payload,
        one.memory@ =~= other.memory@,
        one.domain == other.domain,
        one.soul_id == other.soul_id,
        one.brain_profile is Some <==> other.brain_profile is Some,
        one.brain_profile matches Some(brain) ==> brain@ == other.brain_profile->0@,
{
    assert forall|i: int| 0 <= i < memory.len() implies one.memory@[i] == other.memory@[i] by {
        assert(same_item(one.memory@[i], memory[i]));
        assert(same_item(other.memory@[i], memory[i]));
    }
}

/// The memory of a soul is asked for no more than `memory_context_limit` items, and the
/// brain gets as many as it recalled: where it keeps to the limit, so does the
/// brain's input.
pub proof fn law_memory_context_is_limited(
    orch: SoulOrchestrator,
    prompt: UserPrompt,
    progress: ProgressView,
    profile: SoulProfile,
    memory: Seq<RecalledItem>,
    asked: Request,
    reasoned: Request,
)
    requires
        orch.asks(
            RunView {
                prompt,
                phase: PhaseView::Visiting(progress, Stage::LoadingMemory(profile)),
            },
            asked,
        ),
        asked matches Request::LoadMemory { limit, .. } ==> memory.len() <= limit,
        orch.asks(
            RunView {
                prompt,
                phase: PhaseView::Visiting(
                    progress,
                    Stage::Reasoning(Ghost(profile), Ghost(memory)),
                ),
            },
            reasoned,
        ),
    ensures
        asked matches Request::LoadMemory { limit, .. } && limit
            == orch.config.memory_context_limit,
        reasoned matches Request::Reason(ctx) && ctx.memory@.len()
            <= orch.config.memory_context_limit,
{
}

/// Starting a run asks the authority about the prompt's actor.
pub proof fn law_authority_is_asked_about_the_actor(
    orch: SoulOrchestrator,
    prompt: UserPrompt,
    request: Request,
)
    requires
        orch.asks(RunView { prompt, phase: PhaseView::Authorizing }, request),
    ensures
        request matches Request::Authorize(asked) && {
            &&& asked.actor_id == prompt.actor_id
            &&& asked.scope@ == "aura-orch"@
            &&& asked.action@ == "soul.process"@
        },
{
}

/// The router gets the prompt's text and its domain hint, unchanged.
pub proof fn law_router_gets_text_and_hint(
    orch: SoulOrchestrator,
    prompt: UserPrompt,
    request: Request,
)
    requires
        orch.asks(RunView { prompt, phase: PhaseView::Routing }, request),
    ensures
        request matches Request::Route(asked) && {
            &&& asked.text == prompt.text
            &&& asked.domain == prompt.domain
        },
{
}

/// In the visit to the soul at index `results.len()`, the hooks of all four points are told of
/// that soul, in the prompt's session and for its actor, each under its own
/// identifier and with its own action.
pub proof fn law_hooks_are_told_of_the_soul_visited(
    orch: SoulOrchestrator,
    prompt: UserPrompt,
    progress: ProgressView,
    stage: Stage,
    request: Request,
)
    requires
        orch.asks(RunView { prompt, phase: PhaseView::Visiting(progress, stage) }, request),
    ensures
        request is RunHooks <==> (stage is Switching || stage is EnteringBrain
            || stage is LeavingBrain || stage is Responding),
        request matches Request::RunHooks(ctx) ==> {
            &&& ctx.soul_id == Some(progress.souls[progress.results.len() as int])
            &&& ctx.session_id == Some(prompt.session_id)
            &&& ctx.actor_id == Some(prompt.actor_id)
            &&& stage is Switching ==> {
                &&& ctx.point is BeforeSwitch
                &&& ctx.hook_id == orch.hook_ids.before_switch
                &&& ctx.action@ == "soul_switch"@
            }
            &&& stage is EnteringBrain ==> {
                &&& ctx.point is BeforeBrain
                &&& ctx.hook_id == orch.hook_ids.before_brain
                &&& ctx.action@ == "brain.reason"@
            }
            &&& stage is LeavingBrain ==> {
                &&& ctx.point is AfterBrain
                &&& ctx.hook_id == orch.hook_ids.after_brain
                &&& ctx.action@ == "brain.reason.done"@
            }
            &&& stage is Responding ==> {
                &&& ctx.point is AfterResponse
                &&& ctx.hook_id == orch.hook_ids.after_response
                &&& ctx.action@ == "soul.response"@
            }
        },
{
}

/// In the visit to the soul at index `results.len()`, the profile and the memory loaded are that
/// soul's, and its answer is committed under its name, all in the prompt's session: a
/// soul recalls what was committed for it.
pub proof fn law_a_soul_recalls_what_it_committed(
    orch: SoulOrchestrator,
    prompt: UserPrompt,
    progress: ProgressView,
    profile: SoulProfile,
    result: SoulResult,
    for_profile: Request,
    for_memory: Request,
    for_saving: Request,
)
    requires
        orch.asks(
            RunView { prompt, phase: PhaseView::Visiting(progress, Stage::LoadingProfile) },
            for_profile,
        ),
        orch.asks(
            RunView { prompt, phase: PhaseView::Visiting(progress, Stage::LoadingMemory(profile)) },
            for_memory,
        ),
        orch.asks(
            RunView { prompt, phase: PhaseView::Visiting(progress, Stage::Saving(result)) },
            for_saving,
        ),
    ensures
        for_profile matches Request::LoadProfile { soul_id } && soul_id
            == progress.souls[progress.results.len() as int],
        for_memory matches Request::LoadMemory { soul_id, session_id, limit } && {
            &&& soul_id == progress.souls[progress.results.len() as int]
            &&& session_id == prompt.session_id
            &&& limit == orch.config.memory_context_limit
        },
        for_saving matches Request::Save(saved) && {
            &&& saved.soul_id == progress.souls[progress.results.len() as int]
            &&& saved.session_id == prompt.session_id
            &&& saved.role@ == "soul"@
            &&& saved.content == result.output
            &&& saved.created_at == 0
        },
        for_memory->LoadMemory_soul_id == for_profile->LoadProfile_soul_id,
        for_memory->LoadMemory_soul_id == for_saving->Save_0.soul_id,
        for_memory->LoadMemory_session_id == for_saving->Save_0.session_id,
{
}

/// The brain gets every item that was recalled, in order, with key, value and relevance
/// as they were, and with it the prompt and what the profile says of the soul.
pub proof fn law_brain_gets_all_that_was_recalled(
    orch: SoulOrchestrator,
    prompt: UserPrompt,
    progress: ProgressView,
    profile: SoulProfile,
    memory: Seq<RecalledItem>,
    request: Request,
)
    requires
        orch.asks(
            RunView {
                prompt,
                phase: PhaseView::Visiting(
                    progress,
                    Stage::Reasoning(Ghost(profile), Ghost(memory)),
                ),
            },
            request,
        ),
    ensures
        request matches Request::Reason(ctx) && {
            &&& ctx.memory@.len() == memory.len()
            &&& forall|i: int|
                #![trigger ctx.memory@[i]]
                #![trigger memory[i]]
                0 <= i < memory.len() ==> {
                    &&& ctx.memory@[i].key == memory[i].key
                    &&& ctx.memory@[i].value == memory[i].value
                    &&& ctx.memory@[i].relevance.bits == memory[i].relevance.bits
                }
            &&& ctx.intent_id@ == prompt.session_id@ + "::"@ + prompt.actor_id@
            &&& ctx.action == prompt.text
            &&& ctx.payload == json_object(
                Map::empty().insert("text"@, json_text(Some(prompt.text@))),
            )
            &&& ctx.soul_id == Some(profile.id)
            &&& profile.expertise@.len() == 0 ==> ctx.domain is None
            &&& profile.expertise@.len() > 0 ==> ctx.domain == Some(profile.expertise@[0])
            &&& profile.preferred_brains@.len() == 0 ==> ctx.brain_profile is None
            &&& profile.preferred_brains@.len() > 0 ==> {
                &&& ctx.brain_profile is Some
                &&& ctx.brain_profile->0@ == "zeus://"@ + profile.preferred_brains@[0]@
            }
        },
{
    let ctx = request->Reason_0;
    assert forall|i: int| #![trigger memory[i]] 0 <= i < memory.len() implies {
        &&& ctx.memory@[i].key == memory[i].key
        &&& ctx.memory@[i].value == memory[i].value
        &&& ctx.memory@[i].relevance.bits == memory[i].relevance.bits
    } by {
        assert(same_item(ctx.memory@[i], memory[i]));
    }
}

/// The same of an input built directly from prompt, profile and memory.
pub proof fn law_reason_ctx_field_by_field(
    ctx: ReasonCtx,
    prompt: UserPrompt,
    profile: SoulProfile,
    memory: Seq<RecalledItem>,
)
    requires
        is_reason_ctx(ctx, prompt, profile, memory),
    ensures
        ctx.memory@.len() == memory.len(),
        forall|i: int|
            #![trigger ctx.memory@[i]]
            #![trigger memory[i]]
            0 <= i < memory.len() ==> {
                &&& ctx.memory@[i].key == memory[i].key
                &&& ctx.memory@[i].value == memory[i].value
                &&& ctx.memory@[i].relevance.bits == memory[i].relevance.bits
            },
        ctx.intent_id@ == prompt.session_id@ + "::"@ + prompt.actor_id@,
        ctx.action == prompt.text,
        ctx.payload == json_object(Map::empty().insert("text"@, json_text(Some(prompt.text@)))),
        ctx.soul_id == Some(profile.id),
        profile.expertise@.len() == 0 ==> ctx.domain is None,
        profile.expertise@.len() > 0 ==> ctx.domain == Some(profile.expertise@[0]),
        profile.preferred_brains@.len() == 0 ==> ctx.brain_profile is None,
        profile.preferred_brains@.len() > 0 ==> ctx.brain_profile is Some
            && ctx.brain_profile->0@ == "zeus://"@ + profile.preferred_brains@[0]@,
{
    assert forall|i: int| #![trigger memory[i]] 0 <= i < memory.len() implies {
        &&& ctx.memory@[i].key == memory[i].key
        &&& ctx.memory@[i].value == memory[i].value
        &&& ctx.memory@[i].relevance.bits == memory[i].relevance.bits
    } by {
        assert(same_item(ctx.memory@[i], memory[i]));
    }
}

/// A run waits for the reply of the service it asked, whatever that reply holds, and for no other.
pub proof fn law_the_reply_to_the_request_is_awaited(
    orch: SoulOrchestrator,
    run: RunView,
    request: Request,
    reply: Reply,
)
    requires
        orch.asks(run, request),
    ensures
        run.awaits(reply) <==> match request {
            Request::Authorize(_) => reply is Authorized,
            Request::Route(_) => reply is Routed,
            Request::RunHooks(_) => reply is HooksRan,
            Request::LoadProfile { .. } => reply is ProfileLoaded,
            Request::LoadMemory { .. } => reply is MemoryLoaded,
            Request::Reason(_) => reply is Reasoned,
            Request::Save(_) => reply is Saved,
        },
{
}

/// What the authority's reply leads to.
pub proof fn law_after_authorizing(
    orch: SoulOrchestrator,
    prompt: UserPrompt,
    authorized: Result<AuthDecision, SoulError>,
    step: Step,
)
    requires
        orch.takes(
            prompt,
            orch.next(
                RunView { prompt, phase: PhaseView::Authorizing },
                Reply::Authorized(authorized),
            ),
            step,
        ),
    ensures
        authorized matches Err(e) ==> step == Step::Done(
            Err(OrchError::AuthDenied { msg: e.msg }),
        ),
        authorized matches Ok(decision) ==> !decision.allowed ==> step == Step::Done(
            Err(OrchError::AuthDenied { msg: decision.reason }),
        ),
        authorized matches Ok(decision) ==> decision.allowed ==> (step matches Step::Ask(
            run,
            request,
        ) && {
            &&& run@ == (RunView { prompt, phase: PhaseView::Routing })
            &&& orch.asks(run@, request)
        }),
{
}

/// What the router's reply leads to: the visit to the first soul of the route, or a result without
/// answers where no soul is called.
pub proof fn law_after_routing(
    orch: SoulOrchestrator,
    prompt: UserPrompt,
    routed: Result<Route, RoutingError>,
    step: Step,
)
    requires
        orch.takes(
            prompt,
            orch.next(RunView { prompt, phase: PhaseView::Routing }, Reply::Routed(routed)),
            step,
        ),
    ensures
        routed matches Err(e) ==> step == Step::Done(Err(OrchError::RoutingFailed { msg: e.msg })),
        routed matches Ok(route) ==> (route.souls@.len() == 0 || orch.config.max_concurrent_souls
            == 0) ==> (step matches Step::Done(Ok(res)) && {
            &&& res.session_id == prompt.session_id
            &&& res.prompt_text == prompt.text
            &&& res.souls_called@.len() == 0
            &&& res.results@.len() == 0
            &&& res.merged == json_text(None)
            &&& res.strategy == route.strategy
        }),
        routed matches Ok(route) ==> (route.souls@.len() > 0 && orch.config.max_concurrent_souls
            > 0) ==> (step matches Step::Ask(run, request) && {
            let count = if !orch.config.multi_soul_enabled {
                1
            } else if route.souls@.len() <= orch.config.max_concurrent_souls {
                route.souls@.len() as int
            } else {
                orch.config.max_concurrent_souls as int
            };
            &&& orch.asks(run@, request)
            &&& run@.prompt == prompt
            &&& run@.phase matches PhaseView::Visiting(progress, stage)
            &&& stage is Switching
            &&& progress.results.len() == 0
            &&& progress.strategy == route.strategy
            &&& progress.souls.len() == count
            &&& forall|i: int| 0 <= i < count ==> progress.souls[i] == route.souls@[i]
        }),
{
}

/// What the hooks before the switch lead to.
pub proof fn law_after_switching(
    orch: SoulOrchestrator,
    prompt: UserPrompt,
    progress: ProgressView,
    outcome: HookOutcome,
    step: Step,
)
    requires
        orch.takes(
            prompt,
            orch.next(
                RunView { prompt, phase: PhaseView::Visiting(progress, Stage::Switching) },
                Reply::HooksRan(outcome),
            ),
            step,
        ),
    ensures
        outcome is Stop ==> step == Step::Done(
            Err(OrchError::HookDenied { hook_id: orch.hook_ids.before_switch }),
        ),
        outcome is Continue ==> (step matches Step::Ask(run, request) && {
            &&& orch.asks(run@, request)
            &&& run@ == (RunView {
                prompt,
                phase: PhaseView::Visiting(progress, Stage::LoadingProfile),
            })
        }),
{
}

/// What the registry's reply leads to.
pub proof fn law_after_loading_the_profile(
    orch: SoulOrchestrator,
    prompt: UserPrompt,
    progress: ProgressView,
    loaded: Result<SoulProfile, ProfileError>,
    step: Step,
)
    requires
        orch.takes(
            prompt,
            orch.next(
                RunView { prompt, phase: PhaseView::Visiting(progress, Stage::LoadingProfile) },
                Reply::ProfileLoaded(loaded),
            ),
            step,
        ),
    ensures
        loaded matches Err(e) ==> step == Step::Done(
            Err(OrchError::SoulNotFound { soul_id: e.msg }),
        ),
        loaded matches Ok(profile) ==> (step matches Step::Ask(run, request) && {
            &&& orch.asks(run@, request)
            &&& run@ == (RunView {
                prompt,
                phase: PhaseView::Visiting(progress, Stage::LoadingMemory(profile)),
            })
        }),
{
}

/// What the memory's reply leads to.
pub proof fn law_after_loading_the_memory(
    orch: SoulOrchestrator,
    prompt: UserPrompt,
    progress: ProgressView,
    profile: SoulProfile,
    loaded: Result<Vec<RecalledItem>, MemoryError>,
    step: Step,
)
    requires
        orch.takes(
            prompt,
            orch.next(
                RunView {
                    prompt,
                    phase: PhaseView::Visiting(progress, Stage::LoadingMemory(profile)),
                },
                Reply::MemoryLoaded(loaded),
            ),
            step,
        ),
    ensures
        loaded matches Err(e) ==> step == Step::Done(Err(OrchError::MemoryError { msg: e.msg })),
        loaded matches Ok(memory) ==> (step matches Step::Ask(run, request) && {
            &&& orch.asks(run@, request)
            &&& run@ == (RunView {
                prompt,
                phase: PhaseView::Visiting(progress, Stage::EnteringBrain(profile, memory)),
            })
        }),
{
}

/// What the hooks before the brain lead to: the brain works on the profile and on all of the
/// memory that were loaded.
pub proof fn law_after_entering_the_brain(
    orch: SoulOrchestrator,
    prompt: UserPrompt,
    progress: ProgressView,
    profile: SoulProfile,
    memory: Vec<RecalledItem>,
    outcome: HookOutcome,
    step: Step,
)
    requires
        orch.takes(
            prompt,
            orch.next(
                RunView {
                    prompt,
                    phase: PhaseView::Visiting(progress, Stage::EnteringBrain(profile, memory)),
                },
                Reply::HooksRan(outcome),
            ),
            step,
        ),
    ensures
        outcome is Stop ==> step == Step::Done(
            Err(OrchError::HookDenied { hook_id: orch.hook_ids.before_brain }),
        ),
        outcome is Continue ==> (step matches Step::Ask(run, request) && {
            &&& orch.asks(run@, request)
            &&& run@ == (RunView {
                prompt,
                phase: PhaseView::Visiting(
                    progress,
                    Stage::Reasoning(Ghost(profile), Ghost(memory@)),
                ),
            })
        }),
{
}

/// What the brain's reply leads to.
pub proof fn law_after_reasoning(
    orch: SoulOrchestrator,
    prompt: UserPrompt,
    progress: ProgressView,
    profile: SoulProfile,
    memory: Seq<RecalledItem>,
    reasoned: Result<ReasonResult, BrainError>,
    step: Step,
)
    requires
        orch.takes(
            prompt,
            orch.next(
                RunView {
                    prompt,
                    phase: PhaseView::Visiting(
                        progress,
                        Stage::Reasoning(Ghost(profile), Ghost(memory)),
                    ),
                },
                Reply::Reasoned(reasoned),
            ),
            step,
        ),
    ensures
        reasoned matches Err(e) ==> step == Step::Done(Err(OrchError::BrainFailed { msg: e.msg })),
        reasoned matches Ok(said) ==> (step matches Step::Ask(run, request) && {
            &&& orch.asks(run@, request)
            &&& run@ == (RunView {
                prompt,
                phase: PhaseView::Visiting(progress, Stage::LeavingBrain(said)),
            })
        }),
{
}

/// Whatever the hooks after the brain do, what the brain said goes to be saved, as the answer of
/// the soul visited and with every figure as it was.
pub proof fn law_after_leaving_the_brain(
    orch: SoulOrchestrator,
    prompt: UserPrompt,
    progress: ProgressView,
    said: ReasonResult,
    outcome: HookOutcome,
    step: Step,
)
    requires
        orch.takes(
            prompt,
            orch.next(
                RunView { prompt, phase: PhaseView::Visiting(progress, Stage::LeavingBrain(said)) },
                Reply::HooksRan(outcome),
            ),
            step,
        ),
    ensures
        step matches Step::Ask(run, request) && {
            &&& orch.asks(run@, request)
            &&& run@.prompt == prompt
            &&& run@.phase matches PhaseView::Visiting(kept, Stage::Saving(result))
            &&& kept == progress
            &&& result.soul_id == progress.souls[progress.results.len() as int]
            &&& result.brain_id == said.model_id
            &&& result.output == said.output
            &&& result.confidence.bits == said.confidence.bits
            &&& result.tokens == said.tokens_used
            &&& result.latency_ms == said.latency_ms
            &&& request matches Request::Save(saved)
            &&& saved.content == said.output
        },
{
}

/// Whether the answer could be saved or not, the hooks after the response are run.
pub proof fn law_after_saving(
    orch: SoulOrchestrator,
    prompt: UserPrompt,
    progress: ProgressView,
    result: SoulResult,
    saved: Result<(), MemoryError>,
    step: Step,
)
    requires
        orch.takes(
            prompt,
            orch.next(
                RunView { prompt, phase: PhaseView::Visiting(progress, Stage::Saving(result)) },
                Reply::Saved(saved),
            ),
            step,
        ),
    ensures
        step matches Step::Ask(run, request) && {
            &&& orch.asks(run@, request)
            &&& run@ == (RunView {
                prompt,
                phase: PhaseView::Visiting(progress, Stage::Responding(result)),
            })
        },
{
}

/// Whatever the hooks after the response do, the answer joins the others, last, and the next soul
/// is visited; after the last one the run is done, with every answer in it.
pub proof fn law_after_responding(
    orch: SoulOrchestrator,
    prompt: UserPrompt,
    progress: ProgressView,
    result: SoulResult,
    outcome: HookOutcome,
    step: Step,
)
    requires
        progress.results.len() < progress.souls.len(),
        orch.takes(
            prompt,
            orch.next(
                RunView { prompt, phase: PhaseView::Visiting(progress, Stage::Responding(result)) },
                Reply::HooksRan(outcome),
            ),
            step,
        ),
    ensures
        progress.results.len() + 1 < progress.souls.len() ==> (step matches Step::Ask(
            run,
            request,
        ) && {
            &&& orch.asks(run@, request)
            &&& run@ == (RunView {
                prompt,
                phase: PhaseView::Visiting(
                    ProgressView {
                        souls: progress.souls,
                        strategy: progress.strategy,
                        results: progress.results.push(result),
                    },
                    Stage::Switching,
                ),
            })
        }),
        progress.results.len() + 1 == progress.souls.len() ==> (step matches Step::Done(Ok(res))
            && {
            &&& res.session_id == prompt.session_id
            &&& res.prompt_text == prompt.text
            &&& res.souls_called@ == progress.souls
            &&& res.results@ == progress.results.push(result)
            &&& res.strategy == progress.strategy
            &&& res.merged == merged_output(progress.results.push(result))
            &&& prevails(res.results@, winner(res.results@))
            &&& res.merged == res.results@[winner(res.results@)].output
        }),
{
    law_some_result_prevails(progress.results.push(result));
}

/// A completed run reports what the services replied: the souls are the first of the
/// route, and the result of each carries the brain's output, confidence, tokens, model
/// and latency of the visit to it, unchanged. No hook stopped it and no service failed it.
pub proof fn law_completed_runs_report_the_replies(
    orch: SoulOrchestrator,
    prompt: UserPrompt,
    replies: Replies,
    progress: ProgressView,
)
    requires
        replies.routed matches Ok(route) ==> replies.visits.len() >= orch.config.called(
            route.souls@,
        ).len(),
        orch.play(
            RunView { prompt, phase: PhaseView::Authorizing },
            replies,
            2 + 8 * orch.config.soul_limit(),
        ) == Some(Next::Complete(progress)),
    ensures
        replies.authorized matches Ok(decision) && decision.allowed,
        replies.routed matches Ok(route) && {
            &&& progress.strategy == route.strategy
            &&& progress.souls.len() <= route.souls@.len()
            &&& progress.souls.len() <= orch.config.max_concurrent_souls
            &&& !orch.config.multi_soul_enabled ==> progress.souls.len() <= 1
            &&& orch.config.multi_soul_enabled ==> progress.souls.len() == route.souls@.len()
                || progress.souls.len() == orch.config.max_concurrent_souls
            &&& route.souls@.len() > 0 && orch.config.max_concurrent_souls > 0
                ==> progress.souls.len() > 0
            &&& forall|i: int|
                0 <= i < progress.souls.len() ==> #[trigger] progress.souls[i] == route.souls@[i]
        },
        progress.results.len() == progress.souls.len(),
        forall|i: int|
            #![trigger progress.results[i]]
            #![trigger replies.visits[i]]
            0 <= i < progress.results.len() ==> {
                &&& replies.visits[i].before_switch is Continue
                &&& replies.visits[i].profile is Ok
                &&& replies.visits[i].memory is Ok
                &&& replies.visits[i].before_brain is Continue
                &&& replies.visits[i].reasoned matches Ok(said)
                &&& progress.results[i].soul_id == progress.souls[i]
                &&& progress.results[i].brain_id == said.model_id
                &&& progress.results[i].output == said.output
                &&& progress.results[i].confidence.bits == said.confidence.bits
                &&& progress.results[i].tokens == said.tokens_used
                &&& progress.results[i].latency_ms == said.latency_ms
            },
{
    law_runs_come_to_their_end(orch, prompt, replies);
}

/// A failed run reports the first thing that went wrong, and only what did go wrong.
pub proof fn law_failed_runs_report_the_first_failure(
    orch: SoulOrchestrator,
    prompt: UserPrompt,
    replies: Replies,
    err: OrchError,
)
    requires
        replies.routed matches Ok(route) ==> replies.visits.len() >= orch.config.called(
            route.souls@,
        ).len(),
        orch.play(
            RunView { prompt, phase: PhaseView::Authorizing },
            replies,
            2 + 8 * orch.config.soul_limit(),
        ) == Some(Next::Fail(err)),
    ensures
        replies.authorized matches Err(e) ==> err == (OrchError::AuthDenied { msg: e.msg }),
        replies.authorized matches Ok(decision) ==> !decision.allowed ==> err == (
        OrchError::AuthDenied { msg: decision.reason }),
        replies.authorized matches Ok(decision) ==> decision.allowed ==> (replies.routed matches
            Err(e) ==> err == (OrchError::RoutingFailed { msg: e.msg })),
        replies.authorized matches Ok(decision) ==> decision.allowed ==> (replies.routed matches
            Ok(route) ==> exists|i: int|
            {
                let visit = #[trigger] replies.visits[i];
                &&& 0 <= i < route.souls@.len()
                &&& i < orch.config.max_concurrent_souls
                &&& !orch.config.multi_soul_enabled ==> i == 0
                &&& forall|j: int|
                    0 <= j < i ==> {
                        let earlier = #[trigger] replies.visits[j];
                        &&& earlier.before_switch is Continue
                        &&& earlier.profile is Ok
                        &&& earlier.memory is Ok
                        &&& earlier.before_brain is Continue
                        &&& earlier.reasoned is Ok
                    }
                &&& if visit.before_switch is Stop {
                    err == (OrchError::HookDenied { hook_id: orch.hook_ids.before_switch })
                } else if visit.profile is Err {
                    err == (OrchError::SoulNotFound { soul_id: visit.profile->Err_0.msg })
                } else if visit.memory is Err {
                    err == (OrchError::MemoryError { msg: visit.memory->Err_0.msg })
                } else if visit.before_brain is Stop {
                    err == (OrchError::HookDenied { hook_id: orch.hook_ids.before_brain })
                } else {
                    &&& visit.reasoned is Err
                    &&& err == (OrchError::BrainFailed { msg: visit.reasoned->Err_0.msg })
                }
            }),
{
    law_runs_come_to_their_end(orch, prompt, replies);
    if replies.authorized is Ok && replies.authorized->Ok_0.allowed && replies.routed is Ok {
        let i = choose|i: int|
            {
                &&& 0 <= i < orch.config.called(replies.routed->Ok_0.souls@).len()
                &&& orch.refusal(#[trigger] replies.visits[i]) is Some
                &&& forall|j: int| 0 <= j < i ==> orch.refusal(#[trigger] replies.visits[j]) is None
                &&& Next::Fail(err) == Next::Fail(orch.refusal(replies.visits[i])->0)
            };
        let visit = replies.visits[i];
        assert(orch.refusal(visit) is Some);
        assert forall|j: int| 0 <= j < i implies {
            let earlier = #[trigger] replies.visits[j];
            &&& earlier.before_switch is Continue
            &&& earlier.profile is Ok
            &&& earlier.memory is Ok
            &&& earlier.before_brain is Continue
            &&& earlier.reasoned is Ok
        } by {
            assert(orch.refusal(replies.visits[j]) is None);
        }
    }
}

/// A run asks nothing more of its state than this: that the souls answered so far are the first
/// ones, that one is left to visit, and that an answer not yet counted is that soul's.
pub proof fn law_well_formed_runs(prompt: UserPrompt, progress: ProgressView, stage: Stage)
    ensures
        (RunView { prompt, phase: PhaseView::Authorizing }).well_formed(),
        (RunView { prompt, phase: PhaseView::Routing }).well_formed(),
        (RunView { prompt, phase: PhaseView::Visiting(progress, stage) }).well_formed() <==> {
            &&& progress.results.len() < progress.souls.len()
            &&& forall|i: int|
                0 <= i < progress.results.len() ==> (#[trigger] progress.results[i]).soul_id
                    == progress.souls[i]
            &&& stage matches Stage::Saving(result) ==> result.soul_id
                == progress.souls[progress.results.len() as int]
            &&& stage matches Stage::Responding(result) ==> result.soul_id
                == progress.souls[progress.results.len() as int]
        },
{
}

} // verus!
