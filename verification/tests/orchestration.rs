use hace_soul_orch::error::{BrainError, MemoryError, ProfileError, RoutingError, SoulError};
use hace_soul_orch::services::{
    AuthDecision, HookIds, HookOutcome, HookPoint, Interaction, ReasonCtx, ReasonResult,
    RecalledItem, Reply, Request, Route, SoulProfile,
};
use hace_soul_orch::{
    OrchConfig, OrchError, OrchResult, Score, SoulOrchestrator, Step, UserPrompt,
};
use serde_json::Value;

fn json(text: &str) -> Value {
    serde_json::from_str(text).unwrap()
}

fn hook_ids() -> HookIds {
    HookIds {
        before_switch: "hok.before_switch".into(),
        before_brain: "hok.before_brain".into(),
        after_brain: "hok.after_brain".into(),
        after_response: "hok.after_response".into(),
    }
}

/// Services that reply from what they are given, and keep what they are asked.
struct Services {
    authority: Result<(bool, String), String>,
    route: Option<Result<Vec<String>, String>>,
    stopped_at: Vec<HookPoint>,
    unknown_soul: Option<String>,
    memory_failure: Option<String>,
    save_failure: Option<String>,
    brain_failure: Option<String>,
    confidences: Vec<f32>,
    store: Vec<Interaction>,
    asked: Vec<String>,
    ctxs: Vec<ReasonCtx>,
    recalled: Vec<usize>,
}

fn services() -> Services {
    Services {
        authority: Ok((true, "devnet".into())),
        route: None,
        stopped_at: Vec::new(),
        unknown_soul: None,
        memory_failure: None,
        save_failure: None,
        brain_failure: None,
        confidences: Vec::new(),
        store: Vec::new(),
        asked: Vec::new(),
        ctxs: Vec::new(),
        recalled: Vec::new(),
    }
}

fn soul_list(names: &[&str]) -> Vec<String> {
    names.iter().map(|n| n.to_string()).collect()
}

impl Services {
    fn select(&self, text: &str, domain: &Option<String>) -> Result<Route, RoutingError> {
        let table: [(&str, &[&str]); 3] = [
            ("code", &["soul://coder"]),
            ("architecture", &["soul://architect", "soul://auditor"]),
            ("policy", &["soul://legal"]),
        ];
        if let Some(fixed) = &self.route {
            return match fixed {
                Ok(souls) => Ok(Route { souls: souls.clone(), strategy: "fixed".into() }),
                Err(msg) => Err(RoutingError { msg: msg.clone() }),
            };
        }
        for (word, souls) in table {
            if text.split(' ').any(|w| w == word) || domain.as_deref() == Some(word) {
                return Ok(Route { souls: soul_list(souls), strategy: "static".into() });
            }
        }
        Err(RoutingError { msg: format!("no soul for {}", text) })
    }

    fn reply(&mut self, request: Request) -> Reply {
        match request {
            Request::Authorize(asked) => {
                self.asked.push(format!(
                    "authorize {} {} {}",
                    asked.actor_id, asked.scope, asked.action
                ));
                Reply::Authorized(match &self.authority {
                    Ok((allowed, reason)) => {
                        Ok(AuthDecision { allowed: *allowed, reason: reason.clone() })
                    }
                    Err(msg) => Err(SoulError { msg: msg.clone() }),
                })
            }
            Request::Route(asked) => {
                self.asked.push(format!("route {:?} {:?}", asked.text, asked.domain));
                Reply::Routed(self.select(&asked.text, &asked.domain))
            }
            Request::RunHooks(ctx) => {
                self.asked.push(format!(
                    "hooks {} {} {} {} {}",
                    ctx.hook_id,
                    ctx.action,
                    ctx.soul_id.unwrap(),
                    ctx.session_id.unwrap(),
                    ctx.actor_id.unwrap()
                ));
                if self.stopped_at.contains(&ctx.point) {
                    Reply::HooksRan(HookOutcome::Stop)
                } else {
                    Reply::HooksRan(HookOutcome::Continue)
                }
            }
            Request::LoadProfile { soul_id } => {
                self.asked.push(format!("profile {}", soul_id));
                if self.unknown_soul.as_ref() == Some(&soul_id) {
                    Reply::ProfileLoaded(Err(ProfileError {
                        msg: format!("unknown soul {}", soul_id),
                    }))
                } else {
                    Reply::ProfileLoaded(Ok(SoulProfile {
                        id: soul_id,
                        expertise: vec!["rust".into(), "async".into()],
                        preferred_brains: vec!["echo".into()],
                    }))
                }
            }
            Request::LoadMemory { soul_id, session_id, limit } => {
                self.asked.push(format!("memory {} {} {}", soul_id, session_id, limit));
                if let Some(msg) = &self.memory_failure {
                    return Reply::MemoryLoaded(Err(MemoryError { msg: msg.clone() }));
                }
                let items: Vec<RecalledItem> = self
                    .store
                    .iter()
                    .filter(|i| i.soul_id == soul_id && i.session_id == session_id)
                    .take(limit)
                    .map(|i| RecalledItem {
                        key: i.role.clone(),
                        value: i.content.clone(),
                        relevance: Score::from_bits(1.0f32.to_bits()),
                    })
                    .collect();
                self.recalled.push(items.len());
                Reply::MemoryLoaded(Ok(items))
            }
            Request::Reason(ctx) => {
                self.asked.push(format!("reason {}", ctx.soul_id.clone().unwrap()));
                if let Some(msg) = &self.brain_failure {
                    return Reply::Reasoned(Err(BrainError { msg: msg.clone() }));
                }
                let nth = self.ctxs.len();
                let confidence = *self.confidences.get(nth).unwrap_or(&0.9);
                let mut echo = serde_json::Map::new();
                echo.insert("echo".into(), Value::from(ctx.action.clone()));
                echo.insert("nth".into(), Value::from(nth));
                self.ctxs.push(ctx);
                Reply::Reasoned(Ok(ReasonResult {
                    output: Value::from(echo),
                    confidence: Score::from_bits(confidence.to_bits()),
                    tokens_used: 7,
                    model_id: "echo".into(),
                    latency_ms: 1,
                }))
            }
            Request::Save(interaction) => {
                self.asked.push(format!("save {}", interaction.soul_id));
                if let Some(msg) = &self.save_failure {
                    return Reply::Saved(Err(MemoryError { msg: msg.clone() }));
                }
                self.store.push(interaction);
                Reply::Saved(Ok(()))
            }
        }
    }

    fn drive(&mut self, orch: &SoulOrchestrator, prompt: UserPrompt) -> Result<OrchResult, OrchError> {
        let mut step = orch.process(prompt);
        loop {
            match step {
                Step::Done(outcome) => return outcome,
                Step::Ask(run, request) => {
                    let reply = self.reply(request);
                    assert!(run.awaits(&reply));
                    step = orch.resume(run, reply);
                }
            }
        }
    }
}

fn orch() -> SoulOrchestrator {
    SoulOrchestrator::new(OrchConfig::default(), hook_ids())
}

fn prompt(session: &str, text: &str) -> UserPrompt {
    UserPrompt {
        session_id: session.into(),
        actor_id: "aid://dev1".into(),
        text: text.into(),
        domain: None,
    }
}

#[test]
fn process_code_prompt_routes_to_coder() {
    let result = services().drive(&orch(), prompt("s1", "write Rust async code")).unwrap();
    assert!(result.souls_called.contains(&"soul://coder".to_string()));
    assert!(!result.results.is_empty());
    assert_eq!(result.strategy, "static");
}

#[test]
fn process_design_prompt_routes_to_architect_and_auditor() {
    let text = "design system architecture for caem";
    let result = services().drive(&orch(), prompt("s2", text)).unwrap();
    assert!(result.souls_called.contains(&"soul://architect".to_string()));
    assert_eq!(result.souls_called, soul_list(&["soul://architect", "soul://auditor"]));
}

#[test]
fn process_legal_prompt_routes_to_legal() {
    let text = "review this RC contract policy";
    let result = services().drive(&orch(), prompt("s3", text)).unwrap();
    assert!(result.souls_called.contains(&"soul://legal".to_string()));
}

#[test]
fn memory_persists_across_calls() {
    let mut services = services();
    services.drive(&orch(), prompt("s4", "write Rust code")).unwrap();
    let r2 = services.drive(&orch(), prompt("s4", "write Rust code again")).unwrap();
    assert!(!r2.results.is_empty());
    assert_eq!(services.recalled, vec![0, 1]);
    assert_eq!(services.ctxs[1].memory.len(), 1);
    assert_eq!(services.ctxs[1].memory[0].key, "soul");
    assert_eq!(services.ctxs[1].memory[0].value["echo"], "write Rust code");
}

#[test]
fn requests_come_in_order() {
    let mut services = services();
    services.drive(&orch(), prompt("s1", "write code")).unwrap();
    assert_eq!(
        services.asked,
        soul_list(&[
            "authorize aid://dev1 aura-orch soul.process",
            "route \"write code\" None",
            "hooks hok.before_switch soul_switch soul://coder s1 aid://dev1",
            "profile soul://coder",
            "memory soul://coder s1 5",
            "hooks hok.before_brain brain.reason soul://coder s1 aid://dev1",
            "reason soul://coder",
            "hooks hok.after_brain brain.reason.done soul://coder s1 aid://dev1",
            "save soul://coder",
            "hooks hok.after_response soul.response soul://coder s1 aid://dev1",
        ])
    );
}

#[test]
fn a_run_takes_no_more_than_two_replies_and_eight_per_soul() {
    let mut services = services();
    services.route = Some(Ok(soul_list(&["a", "b", "c", "d"])));
    services.drive(&orch(), prompt("s", "x")).unwrap();
    assert_eq!(services.asked.len(), 2 + 8 * 3);
}

#[test]
fn the_domain_hint_reaches_the_router() {
    let mut services = services();
    let mut hinted = prompt("s", "anything");
    hinted.domain = Some("policy".into());
    let result = services.drive(&orch(), hinted).unwrap();
    assert_eq!(result.souls_called, soul_list(&["soul://legal"]));
    assert_eq!(services.asked[1], "route \"anything\" Some(\"policy\")");
}

#[test]
fn the_result_holds_every_answer_in_order() {
    let mut services = services();
    services.route = Some(Ok(soul_list(&["a", "b", "c"])));
    services.confidences = vec![0.5, 0.8, 0.6];
    let result = services.drive(&orch(), prompt("s", "hello")).unwrap();
    assert_eq!(result.session_id, "s");
    assert_eq!(result.prompt_text, "hello");
    assert_eq!(result.strategy, "fixed");
    assert_eq!(result.souls_called, soul_list(&["a", "b", "c"]));
    let souls: Vec<String> = result.results.iter().map(|r| r.soul_id.clone()).collect();
    assert_eq!(souls, result.souls_called);
    assert_eq!(result.results[1].brain_id, "echo");
    assert_eq!(result.results[1].tokens, 7);
    assert_eq!(result.results[1].latency_ms, 1);
    assert_eq!(f32::from_bits(result.results[1].confidence.to_bits()), 0.8);
    assert_eq!(result.results[2].output, json(r#"{"echo": "hello", "nth": 2}"#));
    assert_eq!(result.merged, json(r#"{"echo": "hello", "nth": 1}"#));
}

#[test]
fn what_is_saved_is_what_is_reported() {
    let mut services = services();
    let result = services.drive(&orch(), prompt("s9", "write code")).unwrap();
    let saved = &services.store[0];
    assert_eq!(saved.soul_id, "soul://coder");
    assert_eq!(saved.session_id, "s9");
    assert_eq!(saved.role, "soul");
    assert_eq!(saved.created_at, 0);
    assert_eq!(saved.content, result.results[0].output);
    assert_eq!(saved.content["echo"], "write code");
}

#[test]
fn the_brain_gets_prompt_profile_and_memory() {
    let recalled = vec![
        RecalledItem {
            key: "k1".into(),
            value: json("[1, 2]"),
            relevance: Score::from_bits(0.25f32.to_bits()),
        },
        RecalledItem {
            key: "k2".into(),
            value: Value::Null,
            relevance: Score::from_bits(0.5f32.to_bits()),
        },
    ];
    let profile = SoulProfile {
        id: "soul://coder".into(),
        expertise: soul_list(&["rust", "async"]),
        preferred_brains: soul_list(&["local-7b", "cloud"]),
    };
    let ctx = orch().build_reason_ctx(&prompt("s1", "say \"hi\""), &profile, recalled);
    assert_eq!(ctx.intent_id, "s1::aid://dev1");
    assert_eq!(ctx.action, "say \"hi\"");
    assert_eq!(ctx.payload, json(r#"{"text": "say \"hi\""}"#));
    assert_eq!(ctx.domain.as_deref(), Some("rust"));
    assert_eq!(ctx.soul_id.as_deref(), Some("soul://coder"));
    assert_eq!(ctx.brain_profile.as_deref(), Some("zeus://local-7b"));
    assert_eq!(ctx.memory.len(), 2);
    assert_eq!(ctx.memory[0].key, "k1");
    assert_eq!(ctx.memory[0].value, json("[1, 2]"));
    assert_eq!(f32::from_bits(ctx.memory[0].relevance.to_bits()), 0.25);
    assert_eq!(ctx.memory[1].key, "k2");
    assert_eq!(ctx.memory[1].value, Value::Null);
}

#[test]
fn a_bare_profile_gives_no_domain_and_no_brain() {
    let profile =
        SoulProfile { id: "x".into(), expertise: Vec::new(), preferred_brains: Vec::new() };
    let ctx = orch().build_reason_ctx(&prompt("s1", ""), &profile, Vec::new());
    assert_eq!(ctx.domain, None);
    assert_eq!(ctx.brain_profile, None);
    assert_eq!(ctx.soul_id.as_deref(), Some("x"));
    assert_eq!(ctx.payload, json(r#"{"text": ""}"#));
    assert!(ctx.memory.is_empty());
}

#[test]
fn a_denied_actor_is_told_why_and_nothing_else_happens() {
    let mut services = services();
    services.authority = Ok((false, "no grant".into()));
    let err = services.drive(&orch(), prompt("s", "write code")).unwrap_err();
    assert!(matches!(&err, OrchError::AuthDenied { msg } if msg == "no grant"));
    assert_eq!(services.asked.len(), 1);
}

#[test]
fn a_failing_authority_denies() {
    let mut services = services();
    services.authority = Err("authority down".into());
    let err = services.drive(&orch(), prompt("s", "write code")).unwrap_err();
    assert!(matches!(&err, OrchError::AuthDenied { msg } if msg == "authority down"));
}

#[test]
fn a_failing_router_ends_the_run() {
    let mut services = services();
    services.route = Some(Err("no match".into()));
    let err = services.drive(&orch(), prompt("s", "x")).unwrap_err();
    assert!(matches!(&err, OrchError::RoutingFailed { msg } if msg == "no match"));
    assert_eq!(services.asked.len(), 2);
}

#[test]
fn hooks_before_the_switch_can_stop_the_run() {
    let mut services = services();
    services.stopped_at = vec![HookPoint::BeforeSwitch];
    let err = services.drive(&orch(), prompt("s", "write code")).unwrap_err();
    assert!(matches!(&err, OrchError::HookDenied { hook_id } if hook_id == "hok.before_switch"));
    assert_eq!(services.asked.len(), 3);
}

#[test]
fn hooks_before_the_brain_can_stop_the_run() {
    let mut services = services();
    services.stopped_at = vec![HookPoint::BeforeBrain];
    let err = services.drive(&orch(), prompt("s", "write code")).unwrap_err();
    assert!(matches!(&err, OrchError::HookDenied { hook_id } if hook_id == "hok.before_brain"));
    assert!(services.ctxs.is_empty());
}

#[test]
fn an_unknown_soul_ends_the_run_after_earlier_visits() {
    let mut services = services();
    services.route = Some(Ok(soul_list(&["a", "b", "c"])));
    services.unknown_soul = Some("b".into());
    let err = services.drive(&orch(), prompt("s", "x")).unwrap_err();
    assert!(matches!(&err, OrchError::SoulNotFound { soul_id } if soul_id == "unknown soul b"));
    assert_eq!(services.ctxs.len(), 1);
    assert_eq!(services.store.len(), 1);
}

#[test]
fn a_memory_that_cannot_load_ends_the_run() {
    let mut services = services();
    services.memory_failure = Some("locked".into());
    let err = services.drive(&orch(), prompt("s", "write code")).unwrap_err();
    assert!(matches!(&err, OrchError::MemoryError { msg } if msg == "locked"));
}

#[test]
fn a_failing_brain_ends_the_run() {
    let mut services = services();
    services.brain_failure = Some("out of tokens".into());
    let err = services.drive(&orch(), prompt("s", "write code")).unwrap_err();
    assert!(matches!(&err, OrchError::BrainFailed { msg } if msg == "out of tokens"));
    assert!(services.store.is_empty());
}

#[test]
fn late_hooks_and_a_failed_save_change_nothing() {
    let calm = services().drive(&orch(), prompt("s", "write code")).unwrap();
    let mut services = services();
    services.stopped_at = vec![HookPoint::AfterBrain, HookPoint::AfterResponse];
    services.save_failure = Some("disk full".into());
    let result = services.drive(&orch(), prompt("s", "write code")).unwrap();
    assert_eq!(result.merged, calm.merged);
    assert_eq!(result.results.len(), 1);
}

#[test]
fn no_more_souls_than_the_limit_are_called() {
    let mut services = services();
    services.route = Some(Ok(soul_list(&["a", "b", "c", "d"])));
    let result = services.drive(&orch(), prompt("s", "x")).unwrap();
    assert_eq!(result.souls_called, soul_list(&["a", "b", "c"]));
}

#[test]
fn only_the_primary_soul_is_called_where_secondary_ones_are_off() {
    let mut services = services();
    services.route = Some(Ok(soul_list(&["a", "b"])));
    let config = OrchConfig { multi_soul_enabled: false, ..OrchConfig::default() };
    let orch = SoulOrchestrator::new(config, hook_ids());
    let result = services.drive(&orch, prompt("s", "x")).unwrap();
    assert_eq!(result.souls_called, soul_list(&["a"]));
    assert_eq!(result.results.len(), 1);
}

#[test]
fn without_souls_the_merged_output_is_null() {
    let mut services = services();
    services.route = Some(Ok(Vec::new()));
    let result = services.drive(&orch(), prompt("s", "x")).unwrap();
    assert!(result.results.is_empty());
    assert_eq!(result.merged, Value::Null);

    services.route = Some(Ok(soul_list(&["a"])));
    let config = OrchConfig { max_concurrent_souls: 0, ..OrchConfig::default() };
    let none = SoulOrchestrator::new(config, hook_ids());
    let result = services.drive(&none, prompt("s", "x")).unwrap();
    assert!(result.souls_called.is_empty());
    assert_eq!(result.merged, Value::Null);
}

#[test]
fn the_memory_limit_is_handed_over() {
    let mut services = services();
    let config = OrchConfig { memory_context_limit: 1, ..OrchConfig::default() };
    let orch = SoulOrchestrator::new(config, hook_ids());
    for _ in 0..3 {
        services.drive(&orch, prompt("s", "write code")).unwrap();
    }
    assert_eq!(services.recalled, vec![0, 1, 1]);
    assert!(services.asked.contains(&"memory soul://coder s 1".to_string()));
}

#[test]
fn a_run_waits_for_the_reply_to_its_request() {
    match orch().process(prompt("s", "x")) {
        Step::Ask(run, _) => {
            assert!(run.awaits(&Reply::Authorized(Err(SoulError { msg: "m".into() }))));
            assert!(!run.awaits(&Reply::HooksRan(HookOutcome::Continue)));
            assert!(!run.awaits(&Reply::Saved(Ok(()))));
        }
        Step::Done(_) => unreachable!(),
    }
}
