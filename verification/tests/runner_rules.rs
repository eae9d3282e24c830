use tradeassembly_runtime::agent_runner::capability::AgentMcpExecutionCapability;
use tradeassembly_runtime::agent_runner::codex::{
    checked, codex_binary, codex_command_args, extract_session_ref, is_package_script,
    keep_output, resolve_codex_executable, session_after_call, BindingPath, CodexBinary,
    CodexCliAdapter, DEFAULT_CODEX_OUTPUT_BYTES,
};
use tradeassembly_runtime::agent_runner::cron::{
    ceil_to_minute, cron_due_at_or_after, cron_missed_tick_count, floor_to_minute,
    next_cron_due_after, CronFault, CronUtcSchedule, MAX_COALESCED_TICKS,
};
use tradeassembly_runtime::agent_runner::deployment::{
    canonical_allowlist, deployment_binding_digest, secret_shaped, valid_tools, AgentDeployment,
    AgentExecutor, AgentRunnerTiming, DEFAULT_LEASE_MS,
};
use tradeassembly_runtime::agent_runner::records::{redact, AgentRun};
use tradeassembly_runtime::agent_runner::schedule::{
    deployment_schedule, initial_schedule_state, interval_due, schedule_decision,
    AgentScheduleState, ScheduleDecision,
};
use tradeassembly_runtime::agent_runner::store::{
    put_deployment, put_deployment_with_context, set_desired_state,
    set_desired_state_with_context, with_desired_state, PutLookup,
};
use tradeassembly_runtime::agent_runner::supervise::{
    authorize_run, conclude_completed_run, conclude_failed_run, decide_active, decide_existing,
    decide_heartbeat, decide_recovered, decide_tick, elapsed_now_ms, lease_held, pass_receipt,
    plan_supervision, planned_run, previous_session, ActiveDecision, AdapterEvent,
    AgentEntitlementDecision, AgentEntitlementPort, Conclusion, DueTick, HeartbeatStep,
    LocalEntitlement, RunnerStep, TickDecision,
};
use tradeassembly_runtime::ai::clean_json_content;
use tradeassembly_runtime::json::Json;
use tradeassembly_runtime::ports::{
    AuthorityContext, LeaseClaim, SideEffectContext, StorageWrite, Stored, WriteAuthority,
};

fn parse(text: &str) -> Json {
    Json::Object(clean_json_content(text).expect("valid text"))
}

fn deployment() -> AgentDeployment {
    AgentDeployment {
        executor: AgentExecutor::default(),
        deployment_id: "d".to_string(),
        system_project_id: "system-test".to_string(),
        agent_definition_version_id: "agent-v1".to_string(),
        execution_config_version_id: "config-v1".to_string(),
        studio_tool_allowlist: vec!["studio.deployment.inspect".to_string()],
        desired_state: "active".to_string(),
        interval_seconds: 60,
        cron_utc: None,
        mode: "paper".to_string(),
        prompt: "Use redacted Studio evidence.".to_string(),
        workspace: "/tmp".to_string(),
        runtime_profile: "local-read-only".to_string(),
    }
}

fn lease() -> LeaseClaim {
    LeaseClaim {
        resource: "agent-deployment:d".to_string(),
        owner: "runner".to_string(),
        fencing_token: 3,
        expires_at_ms: 500_000,
    }
}

fn run_with(session: Option<&str>) -> AgentRun {
    AgentRun {
        run_id: "r".to_string(),
        deployment_id: "d".to_string(),
        trigger_id: "t".to_string(),
        state: "running".to_string(),
        lease_fence: 3,
        deployment_binding_digest: deployment_binding_digest(&deployment()),
        codex_session_ref: session.map(str::to_string),
    }
}

#[test]
fn cron_expressions_name_their_minutes() {
    let cron = CronUtcSchedule::parse("30 14 * * 1-5").expect("an expression");
    // Thursday 1 January 1970, 00:00 in UTC.
    let thursday = 14 * 3_600_000 + 30 * 60_000;
    assert_eq!(next_cron_due_after(&cron, 0), Ok(thursday));
    assert_eq!(next_cron_due_after(&cron, thursday), Ok(thursday + 86_400_000));
    // Friday is followed by Monday.
    assert_eq!(
        next_cron_due_after(&cron, thursday + 86_400_000),
        Ok(thursday + 4 * 86_400_000)
    );
    assert_eq!(cron_due_at_or_after(&cron, thursday), Ok(thursday));
    assert_eq!(
        cron_missed_tick_count(&cron, thursday, thursday + 86_400_000),
        Ok((1, false))
    );
    assert!(CronUtcSchedule::parse("60 * * * *").is_none());
    assert!(CronUtcSchedule::parse("* * * *").is_none());
    assert!(CronUtcSchedule::parse("5-1 * * * *").is_none());
    assert!(CronUtcSchedule::parse("*/15 * * * *").is_some());
    assert!(CronUtcSchedule::parse("*/0 * * * *").is_none());
}

#[test]
fn minutes_are_counted_and_capped() {
    let each = CronUtcSchedule::parse("* * * * *").expect("an expression");
    assert_eq!(cron_missed_tick_count(&each, 0, 180_000), Ok((3, false)));
    let (count, capped) =
        cron_missed_tick_count(&each, 0, 10 * 86_400_000).expect("a count");
    assert_eq!(count, MAX_COALESCED_TICKS);
    assert!(capped);
    assert_eq!(floor_to_minute(61_000), 60_000);
    assert_eq!(floor_to_minute(-1), -60_000);
    assert_eq!(ceil_to_minute(61_000), 120_000);
    assert_eq!(ceil_to_minute(60_000), 60_000);
    let never = CronUtcSchedule::parse("0 0 31 2 *").expect("an expression");
    assert_eq!(next_cron_due_after(&never, 0), Err(CronFault::NextDueUnavailable));
}

fn tick(now_ms: i64, stored: Stored<AgentScheduleState>) -> DueTick {
    match decide_tick(&deployment(), stored, now_ms) {
        TickDecision::Due(tick) => tick,
        TickDecision::Concluded(_) => panic!("not due"),
    }
}

#[test]
fn an_interval_is_due_once_and_then_counts_what_it_missed() {
    let schedule = deployment_schedule(&deployment()).expect("a schedule");
    let first = initial_schedule_state(&schedule);
    let due = interval_due(first, 60_000, 1_000_000).expect("due");
    assert_eq!(due.scheduled_for_ms, 1_000_000);
    assert_eq!(due.state.next_due_at_ms, 1_060_000);
    assert_eq!(due.state.missed_tick_count, 0);
    let later = interval_due(due.state, 60_000, 1_200_000).expect("due");
    assert_eq!(later.scheduled_for_ms, 1_060_000);
    assert_eq!(later.state.missed_tick_count, 2);
    assert_eq!(later.state.next_due_at_ms, 1_240_000);
    match schedule_decision(&schedule, Some(later.state), 1_239_999) {
        Ok(ScheduleDecision::NotDue { .. }) => {}
        _ => panic!("due"),
    }
}

#[test]
fn a_broken_state_or_schedule_ends_a_pass() {
    match decide_tick(&deployment(), Stored::Malformed, 5) {
        TickDecision::Concluded(end) => {
            assert_eq!(end.result.expect_err("a code"), "agent_schedule_state_invalid")
        }
        TickDecision::Due(_) => panic!("due"),
    }
    let mut idle = deployment();
    idle.interval_seconds = 0;
    match decide_tick(&idle, Stored::Absent, 5) {
        TickDecision::Concluded(end) => {
            assert_eq!(end.result.expect_err("a code"), "agent_deployment_invalid")
        }
        TickDecision::Due(_) => panic!("due"),
    }
}

fn outcome(end: &Conclusion) -> String {
    match &end.result {
        Ok(value) => value.text_field("outcome").expect("an outcome"),
        Err(code) => code.clone(),
    }
}

#[test]
fn a_pass_starts_resumes_or_leaves_a_run_alone() {
    let deployment = deployment();
    let due = tick(1_000_000, Stored::Absent);
    assert_eq!(outcome(&lease_held(&deployment)), "lease_held");

    let running = Some(parse(
        r#"{"runId": "r", "state": "running", "leaseExpiresAtMs": 2000000, "leaseFence": 3}"#,
    ));
    match decide_active(&deployment, &due, &running, 1_000_000) {
        ActiveDecision::Concluded(end) => {
            assert_eq!(outcome(&end), "coalesced");
            assert_eq!(end.steps.len(), 3);
        }
        _ => panic!("not coalesced"),
    }
    match decide_active(&deployment, &due, &running, 2_000_000) {
        ActiveDecision::Recover { run_id, .. } => assert_eq!(run_id, "r"),
        _ => panic!("not recovered"),
    }
    let waiting = Some(parse(r#"{"runId": "r", "state": "pending_reconcile"}"#));
    match decide_active(&deployment, &due, &waiting, 1_000_000) {
        ActiveDecision::Concluded(end) => assert_eq!(outcome(&end), "pending_reconcile"),
        _ => panic!("not left alone"),
    }
    assert!(matches!(
        decide_active(&deployment, &due, &None, 1_000_000),
        ActiveDecision::Fresh {
            previous_run_id: None
        }
    ));

    let with_session = Some(parse(r#"{"run": {"codexSessionRef": "s"}}"#));
    assert!(matches!(decide_recovered(&deployment, "r", &with_session), Ok(s) if s == "s"));
    let without = Some(parse(r#"{"run": {"state": "running"}}"#));
    match decide_recovered(&deployment, "r", &without) {
        Err(end) => {
            assert_eq!(outcome(&end), "agent_run_pending_reconcile");
            assert_eq!(end.steps.len(), 4);
        }
        Ok(_) => panic!("resumed"),
    }
}

#[test]
fn a_run_is_started_once_and_completed() {
    let deployment = deployment();
    let due = tick(1_000_000, Stored::Absent);
    let binding = deployment_binding_digest(&deployment);
    let previous = Some(parse(&format!(
        r#"{{"bindingDigest": "{binding}", "run": {{"codexSessionRef": "s"}}}}"#
    )));
    assert_eq!(previous_session(&deployment, &previous), Some("s".to_string()));
    assert_eq!(previous_session(&deployment, &None), None);

    let run = planned_run(&deployment, &due, &lease(), &None, None);
    let again = planned_run(&deployment, &due, &lease(), &None, None);
    assert_eq!(run.run_id, again.run_id);
    assert_eq!(run.trigger_id, "tick:d:1000000");
    assert_eq!(run.lease_fence, 3);
    assert!(decide_existing(&deployment, &run, &due, &None).is_none());

    let capability = AgentMcpExecutionCapability::issue();
    let denied = AgentEntitlementDecision {
        allowed: false,
        reference: "none".to_string(),
    };
    match authorize_run(&deployment, &run, &due, &lease(), denied, &capability, 1_000_000) {
        Err(end) => assert_eq!(outcome(&end), "agent_entitlement_denied"),
        Ok(_) => panic!("started"),
    }
    let allowed = LocalEntitlement.authorize(&deployment);
    let start = match authorize_run(
        &deployment,
        &run,
        &due,
        &lease(),
        allowed,
        &capability,
        1_000_000,
    ) {
        Ok(start) => start,
        Err(_) => panic!("not started"),
    };
    assert_eq!(start.steps.len(), 3);
    assert_eq!(start.capability_digest, capability.digest());
    assert!(start.trigger.field_is("runId", &run.run_id));

    let failed = conclude_failed_run(&deployment, &run, &due, &start);
    assert!(failed.result.is_err());
    let done = conclude_completed_run(
        &deployment,
        &run,
        &due,
        &start,
        Some("s".to_string()),
        &lease(),
        1_000_100,
    );
    assert_eq!(outcome(&done), "completed");
    let record = done
        .steps
        .into_iter()
        .find_map(|step| match step {
            RunnerStep::Write(write) if write.key == run.run_id => Some(write.value),
            _ => None,
        })
        .expect("a record");
    let end = decide_existing(&deployment, &run, &due, &Some(record)).expect("an end");
    assert_eq!(outcome(&end), "idempotent");
}

#[test]
fn a_heartbeat_needs_its_lease() {
    let deployment = deployment();
    let run = run_with(None);
    match decide_heartbeat(AdapterEvent::StillRunning, Some(lease()), &deployment, &run, 5) {
        HeartbeatStep::Beat { finished, .. } => assert!(finished.is_none()),
        HeartbeatStep::Fail(_) => panic!("failed"),
    }
    match decide_heartbeat(AdapterEvent::StillRunning, None, &deployment, &run, 5) {
        HeartbeatStep::Fail(code) => assert_eq!(code, "agent_run_lease_lost"),
        HeartbeatStep::Beat { .. } => panic!("went on"),
    }
    match decide_heartbeat(AdapterEvent::Disconnected, Some(lease()), &deployment, &run, 5) {
        HeartbeatStep::Fail(code) => assert_eq!(code, "agent_runtime_channel_closed"),
        HeartbeatStep::Beat { .. } => panic!("went on"),
    }
    assert_eq!(elapsed_now_ms(5, 7), 12);
    assert_eq!(elapsed_now_ms(i64::MAX, 7), i64::MAX);
}

#[test]
fn the_supervisor_passes_over_its_own_active_deployments() {
    let mut paused = deployment();
    paused.desired_state = "paused".to_string();
    let mut external = deployment();
    external.executor = AgentExecutor::ExternalClient;
    let list = vec![paused, deployment(), external];
    let timing = AgentRunnerTiming::default();
    assert_eq!(timing.lease_ms, DEFAULT_LEASE_MS);
    assert_eq!(plan_supervision(&list, &timing), Ok(vec![1]));
    let slow = AgentRunnerTiming {
        lease_ms: 10,
        heartbeat_ms: 20,
    };
    assert!(plan_supervision(&list, &slow).is_err());
    let endless = AgentRunnerTiming {
        lease_ms: i64::MAX,
        heartbeat_ms: u64::MAX,
    };
    assert!(plan_supervision(&list, &endless).is_err());
    let wrapped = AgentRunnerTiming {
        lease_ms: 1,
        heartbeat_ms: 1 << 63,
    };
    assert!(plan_supervision(&list, &wrapped).is_err());
    let shown = pass_receipt(&deployment(), Err("agent_entitlement_denied".to_string()));
    assert!(format!("{shown:?}").contains("agent_entitlement_denied"));
}

fn lookup() -> PutLookup {
    PutLookup {
        known_tools: vec!["studio.deployment.inspect".to_string()],
        workspace_exists: true,
        existing: None,
        active: None,
        has_schedule: false,
    }
}

#[test]
fn deployments_are_checked_before_they_are_put() {
    assert!(put_deployment(&deployment(), &lookup()).is_ok());
    let mut leaky = deployment();
    leaky.prompt = "use API_KEY=abc".to_string();
    assert!(put_deployment(&leaky, &lookup()).is_err());
    let mut unknown = deployment();
    unknown.studio_tool_allowlist = vec!["studio.unknown".to_string()];
    assert!(put_deployment(&unknown, &lookup()).is_err());
    let mut homeless = lookup();
    homeless.workspace_exists = false;
    assert!(put_deployment(&deployment(), &homeless).is_err());
    assert!(secret_shaped("Authorization: x"));
    assert!(!secret_shaped("plain"));

    let list = vec![deployment()];
    let stopped = with_desired_state(&list, "d", "stopped").expect("a deployment");
    assert_eq!(stopped.desired_state, "stopped");
    assert!(with_desired_state(&list, "other", "stopped").is_err());
    assert!(set_desired_state(&list, "d", "paused", &lookup()).is_ok());
}

fn authorities(writes: &[StorageWrite]) -> Vec<(String, String)> {
    writes
        .iter()
        .map(|write| {
            let actor = match &write.context.authority {
                WriteAuthority::LocalCli => "cli".to_string(),
                WriteAuthority::Given(authority) => authority.actor.clone(),
            };
            (actor, write.context.idempotency_key.clone())
        })
        .collect()
}

#[test]
fn deployments_are_put_under_the_authority_that_asks() {
    let side_effect = SideEffectContext {
        authority: AuthorityContext {
            actor: "operator".to_string(),
            surface: "mcp".to_string(),
            account_mode: "paper".to_string(),
        },
        idempotency_key: "put-1".to_string(),
    };
    let asked = vec![("operator".to_string(), "put-1".to_string()); 2];
    let writes = put_deployment_with_context(&deployment(), &lookup(), &side_effect);
    assert_eq!(authorities(&writes.expect("writes")), asked);
    let list = vec![deployment()];
    let writes = set_desired_state_with_context(&list, "d", "paused", &lookup(), &side_effect);
    assert_eq!(authorities(&writes.expect("writes")), asked);
    let local = put_deployment(&deployment(), &lookup()).expect("writes");
    assert!(authorities(&local).iter().all(|(actor, _)| actor == "cli"));
}

#[test]
fn a_binding_changes_with_what_it_binds() {
    let mut other = deployment();
    other.execution_config_version_id = "config-v2".to_string();
    assert_eq!(
        deployment_binding_digest(&deployment()),
        "64913de3cda7c9f6bbcb3ff1"
    );
    assert_ne!(
        deployment_binding_digest(&deployment()),
        deployment_binding_digest(&other)
    );
    let digest = deployment_binding_digest(&other);
    assert_eq!(digest.len(), 24);
    assert!(digest.chars().all(|c| c.is_ascii_digit() || ('a'..='f').contains(&c)));
    let list = vec!["b".to_string(), "a".to_string(), "b".to_string()];
    assert_eq!(canonical_allowlist(&list), vec!["a".to_string(), "b".to_string()]);
    assert!(!valid_tools(&list, &vec!["a".to_string()]));
}

fn bound(path: &str) -> BindingPath {
    BindingPath {
        absolute: true,
        file: true,
        canonical: Some(path.to_string()),
    }
}

#[test]
fn codex_is_called_with_its_run() {
    let trigger = parse(r#"{"workspace": "/w", "runtimeProfile": "p"}"#);
    let fresh = codex_command_args(&run_with(None), &trigger).expect("arguments");
    assert_eq!(
        fresh[..7].to_vec(),
        vec!["exec", "--json", "-C", "/w", "-p", "p", "--skip-git-repo-check"]
    );
    assert_eq!(fresh[7], r#"{"runtimeProfile":"p","workspace":"/w"}"#);
    let resumed = codex_command_args(&run_with(Some("s")), &trigger).expect("arguments");
    assert_eq!(resumed[..2].to_vec(), vec!["exec", "resume"]);

    let adapter = CodexCliAdapter::new(bound("/bin/ta"), bound("/etc/c.json"), bound("/var/db"))
        .expect("an adapter");
    let args = adapter
        .command_args_under(&vec![0, 255], &run_with(None), &trigger)
        .expect("arguments");
    assert_eq!(args[0], "-c");
    assert!(args[1].contains("tradeassembly_runner_00ff"));
    assert!(args[1].contains("/var/db"));
    let drawn = adapter.command_args(&run_with(None), &trigger).expect("arguments");
    assert!(drawn[1].contains("tradeassembly_runner_"));
    assert_ne!(drawn[1], adapter.command_args(&run_with(None), &trigger).expect("arguments")[1]);
    let refused = adapter.command_args(&run_with(None), &Json::Null).expect_err("refused");
    assert_eq!(refused, "agent_trigger_invalid");
    let relative = BindingPath {
        absolute: false,
        file: true,
        canonical: None,
    };
    assert_eq!(checked(relative).expect_err("refused"), "agent_mcp_binding_path_invalid");
}

#[test]
fn a_session_is_read_off_the_output() {
    let output = "noise\n{\"type\":\"x\"}\n{\"thread_id\":\"t-1\"}\n{\"session_id\":\"t-2\"}";
    assert_eq!(extract_session_ref(output), Some("t-1".to_string()));
    assert_eq!(extract_session_ref("{\"threadId\":\"t-3\"}"), Some("t-3".to_string()));
    assert_eq!(extract_session_ref("nothing"), None);
    let body = Some(output.to_string());
    assert_eq!(
        session_after_call(&run_with(None), &body),
        Ok(Some("t-1".to_string()))
    );
    assert_eq!(
        session_after_call(&run_with(Some("s")), &body),
        Ok(Some("s".to_string()))
    );
    assert!(session_after_call(&run_with(None), &None).is_err());
    assert_eq!(
        session_after_call(&run_with(None), &Some("nothing".to_string())).expect_err("refused"),
        "codex_session_reference_missing"
    );
    let mut body = vec![0u8; DEFAULT_CODEX_OUTPUT_BYTES - 1];
    keep_output(&mut body, &[1, 2, 3]);
    assert_eq!(body.len(), DEFAULT_CODEX_OUTPUT_BYTES);
}

#[test]
fn the_codex_binary_is_looked_for_in_its_package_only() {
    assert!(matches!(codex_binary(None, false), Ok(CodexBinary::Default)));
    assert!(codex_binary(Some("codex".to_string()), false).is_err());
    assert!(is_package_script(&Some("codex.js".to_string())));
    let metadata = Some(parse(r#"{"name": "@openai/codex"}"#));
    let places = resolve_codex_executable(&metadata, "linux", "x86_64").expect("places");
    assert_eq!(
        places,
        vec![
            "node_modules/@openai/codex-linux-x64/vendor/x86_64-unknown-linux-musl/bin/codex",
            "vendor/x86_64-unknown-linux-musl/bin/codex"
        ]
    );
    assert!(resolve_codex_executable(&metadata, "plan9", "x86_64").is_err());
    assert!(resolve_codex_executable(&Some(parse("{}")), "linux", "x86_64").is_err());
}

#[test]
fn evidence_holds_no_credentials() {
    let shown = redact(&parse(r#"{"apiKey": "a", "token": "b", "note": "c"}"#));
    assert!(shown.field("apiKey").is_none());
    assert!(shown.field("token").is_none());
    assert!(shown.field_is("note", "c"));
}
