use std::collections::BTreeMap;

use tradeassembly_runtime::agent_runner::attach_pass::{
    AttachAction, AttachCase, AttachEvent, AttachStage, AttachStep,
};
use tradeassembly_runtime::agent_runner::binding::bind_mcp_execution_context;
use tradeassembly_runtime::agent_runner::capability::{
    resolve_mcp_execution_context, AgentMcpCapabilityRecord, AgentMcpExecutionCapability,
    ExecutionSnapshot, VerifiedAgentMcpExecutionContext,
};
use tradeassembly_runtime::agent_runner::deployment::{
    deployment_binding_digest, AgentDeployment, AgentExecutor, ACTIVE_RUNS_NS, DEFAULT_LEASE_MS,
    DEPLOYMENTS_NS, MCP_CAPABILITIES_NS, RECOVERY_RECEIPTS_NS, RUNS_NS, SCHEDULES_NS,
    SCHEMA_VERSION,
};
use tradeassembly_runtime::agent_runner::external_session::{
    close_outcome, AuthorityRecords, CloseStep, ExternalAgentSession, RenewalAction,
    RenewalEvent, RenewalStep, ACTIVATIONS_NS, CONFIGS_NS,
};
use tradeassembly_runtime::agent_runner::records::{lease_resource, receipt};
use tradeassembly_runtime::agent_runner::recovery::{
    receipt_storage_error, recovery_answer, recovery_request_digest, AgentRecoveryReceipt,
    RECOVERY_OWNER,
};
use tradeassembly_runtime::agent_runner::recovery_pass::{
    begin_pass, recover_pending_run, recover_pending_run_with_context, RecoveryAction,
    RecoveryCase, RecoveryEvent, RecoveryStage, RecoveryStep,
};
use tradeassembly_runtime::agent_runner::schedule::{
    deployment_schedule, initial_schedule_state, AgentScheduleState,
};
use tradeassembly_runtime::agent_runner::store::{
    persist_schedule_state, persist_schedule_state_with_context, put_deployment,
    ExistingDeployment, PutLookup,
};
use tradeassembly_runtime::agent_runner::supervise::{
    AdapterEvent, AgentEntitlementDecision, RunnerStep,
};
use tradeassembly_runtime::agent_runner::supervise_pass::{
    supervise_deployment, PassAction, PassCase, PassEvent, PassStage, PassStep,
};
use tradeassembly_runtime::ai::clean_json_content;
use tradeassembly_runtime::json::{Json, JsonMap};
use tradeassembly_runtime::ports::{
    AuthorityContext, LeaseClaim, SideEffectContext, StorageBatch, StorageWrite, Stored,
    WriteAuthority, WriteContext,
};

fn parse(text: &str) -> Json {
    Json::Object(clean_json_content(text).expect("valid text"))
}

fn known_tools() -> Vec<String> {
    [
        "studio.agent_run.health",
        "studio.deployment.inspect",
        "studio.execution.external_receipt.append",
        "tradeassembly.health",
    ]
    .iter()
    .map(|t| t.to_string())
    .collect()
}

fn deployment() -> AgentDeployment {
    AgentDeployment {
        executor: AgentExecutor::default(),
        deployment_id: "schedule-state-test".to_string(),
        system_project_id: "system-test".to_string(),
        agent_definition_version_id: "agent-v1".to_string(),
        execution_config_version_id: "config-v1".to_string(),
        studio_tool_allowlist: vec!["studio.deployment.inspect".to_string()],
        desired_state: "active".to_string(),
        interval_seconds: 60,
        cron_utc: None,
        mode: "paper".to_string(),
        prompt: "Use redacted Studio evidence.".to_string(),
        workspace: "/tmp".to_string(),
        runtime_profile: "local-read-only".to_string(),
    }
}

fn context(key: &str) -> SideEffectContext {
    SideEffectContext {
        authority: AuthorityContext {
            actor: "local-owner".to_string(),
            surface: "cli".to_string(),
            account_mode: "paper".to_string(),
        },
        idempotency_key: key.to_string(),
    }
}

fn attachment(deployment_id: &str, activation_id: &str, key: &str) -> AttachCase {
    AttachCase {
        deployment_id: deployment_id.to_string(),
        activation_id: activation_id.to_string(),
        context: context(key),
    }
}

/// Whether a record is written under the authority and the key of a request.
fn is_under(write: &StorageWrite, side_effect: &SideEffectContext) -> bool {
    write.context.idempotency_key == side_effect.idempotency_key
        && match &write.context.authority {
            WriteAuthority::LocalCli => false,
            WriteAuthority::Given(authority) => {
                authority.actor == side_effect.authority.actor
                    && authority.surface == side_effect.authority.surface
                    && authority.account_mode == side_effect.authority.account_mode
            }
        }
}

fn field(value: &Json, key: &str) -> String {
    value.text_field(key).expect("a text")
}

fn list(value: &Json, key: &str) -> Vec<String> {
    match value.field(key) {
        Some(Json::Array(items)) => items
            .iter()
            .map(|item| item.as_text().expect("a text").clone())
            .collect(),
        _ => panic!("no list"),
    }
}

fn read_deployment(value: &Json) -> AgentDeployment {
    AgentDeployment {
        executor: if value.field_is("executor", "external_client") {
            AgentExecutor::ExternalClient
        } else {
            AgentExecutor::Supervised
        },
        deployment_id: field(value, "deploymentId"),
        system_project_id: field(value, "systemProjectId"),
        agent_definition_version_id: field(value, "agentDefinitionVersionId"),
        execution_config_version_id: field(value, "executionConfigVersionId"),
        studio_tool_allowlist: list(value, "studioToolAllowlist"),
        desired_state: field(value, "desiredState"),
        interval_seconds: value.i64_field("intervalSeconds").expect("seconds") as u64,
        cron_utc: value.text_field("cronUtc"),
        mode: field(value, "mode"),
        prompt: field(value, "prompt"),
        workspace: field(value, "workspace"),
        runtime_profile: field(value, "runtimeProfile"),
    }
}

fn read_capability(value: &Json) -> AgentMcpCapabilityRecord {
    AgentMcpCapabilityRecord {
        schema_version: field(value, "schemaVersion"),
        deployment_id: field(value, "deploymentId"),
        run_id: field(value, "runId"),
        binding_digest: field(value, "bindingDigest"),
        mode: field(value, "mode"),
        studio_tool_allowlist: list(value, "studioToolAllowlist"),
        capability_digest: field(value, "capabilityDigest"),
    }
}

fn read_schedule(value: &Json) -> AgentScheduleState {
    AgentScheduleState {
        schema_version: field(value, "schemaVersion"),
        schedule_kind: field(value, "scheduleKind"),
        schedule_digest: field(value, "scheduleDigest"),
        next_due_at_ms: value.i64_field("nextDueAtMs").expect("a time"),
        last_due_at_ms: value.i64_field("lastDueAtMs"),
        missed_tick_count: value.i64_field("missedTickCount").expect("a count") as u64,
        missed_tick_count_capped: value
            .field("missedTickCountCapped")
            .expect("a flag")
            .equals(&Json::Bool(true)),
        updated_at_ms: value.i64_field("updatedAtMs").expect("a time"),
    }
}

fn read_receipt(value: &Json) -> AgentRecoveryReceipt {
    AgentRecoveryReceipt {
        schema_version: field(value, "schemaVersion"),
        deployment_id: field(value, "deploymentId"),
        run_id: field(value, "runId"),
        request_digest: field(value, "requestDigest"),
        requested_at_ms: value.i64_field("requestedAtMs").expect("a time"),
        state: field(value, "state"),
        receipt: value.field("receipt").expect("a receipt").copy(),
    }
}

fn stored<T>(value: Option<Json>, read: fn(&Json) -> T) -> Stored<T> {
    match value {
        Some(value) => Stored::Present(read(&value)),
        None => Stored::Absent,
    }
}

/// A runtime that keeps everything in memory.
struct Runtime {
    records: BTreeMap<(String, String), Json>,
    leases: BTreeMap<String, LeaseClaim>,
    tokens: i64,
    now_ms: i64,
    events: Vec<String>,
}

impl Runtime {
    fn new() -> Runtime {
        Runtime {
            records: BTreeMap::new(),
            leases: BTreeMap::new(),
            tokens: 0,
            now_ms: 1_000_000,
            events: Vec::new(),
        }
    }

    fn get(&self, namespace: &str, key: &str) -> Option<Json> {
        self.records
            .get(&(namespace.to_string(), key.to_string()))
            .map(Json::copy)
    }

    fn put(&mut self, namespace: &str, key: &str, value: Json) {
        self.records
            .insert((namespace.to_string(), key.to_string()), value);
    }

    fn count(&self, namespace: &str) -> usize {
        self.records.keys().filter(|(ns, _)| ns == namespace).count()
    }

    fn write(&mut self, write: StorageWrite) {
        self.put(write.namespace, &write.key, write.value);
    }

    fn batch(&mut self, batch: StorageBatch) -> bool {
        let met = batch.expectations.iter().all(|expected| {
            match (self.get(expected.namespace, &expected.key), &expected.value) {
                (None, None) => true,
                (Some(found), Some(value)) => found.equals(value),
                _ => false,
            }
        });
        if met {
            for write in batch.writes {
                self.write(write);
            }
        }
        met
    }

    fn acquire(&mut self, resource: &str, owner: &str, lease_ms: i64) -> Option<LeaseClaim> {
        if let Some(held) = self.leases.get(resource) {
            if held.expires_at_ms > self.now_ms {
                return None;
            }
        }
        self.tokens += 1;
        let claim = LeaseClaim {
            resource: resource.to_string(),
            owner: owner.to_string(),
            fencing_token: self.tokens,
            expires_at_ms: self.now_ms + lease_ms,
        };
        self.leases.insert(resource.to_string(), claim.copy());
        Some(claim)
    }

    fn holds(&self, lease: &LeaseClaim) -> bool {
        self.leases
            .get(&lease.resource)
            .map(|held| held.fencing_token == lease.fencing_token)
            .unwrap_or(false)
    }

    fn release(&mut self, lease: &LeaseClaim) -> Result<(), String> {
        if self.holds(lease) {
            self.leases.remove(&lease.resource);
            Ok(())
        } else {
            Err("lease_not_held".to_string())
        }
    }

    fn put_deployment(&mut self, deployment: &AgentDeployment) {
        let id = &deployment.deployment_id;
        let lookup = PutLookup {
            known_tools: known_tools(),
            workspace_exists: true,
            existing: self.get(DEPLOYMENTS_NS, id).map(|record| ExistingDeployment {
                deployment: Stored::Present(read_deployment(
                    record.field("deployment").expect("a deployment"),
                )),
                binding_digest: record.text_field("bindingDigest"),
            }),
            active: self.get(ACTIVE_RUNS_NS, id),
            has_schedule: self.get(SCHEDULES_NS, id).is_some(),
        };
        for write in put_deployment(deployment, &lookup).expect("deployment persists") {
            self.write(write);
        }
    }

    fn snapshot(&self, digest: &str, deployment_id: &str) -> ExecutionSnapshot {
        let record = self.get(MCP_CAPABILITIES_NS, digest);
        let run = record
            .as_ref()
            .and_then(|value| self.get(RUNS_NS, &field(value, "runId")));
        ExecutionSnapshot {
            now_ms: self.now_ms,
            capability: stored(record, read_capability),
            run,
            active: self.get(ACTIVE_RUNS_NS, deployment_id),
            deployment: match self.get(DEPLOYMENTS_NS, deployment_id) {
                Some(value) => Stored::Present(read_deployment(
                    value.field("deployment").expect("a deployment"),
                )),
                None => Stored::Absent,
            },
        }
    }

    fn desired_state(&self, deployment_id: &str) -> Option<String> {
        self.get(DEPLOYMENTS_NS, deployment_id)
            .and_then(|value| value.field("deployment").and_then(|d| d.text_field("desiredState")))
    }

    fn lease(&self, deployment_id: &str) -> Option<LeaseClaim> {
        self.leases
            .get(&lease_resource(deployment_id))
            .map(LeaseClaim::copy)
    }

    fn current_lease(
        &self,
        verified: &VerifiedAgentMcpExecutionContext,
    ) -> Result<LeaseClaim, String> {
        let id = verified.deployment_id();
        verified.current_lease(
            &self.snapshot(verified.capability_digest(), id),
            &self.desired_state(id),
            &self.lease(id),
            self.now_ms,
            &known_tools(),
        )
    }

    fn verified(
        &self,
        session: &ExternalAgentSession,
    ) -> Result<VerifiedAgentMcpExecutionContext, String> {
        let id = session.deployment_id();
        session.verified_context(
            &self.snapshot(&session.capability_digest(), id),
            &self.desired_state(id),
            &self.lease(id),
            self.now_ms,
            &known_tools(),
        )
    }

    fn attach(
        &mut self,
        deployment_id: &str,
        activation_id: &str,
        key: &str,
    ) -> Result<ExternalAgentSession, String> {
        let case = attachment(deployment_id, activation_id, key);
        self.attach_until(&case, usize::MAX, "")
    }

    /// An attachment of which the action with a number fails with a code.
    fn attach_until(
        &mut self,
        case: &AttachCase,
        broken: usize,
        code: &str,
    ) -> Result<ExternalAgentSession, String> {
        let mut step = ExternalAgentSession::begin_attachment(case);
        let mut asked = 0;
        loop {
            match step {
                AttachStep::End(result) => return result,
                AttachStep::Ask { stage, action } => {
                    let event = if asked == broken {
                        AttachEvent::Failed(code.to_string())
                    } else {
                        self.perform_attachment(&stage, action)
                    };
                    asked += 1;
                    step = ExternalAgentSession::attach(case, stage, event);
                }
            }
        }
    }

    fn perform_attachment(&mut self, stage: &AttachStage, action: AttachAction) -> AttachEvent {
        match action {
            AttachAction::LoadDeployment { deployment_id } => {
                let record = self.get(DEPLOYMENTS_NS, &deployment_id);
                let deployment = match record.as_ref().and_then(|value| value.field("deployment")) {
                    Some(value) => Stored::Present(read_deployment(value)),
                    None => Stored::Absent,
                };
                AttachEvent::Deployment { record, deployment }
            }
            AttachAction::LoadConfig { config_id } => {
                AttachEvent::Record(self.get(CONFIGS_NS, &config_id))
            }
            AttachAction::LoadActivation { activation_id } => {
                AttachEvent::Record(self.get(ACTIVATIONS_NS, &activation_id))
            }
            AttachAction::LoadActive { deployment_id } => {
                AttachEvent::Record(self.get(ACTIVE_RUNS_NS, &deployment_id))
            }
            AttachAction::Prepare => AttachEvent::Ready {
                now_ms: self.now_ms,
                capability: AgentMcpExecutionCapability::issue(),
            },
            AttachAction::AcquireLease { resource, owner, now_ms, lease_ms } => {
                assert_eq!(now_ms, self.now_ms);
                assert_eq!(lease_ms, DEFAULT_LEASE_MS);
                AttachEvent::Lease(self.acquire(&resource, &owner, lease_ms))
            }
            AttachAction::Write(batch) => AttachEvent::Written(self.batch(batch)),
            AttachAction::CheckAuthority => match stage {
                AttachStage::Verifying { session } => {
                    AttachEvent::Authority(self.authority(session))
                }
                _ => panic!("not asked for here"),
            },
            AttachAction::Release(lease) => {
                let _ = self.release(&lease);
                AttachEvent::Tried
            }
            AttachAction::ReadRun => match stage {
                AttachStage::Failing { session, .. } => AttachEvent::Records {
                    active: Ok(self.get(ACTIVE_RUNS_NS, session.deployment_id())),
                    run: Ok(self.get(RUNS_NS, session.run_id())),
                },
                _ => panic!("not asked for here"),
            },
            AttachAction::Detach { batch, lease } => {
                if let Some(batch) = batch {
                    self.batch(batch);
                }
                let _ = self.release(&lease);
                AttachEvent::Tried
            }
        }
    }

    fn authority(&self, session: &ExternalAgentSession) -> AuthorityRecords {
        let id = session.deployment_id();
        AuthorityRecords {
            snapshot: self.snapshot(&session.capability_digest(), id),
            desired_state: self.desired_state(id),
            lease: self.lease(id),
            checked_at_ms: self.now_ms,
            known_tools: known_tools(),
        }
    }

    fn renew(&mut self, session: &mut ExternalAgentSession) -> Result<(), String> {
        let mut step = session.begin_renewal();
        loop {
            match step {
                RenewalStep::End(result) => return result,
                RenewalStep::Ask { stage, action } => {
                    let event = self.perform_renewal(session, action);
                    step = session.renew(stage, event);
                }
            }
        }
    }

    fn perform_renewal(
        &mut self,
        session: &ExternalAgentSession,
        action: RenewalAction,
    ) -> RenewalEvent {
        let id = session.deployment_id();
        match action {
            RenewalAction::CheckAuthority => RenewalEvent::Authority(self.authority(session)),
            RenewalAction::ReadPointer => RenewalEvent::Pointer(self.get(ACTIVE_RUNS_NS, id)),
            RenewalAction::RenewLease(mut lease) => {
                lease.expires_at_ms = self.now_ms + DEFAULT_LEASE_MS;
                self.leases.insert(lease.resource.clone(), lease.copy());
                RenewalEvent::Renewed { lease, now_ms: self.now_ms }
            }
            RenewalAction::Write(batch) => RenewalEvent::Settled(self.batch(batch)),
            RenewalAction::ReadRun => RenewalEvent::Records {
                active: Ok(self.get(ACTIVE_RUNS_NS, id)),
                run: Ok(self.get(RUNS_NS, session.run_id())),
            },
            RenewalAction::Detach { batch, lease } => {
                if let Some(batch) = batch {
                    self.batch(batch);
                }
                let _ = self.release(&lease);
                RenewalEvent::Closed
            }
        }
    }

    fn close(&mut self, session: &mut ExternalAgentSession) -> Result<(), String> {
        let active = Ok(self.get(ACTIVE_RUNS_NS, session.deployment_id()));
        let run = Ok(self.get(RUNS_NS, session.run_id()));
        let lease = session.lease().copy();
        match session.close(&active, &run) {
            CloseStep::AlreadyClosed => Ok(()),
            CloseStep::Failed(code) => {
                let _ = self.release(&lease);
                Err(code)
            }
            CloseStep::Detach(batch) => {
                let updated = self.batch(batch);
                let released = self.release(&lease);
                close_outcome(updated, released)
            }
        }
    }

    fn recover(
        &mut self,
        deployment_id: &str,
        now_ms: i64,
        side_effect: &SideEffectContext,
    ) -> Result<Json, String> {
        let record = self
            .get(DEPLOYMENTS_NS, deployment_id)
            .ok_or_else(|| "agent_deployment_not_found".to_string())?;
        let deployment = read_deployment(record.field("deployment").expect("one"));
        let Some(lease) = self.acquire(
            &lease_resource(deployment_id),
            RECOVERY_OWNER,
            DEFAULT_LEASE_MS,
        ) else {
            return Err("agent_recovery_lease_held".to_string());
        };
        let case = RecoveryCase {
            deployment,
            context: SideEffectContext {
                authority: AuthorityContext {
                    actor: side_effect.authority.actor.clone(),
                    surface: side_effect.authority.surface.clone(),
                    account_mode: side_effect.authority.account_mode.clone(),
                },
                idempotency_key: side_effect.idempotency_key.clone(),
            },
            now_ms,
        };
        let result = self.recover_held(&case);
        let _ = self.release(&lease);
        result
    }

    fn recover_held(&mut self, case: &RecoveryCase) -> Result<Json, String> {
        let id = case.deployment.deployment_id.as_str();
        let mut step = begin_pass(case);
        loop {
            let (stage, action) = match step {
                RecoveryStep::Finish(answer) => return answer,
                RecoveryStep::Ask { stage, action } => (stage, action),
            };
            let event = match action {
                RecoveryAction::LoadActive => RecoveryEvent::Active(self.get(ACTIVE_RUNS_NS, id)),
                RecoveryAction::LoadRun { run_id } => RecoveryEvent::Run(self.get(RUNS_NS, &run_id)),
                RecoveryAction::LoadReceipt { key } => {
                    RecoveryEvent::Receipt(stored(self.get(RECOVERY_RECEIPTS_NS, &key), read_receipt))
                }
                RecoveryAction::PutReceipt(write) => {
                    assert_eq!(write.namespace, RECOVERY_RECEIPTS_NS);
                    assert!(is_under(&write, &case.context));
                    self.write(write);
                    RecoveryEvent::ReceiptPut(Ok(()))
                }
                RecoveryAction::WriteBatch(batch) => {
                    assert!(batch.writes.iter().all(|write| is_under(write, &case.context)));
                    RecoveryEvent::Settled(self.batch(batch))
                }
                RecoveryAction::Write(write) => {
                    assert!(is_under(&write, &case.context));
                    self.write(write);
                    RecoveryEvent::Done
                }
                RecoveryAction::PersistSchedule(state) => {
                    self.persist(&case.deployment, &state, &WriteContext::of(&case.context));
                    RecoveryEvent::Done
                }
                RecoveryAction::AppendEvidence { .. } => {
                    self.events.push("agent_run.operator_reconciled".to_string());
                    RecoveryEvent::Done
                }
            };
            step = recover_pending_run_with_context(case, stage, event);
        }
    }

    fn persist(
        &mut self,
        deployment: &AgentDeployment,
        state: &AgentScheduleState,
        key: &WriteContext,
    ) {
        let id = &deployment.deployment_id;
        let known = stored(self.get(SCHEDULES_NS, id), read_schedule);
        if let Some(write) = persist_schedule_state_with_context(
            deployment,
            &Stored::Present(deployment.copy()),
            &known,
            state,
            key,
        )
        .expect("a schedule of the deployment")
        {
            self.write(write);
        }
    }

    fn perform(&mut self, deployment: &AgentDeployment, lease: &Option<LeaseClaim>, step: RunnerStep) {
        match step {
            RunnerStep::Write(write) => {
                assert!(matches!(write.context.authority, WriteAuthority::LocalCli));
                self.write(write)
            }
            RunnerStep::PersistSchedule(state) => {
                self.persist(deployment, &state, &WriteContext::local("runner".to_string()))
            }
            RunnerStep::Evidence { event_type, .. } => self.events.push(event_type.to_string()),
            RunnerStep::ReleaseLease => {
                let claim = lease.as_ref().expect("a lease is held");
                self.release(claim).expect("the lease is held");
            }
        }
    }

    /// One pass over a deployment, with an agent that does what the list says.
    fn supervise(
        &mut self,
        deployment: &AgentDeployment,
        allowed: bool,
        agent: Vec<AdapterEvent>,
    ) -> Result<Json, String> {
        let case = PassCase { deployment: deployment.copy(), now_ms: self.now_ms };
        let id = case.deployment.deployment_id.as_str();
        let mut agent = agent.into_iter();
        let mut lease = self.acquire(&lease_resource(id), "runner", DEFAULT_LEASE_MS);
        let copied = lease.as_ref().map(LeaseClaim::copy);
        let mut step = supervise_deployment(&case, PassStage::Leasing, PassEvent::Lease(copied));
        loop {
            let (stage, action) = match step {
                PassStep::Conclude(end) => {
                    for write in end.steps {
                        self.perform(deployment, &lease, write);
                    }
                    return end.result;
                }
                PassStep::Ask { stage, action } => (stage, action),
            };
            let mut stage = stage;
            let event = match action {
                PassAction::LoadSchedule => {
                    PassEvent::Schedule(stored(self.get(SCHEDULES_NS, id), read_schedule))
                }
                PassAction::LoadActive => PassEvent::Active(self.get(ACTIVE_RUNS_NS, id)),
                PassAction::LoadRun { before, run_id } => {
                    for write in before {
                        self.perform(deployment, &lease, write);
                    }
                    PassEvent::Run(self.get(RUNS_NS, &run_id))
                }
                PassAction::Authorize => PassEvent::Entitlement {
                    decision: AgentEntitlementDecision {
                        allowed,
                        reference: "local".to_string(),
                    },
                    capability: AgentMcpExecutionCapability::issue(),
                },
                PassAction::PerformStart => {
                    if let PassStage::Starting { start, .. } = &mut stage {
                        for write in std::mem::take(&mut start.steps) {
                            self.perform(deployment, &lease, write);
                        }
                    }
                    PassEvent::Done
                }
                PassAction::StartAgent { .. } | PassAction::AwaitAgent => {
                    self.now_ms += 1_000;
                    let renewed = lease.as_mut().map(|claim| {
                        claim.expires_at_ms = self.now_ms + DEFAULT_LEASE_MS;
                        claim.copy()
                    });
                    PassEvent::Agent {
                        event: agent.next().expect("the agent does something"),
                        renewed,
                        at_ms: self.now_ms,
                    }
                }
                PassAction::Write(write) => {
                    self.perform(deployment, &lease, write);
                    PassEvent::Done
                }
            };
            step = supervise_deployment(&case, stage, event);
        }
    }
}

fn external_fixture() -> Runtime {
    let mut runtime = Runtime::new();
    let mut external = deployment();
    external.executor = AgentExecutor::ExternalClient;
    external.deployment_id = "external".to_string();
    runtime.put_deployment(&external);
    let config = r#"{"configId":"config-v1","orchestrator":"external_agent","mode":"paper",
        "strategyVersionId":"strategy-v1","strategySpecHash":"spec-hash","capabilityGraphRevisionId":"cap-v1",
        "accountRef":"controlled-paper","riskLimits":{"maxOrderNotional":100}}"#;
    runtime.put(CONFIGS_NS, "config-v1", parse(config));
    runtime.put(ACTIVATIONS_NS, "activation-1", activation(100));
    runtime
}

fn activation(max_order_notional: i64) -> Json {
    parse(&format!(
        r#"{{"configId":"config-v1","orchestrator":"external_agent","mode":"paper",
        "strategyVersionId":"strategy-v1","strategySpecHash":"spec-hash","capabilityGraphRevisionId":"cap-v1",
        "accountRef":"controlled-paper","riskLimits":{{"maxOrderNotional":{max_order_notional}}},
        "activationId":"activation-1","state":"active"}}"#
    ))
}

fn recover_external(runtime: &mut Runtime) -> Result<Json, String> {
    let now = runtime.now_ms;
    runtime.recover("external", now, &context("agent-recovery:external"))
}

#[test]
fn session_is_exclusive_renewable_and_quarantined_on_disconnect() {
    let mut runtime = external_fixture();
    let mut session = runtime
        .attach("external", "activation-1", "attach")
        .expect("a session");
    let identity = runtime.verified(&session).expect("authority");
    assert!(runtime.attach("external", "activation-1", "another").is_err());
    runtime.renew(&mut session).expect("renewed");
    assert!(identity.equals(&runtime.verified(&session).expect("authority")));
    assert_eq!(runtime.count(SCHEDULES_NS), 0);
    runtime.close(&mut session).expect("closed");
    runtime.close(&mut session).expect("closed already");
    assert!(runtime.current_lease(&identity).is_err());
    assert!(runtime
        .get(ACTIVE_RUNS_NS, "external")
        .expect("a pointer")
        .field_is("state", "pending_reconcile"));
    assert!(runtime.attach("external", "activation-1", "reconnect").is_err());
    recover_external(&mut runtime).expect("recovered");
    assert_eq!(runtime.count(SCHEDULES_NS), 0);
    let mut replacement = runtime
        .attach("external", "activation-1", "reconciled-attach")
        .expect("a session");
    assert!(!identity.equals(&runtime.verified(&replacement).expect("authority")));
    runtime.close(&mut replacement).expect("closed");
    assert!(runtime
        .get(ACTIVE_RUNS_NS, "external")
        .expect("a pointer")
        .field_is("state", "pending_reconcile"));
}

#[test]
fn abandoned_connection_requires_exclusive_operator_recovery() {
    let mut runtime = external_fixture();
    let session = runtime
        .attach("external", "activation-1", "attach")
        .expect("a session");
    assert!(recover_external(&mut runtime).is_err());
    let lease = session.lease().copy();
    runtime.release(&lease).expect("released");
    assert!(runtime
        .get(ACTIVE_RUNS_NS, "external")
        .expect("a pointer")
        .field_is("state", "running"));
    assert!(runtime
        .attach("external", "activation-1", "crash-reconnect")
        .is_err());
    recover_external(&mut runtime).expect("recovered");
    let new_session = runtime
        .attach("external", "activation-1", "recovered")
        .expect("a session");
    runtime.verified(&new_session).expect("authority");
    assert_eq!(runtime.count(SCHEDULES_NS), 0);
}

#[test]
fn binding_changes_and_replaced_leases_fail_closed() {
    let mut runtime = external_fixture();
    runtime.put(ACTIVATIONS_NS, "activation-1", activation(999));
    assert!(runtime.attach("external", "activation-1", "denied").is_err());
    assert_eq!(runtime.count(RUNS_NS), 0);
    runtime.put(ACTIVATIONS_NS, "activation-1", activation(100));
    let mut session = runtime
        .attach("external", "activation-1", "attach")
        .expect("a session");
    let lease = session.lease().copy();
    runtime.release(&lease).expect("released");
    let replacement = runtime
        .acquire(&lease.resource, "replacement", DEFAULT_LEASE_MS)
        .expect("a lease");
    assert!(runtime.verified(&session).is_err());
    assert!(runtime.renew(&mut session).is_err());
    assert_eq!(
        runtime.verified(&session).err(),
        Some("external_agent_session_closed".to_string())
    );
    assert_eq!(runtime.close(&mut session), Ok(()));
    drop(session);
    let held = runtime.lease("external").expect("a lease");
    assert_eq!(held.resource, replacement.resource);
    assert_eq!(held.owner, "replacement");
    assert_eq!(held.owner, replacement.owner);
    assert_eq!(held.fencing_token, replacement.fencing_token);
    assert_eq!(held.expires_at_ms, replacement.expires_at_ms);
}

#[test]
fn every_fault_of_a_renewal_closes_the_session() {
    for fault in 0..5 {
        let mut runtime = external_fixture();
        let mut session = runtime
            .attach("external", "activation-1", "attach")
            .expect("a session");
        let mut step = session.begin_renewal();
        let mut asked = 0;
        let result = loop {
            match step {
                RenewalStep::End(result) => break result,
                RenewalStep::Ask { stage, action } => {
                    let event = if asked == fault {
                        RenewalEvent::Failed("storage_unavailable".to_string())
                    } else {
                        runtime.perform_renewal(&session, action)
                    };
                    asked += 1;
                    step = session.renew(stage, event);
                }
            }
        };
        assert_eq!(result, Err("storage_unavailable".to_string()));
        assert_eq!(
            runtime.verified(&session).err(),
            Some("external_agent_session_closed".to_string())
        );
        assert!(runtime
            .get(ACTIVE_RUNS_NS, "external")
            .expect("a pointer")
            .field_is("state", "pending_reconcile"));
        assert!(runtime.lease("external").is_none());
        assert_eq!(
            runtime.renew(&mut session),
            Err("external_agent_session_closed".to_string())
        );
    }
}

#[test]
fn a_close_ends_the_session_though_nothing_can_be_read() {
    let mut runtime = external_fixture();
    let mut session = runtime
        .attach("external", "activation-1", "attach")
        .expect("a session");
    let lost = || Err("storage_unavailable".to_string());
    match session.close(&lost(), &lost()) {
        CloseStep::Failed(code) => assert_eq!(code, "storage_unavailable"),
        other => panic!("{other:?}"),
    }
    assert!(matches!(session.close(&lost(), &lost()), CloseStep::AlreadyClosed));
}

#[test]
fn later_coalesced_schedule_state_cannot_be_rolled_back_by_a_completed_run() {
    let mut runtime = Runtime::new();
    let deployment = deployment();
    runtime.put_deployment(&deployment);
    let schedule = deployment_schedule(&deployment).expect("test schedule is valid");
    let mut earlier = initial_schedule_state(&schedule);
    earlier.next_due_at_ms = 120_000;
    earlier.last_due_at_ms = Some(60_000);
    earlier.updated_at_ms = 60_000;
    let mut later = earlier.copy();
    later.next_due_at_ms = 180_000;
    later.last_due_at_ms = Some(120_000);
    later.updated_at_ms = 120_000;

    for state in [&later, &earlier] {
        let known = stored(
            runtime.get(SCHEDULES_NS, &deployment.deployment_id),
            read_schedule,
        );
        let write = persist_schedule_state(
            &deployment,
            &Stored::Present(deployment.copy()),
            &known,
            state,
        )
        .expect("state is handled");
        if let Some(write) = write {
            runtime.write(write);
        }
    }

    let state = runtime
        .get(SCHEDULES_NS, &deployment.deployment_id)
        .expect("schedule exists");
    assert_eq!(state.i64_field("nextDueAtMs"), Some(180_000));
}

fn capable_runtime(
    capability: &AgentMcpExecutionCapability,
) -> (Runtime, AgentDeployment, LeaseClaim) {
    let mut runtime = Runtime::new();
    let mut live = deployment();
    live.mode = "live".to_string();
    live.studio_tool_allowlist = vec![
        "studio.deployment.inspect".to_string(),
        "studio.execution.external_receipt.append".to_string(),
        "tradeassembly.health".to_string(),
    ];
    runtime.put_deployment(&live);
    let lease = runtime
        .acquire(
            &lease_resource(&live.deployment_id),
            "controlled-supervisor",
            600_000,
        )
        .expect("a lease");
    let record = AgentMcpCapabilityRecord {
        schema_version: SCHEMA_VERSION.to_string(),
        deployment_id: live.deployment_id.clone(),
        run_id: "run-capability".to_string(),
        binding_digest: deployment_binding_digest(&live),
        mode: live.mode.clone(),
        studio_tool_allowlist: live.studio_tool_allowlist.clone(),
        capability_digest: capability.digest(),
    };
    runtime.put(MCP_CAPABILITIES_NS, &capability.digest(), record.value());
    put_run(&mut runtime, &live, capability, "running", Some(lease.fencing_token));
    runtime.put(
        ACTIVE_RUNS_NS,
        &live.deployment_id,
        active(i64::MAX, lease.fencing_token),
    );
    (runtime, live, lease)
}

fn active(expires: i64, fence: i64) -> Json {
    Json::Object(
        JsonMap::new()
            .with("runId", Json::text("run-capability"))
            .with("state", Json::text("running"))
            .with("leaseExpiresAtMs", Json::Int(expires))
            .with("leaseFence", Json::Int(fence)),
    )
}

fn put_run(
    runtime: &mut Runtime,
    live: &AgentDeployment,
    capability: &AgentMcpExecutionCapability,
    state: &str,
    fence: Option<i64>,
) {
    let mut run = JsonMap::new()
        .with("runId", Json::text("run-capability"))
        .with("deploymentId", Json::text(&live.deployment_id))
        .with("state", Json::text(state));
    if let Some(fence) = fence {
        run = run.with("leaseFence", Json::Int(fence));
    }
    runtime.put(
        RUNS_NS,
        "run-capability",
        Json::Object(
            JsonMap::new()
                .with("run", Json::Object(run))
                .with(
                    "bindingDigest",
                    Json::text(&deployment_binding_digest(live)),
                )
                .with("mcpCapabilityDigest", Json::text(&capability.digest())),
        ),
    );
}

fn bind(
    runtime: &Runtime,
    verified: &VerifiedAgentMcpExecutionContext,
    name: &str,
    arguments: &str,
) -> Result<Json, String> {
    let id = verified.deployment_id();
    bind_mcp_execution_context(
        verified,
        &runtime.snapshot(verified.capability_digest(), id),
        &runtime.desired_state(id),
        &runtime.lease(id),
        runtime.now_ms,
        &known_tools(),
        name,
        parse(arguments),
    )
}

#[test]
fn runner_mcp_capability_is_active_run_scoped_and_fail_closed() {
    let capability = AgentMcpExecutionCapability::issue();
    let (mut runtime, mut live, lease) = capable_runtime(&capability);
    let id = live.deployment_id.clone();
    let resolve = |runtime: &Runtime| {
        resolve_mcp_execution_context(
            Some(capability.token().as_str()),
            &runtime.snapshot(&capability.digest(), &id),
            &known_tools(),
        )
    };
    let resolved = resolve(&runtime)
        .expect("capability resolves")
        .expect("runner-scoped capability");
    let held = runtime.current_lease(&resolved).expect("a lease");
    assert_eq!(held.resource, lease.resource);
    assert_eq!(held.owner, lease.owner);
    assert_eq!(held.fencing_token, lease.fencing_token);
    assert_eq!(held.expires_at_ms, lease.expires_at_ms);

    for desired in ["paused", "stopped"] {
        live.desired_state = desired.to_string();
        let record = runtime.get(DEPLOYMENTS_NS, &id).expect("a record");
        let changed = match (record, read_back(&live)) {
            (Json::Object(map), inner) => Json::Object(map.with("deployment", inner)),
            _ => panic!("no record"),
        };
        let kept = runtime.get(DEPLOYMENTS_NS, &id).expect("a record");
        runtime.put(DEPLOYMENTS_NS, &id, changed);
        assert!(runtime.current_lease(&resolved).is_err());
        runtime.put(DEPLOYMENTS_NS, &id, kept);
    }
    resolved
        .revalidate(&runtime.snapshot(&capability.digest(), &id), &known_tools())
        .expect("current agent identity remains valid at the port boundary");
    assert_eq!(
        resolved.allowed_tools().clone(),
        vec![
            "studio.deployment.inspect".to_string(),
            "studio.execution.external_receipt.append".to_string(),
            "tradeassembly.health".to_string(),
        ]
    );
    let authority =
        r#"{"authority_context": {"actor": "verified-user", "surface": "mcp", "accountMode": "live"}}"#;
    let bound = bind(&runtime, &resolved, "studio.deployment.inspect", authority)
        .expect("allowed tool is bound");
    assert!(bound.field_is("deployment_id", &id));

    runtime.put(ACTIVE_RUNS_NS, &id, active(i64::MIN, lease.fencing_token));
    assert!(resolve(&runtime).is_err());
    assert!(resolved
        .revalidate(&runtime.snapshot(&capability.digest(), &id), &known_tools())
        .is_err());
    runtime.put(ACTIVE_RUNS_NS, &id, active(i64::MAX, lease.fencing_token));

    assert_eq!(
        bind(&runtime, &resolved, "studio.agent_run.health", authority).expect_err("refused"),
        "agent_mcp_tool_not_allowed"
    );
    assert_eq!(
        bind(
            &runtime,
            &resolved,
            "studio.deployment.inspect",
            r#"{"deployment_id": "other-deployment",
                "authority_context": {"actor": "verified-user", "surface": "mcp", "accountMode": "live"}}"#
        )
        .expect_err("refused"),
        "agent_mcp_execution_context_mismatch"
    );
    runtime.release(&lease).expect("released");
    let replacement = runtime
        .acquire(&lease.resource, &lease.owner, 600_000)
        .expect("a lease");
    assert!(replacement.fencing_token > lease.fencing_token);
    assert_eq!(
        bind(&runtime, &resolved, "tradeassembly.health", "{}").expect_err("refused"),
        "agent_run_lease_invalid"
    );
    assert!(resolved
        .revalidate(&runtime.snapshot(&capability.digest(), &id), &known_tools())
        .is_ok());
    assert_eq!(
        runtime.current_lease(&resolved).expect_err("refused"),
        "agent_run_lease_invalid"
    );
    put_run(&mut runtime, &live, &capability, "completed", None);
    assert_eq!(
        bind(&runtime, &resolved, "studio.deployment.inspect", authority).expect_err("refused"),
        "agent_mcp_execution_context_invalid"
    );
}

fn read_back(deployment: &AgentDeployment) -> Json {
    let mut scratch = Runtime::new();
    scratch.put_deployment(deployment);
    scratch
        .get(DEPLOYMENTS_NS, &deployment.deployment_id)
        .and_then(|record| record.field("deployment").map(Json::copy))
        .expect("a deployment")
}

#[test]
fn a_token_of_the_wrong_shape_resolves_nothing() {
    let capability = AgentMcpExecutionCapability::issue();
    let (runtime, live, _) = capable_runtime(&capability);
    let snapshot = runtime.snapshot(&capability.digest(), &live.deployment_id);
    assert!(resolve_mcp_execution_context(None, &snapshot, &known_tools())
        .expect("nothing is asked")
        .is_none());
    assert!(resolve_mcp_execution_context(Some("short"), &snapshot, &known_tools()).is_err());
    let other = AgentMcpExecutionCapability::issue();
    assert_ne!(other.token(), capability.token());
    assert_eq!(capability.token().len(), 64);
}

#[test]
fn recovery_replay_finalizes_a_receipt_after_the_run_transition() {
    let mut runtime = Runtime::new();
    let mut paused = deployment();
    paused.desired_state = "paused".to_string();
    runtime.put_deployment(&paused);
    let side_effect = SideEffectContext {
        authority: AuthorityContext {
            actor: "verified-user".to_string(),
            surface: "mcp".to_string(),
            account_mode: "paper".to_string(),
        },
        idempotency_key: "recover-after-transition".to_string(),
    };
    let digest = recovery_request_digest(&paused, &side_effect);
    let key = format!("recovery_{digest}");
    let expected = receipt(&paused, "reconciled", &Some("run-recovery".to_string()));
    runtime.put(
        RUNS_NS,
        "run-recovery",
        parse(&format!(
            r#"{{"run": {{"runId": "run-recovery", "deploymentId": "{}", "state": "reconciled"}}}}"#,
            paused.deployment_id
        )),
    );
    runtime.put(
        ACTIVE_RUNS_NS,
        &paused.deployment_id,
        parse(r#"{"state": "reconciled", "resolvedRunId": "run-recovery", "resolvedAtMs": 100}"#),
    );
    let in_progress = AgentRecoveryReceipt {
        schema_version: SCHEMA_VERSION.to_string(),
        deployment_id: paused.deployment_id.clone(),
        run_id: "run-recovery".to_string(),
        request_digest: digest,
        requested_at_ms: 100,
        state: "in_progress".to_string(),
        receipt: expected.copy(),
    };
    runtime.put(RECOVERY_RECEIPTS_NS, &key, in_progress.value());

    let id = paused.deployment_id.clone();
    let replay = runtime
        .recover(&id, 101, &side_effect)
        .expect("replay finalizes recovery");
    assert!(replay.equals(&expected));
    assert!(runtime
        .get(RECOVERY_RECEIPTS_NS, &key)
        .expect("receipt exists")
        .field_is("state", "completed"));
    let again = runtime
        .recover(&id, 102, &side_effect)
        .expect("completed receipt replays");
    assert!(again.equals(&expected));
    assert_eq!(runtime.events.len(), 1);
}

#[test]
fn recovery_codes_say_what_can_be_repeated() {
    assert_eq!(
        recovery_answer(true, Err("storage".to_string())).expect_err("an error"),
        "agent_recovery_retryable"
    );
    assert_eq!(
        recovery_answer(false, Err("storage".to_string())).expect_err("an error"),
        "storage"
    );
    assert_eq!(
        receipt_storage_error("immutable_storage_conflict"),
        "agent_recovery_idempotency_conflict"
    );
    assert_eq!(
        receipt_storage_error("down"),
        "agent_recovery_receipt_persist_failed"
    );
}

#[test]
fn a_pass_runs_the_agent_and_concludes_once() {
    let mut runtime = Runtime::new();
    let running = deployment();
    runtime.put_deployment(&running);
    let done = runtime
        .supervise(
            &running,
            true,
            vec![
                AdapterEvent::StillRunning,
                AdapterEvent::Finished(Ok(Some("session-1".to_string()))),
            ],
        )
        .expect("a receipt");
    assert!(done.field_is("outcome", "completed"));
    let run_id = field(&done, "runId");
    let record = runtime.get(RUNS_NS, &run_id).expect("the run is kept");
    let run = record.field("run").expect("a run");
    assert!(run.field_is("state", "completed"));
    assert!(run.field_is("codexSessionRef", "session-1"));
    assert_eq!(runtime.count(MCP_CAPABILITIES_NS), 1);
    assert!(runtime.lease(&running.deployment_id).is_none());

    let again = runtime
        .supervise(&running, true, vec![])
        .expect("a receipt");
    assert!(again.field_is("outcome", "not_due"));
}

fn second_pass_runs_nothing(cron_utc: Option<&str>) {
    let mut runtime = Runtime::new();
    let at_ms: i64 = 1_800_000_000_000;
    runtime.now_ms = at_ms;
    let mut running = deployment();
    running.cron_utc = cron_utc.map(str::to_string);
    runtime.put_deployment(&running);
    let done = runtime
        .supervise(
            &running,
            true,
            vec![AdapterEvent::Finished(Ok(Some("session-1".to_string())))],
        )
        .expect("a receipt");
    assert!(done.field_is("outcome", "completed"));
    let run_id = field(&done, "runId");
    let record = format!("{:?}", runtime.get(RUNS_NS, &run_id).expect("a run"));
    let schedule = format!("{:?}", runtime.get(SCHEDULES_NS, &running.deployment_id));
    runtime.now_ms = at_ms;
    let events = runtime.events.len();
    let again = runtime
        .supervise(&running, true, vec![])
        .expect("a receipt");
    assert!(again.field_is("outcome", "not_due"));
    assert!(matches!(again.field("runId"), Some(Json::Null)));
    assert_eq!(runtime.events.len(), events);
    assert_eq!(runtime.count(RUNS_NS), 1);
    assert_eq!(format!("{:?}", runtime.get(RUNS_NS, &run_id).expect("a run")), record);
    assert_eq!(
        format!("{:?}", runtime.get(SCHEDULES_NS, &running.deployment_id)),
        schedule
    );
    assert!(runtime.lease(&running.deployment_id).is_none());
}

#[test]
fn a_second_pass_at_the_same_time_runs_nothing() {
    second_pass_runs_nothing(None);
    second_pass_runs_nothing(Some("* * * * *"));
}

#[test]
fn a_failed_agent_waits_for_an_operator() {
    let mut runtime = Runtime::new();
    let running = deployment();
    runtime.put_deployment(&running);
    let code = runtime
        .supervise(&running, true, vec![AdapterEvent::Disconnected])
        .expect_err("the run is put aside");
    assert_eq!(code, "agent_run_pending_reconcile");
    let pointer = runtime
        .get(ACTIVE_RUNS_NS, &running.deployment_id)
        .expect("a pointer");
    assert!(pointer.field_is("state", "pending_reconcile"));
    assert!(runtime
        .events
        .contains(&"agent_run.pending_reconcile".to_string()));
}

#[test]
fn a_held_deployment_is_left_alone() {
    let mut runtime = Runtime::new();
    let running = deployment();
    runtime.put_deployment(&running);
    runtime
        .acquire(
            &lease_resource(&running.deployment_id),
            "another",
            DEFAULT_LEASE_MS,
        )
        .expect("a lease");
    let held = runtime
        .supervise(&running, true, vec![])
        .expect("a receipt");
    assert!(held.field_is("outcome", "lease_held"));
    assert!(runtime.get(ACTIVE_RUNS_NS, &running.deployment_id).is_none());
}

#[test]
fn a_denied_agent_is_not_started() {
    let mut runtime = Runtime::new();
    let running = deployment();
    runtime.put_deployment(&running);
    let denied = runtime.supervise(&running, false, vec![]);
    assert_eq!(
        denied.expect_err("the agent may not run"),
        "agent_entitlement_denied"
    );
    assert_eq!(runtime.count(RUNS_NS), 0);
    assert_eq!(runtime.count(MCP_CAPABILITIES_NS), 0);
}

#[test]
fn a_local_request_is_named_after_the_deployment() {
    let authority = AuthorityContext {
        actor: "operator".to_string(),
        surface: "cli".to_string(),
        account_mode: "paper".to_string(),
    };
    let case = recover_pending_run(deployment(), authority, 7);
    assert_eq!(
        case.context.idempotency_key,
        format!("agent-recovery:{}", case.deployment.deployment_id)
    );
    assert_eq!(case.now_ms, 7);
}

#[test]
fn a_resolution_that_breaks_off_can_be_repeated() {
    let authority = AuthorityContext {
        actor: "operator".to_string(),
        surface: "cli".to_string(),
        account_mode: "paper".to_string(),
    };
    let case = recover_pending_run(deployment(), authority, 7);
    let broken = recover_pending_run_with_context(
        &case,
        RecoveryStage::Completing { answer: Json::Null },
        RecoveryEvent::Failed("storage".to_string()),
    );
    assert!(matches!(
        broken,
        RecoveryStep::Finish(Err(code)) if code == "agent_recovery_retryable"
    ));
    let early = recover_pending_run_with_context(
        &case,
        RecoveryStage::Looking,
        RecoveryEvent::Failed("storage".to_string()),
    );
    assert!(matches!(early, RecoveryStep::Finish(Err(code)) if code == "storage"));
}

#[test]
fn every_fault_of_an_attachment_gives_its_lease_back() {
    let case = attachment("external", "activation-1", "attach");
    for fault in 0..8 {
        let mut runtime = external_fixture();
        let code = runtime
            .attach_until(&case, fault, "storage_unavailable")
            .err()
            .expect("no session");
        let told = if fault == 6 {
            "external_agent_attach_conflict"
        } else {
            "storage_unavailable"
        };
        assert_eq!(code, told, "{fault}");
        assert!(runtime.lease("external").is_none());
        if fault == 7 {
            let pointer = runtime.get(ACTIVE_RUNS_NS, "external").expect("a pointer");
            assert!(pointer.field_is("state", "pending_reconcile"));
        } else {
            assert_eq!(runtime.count(RUNS_NS), 0);
            assert!(runtime.get(ACTIVE_RUNS_NS, "external").is_none());
        }
    }
    let mut runtime = external_fixture();
    assert!(runtime.attach_until(&case, 8, "storage_unavailable").is_ok());
}

#[test]
fn an_attachment_is_written_under_the_authority_that_asks() {
    let case = attachment("external", "activation-1", "attach");
    let mut runtime = external_fixture();
    let mut step = ExternalAgentSession::begin_attachment(&case);
    let mut written = 0;
    while let AttachStep::Ask { stage, action } = step {
        if let AttachAction::Write(batch) = &action {
            written = batch.writes.len();
            assert!(batch.writes.iter().all(|write| is_under(write, &case.context)));
        }
        let event = runtime.perform_attachment(&stage, action);
        step = ExternalAgentSession::attach(&case, stage, event);
    }
    assert_eq!(written, 3);
    assert!(matches!(step, AttachStep::End(Ok(_))));
}

#[test]
fn limits_agree_though_zero_is_spelled_with_a_sign() {
    let mut runtime = external_fixture();
    let with_limit = |record: Json, limit: &str| match record {
        Json::Object(map) => Json::Object(map.with(
            "riskLimits",
            Json::Object(JsonMap::new().with("floor", Json::Real(limit.to_string()))),
        )),
        other => other,
    };
    let config = runtime.get(CONFIGS_NS, "config-v1").expect("a config");
    runtime.put(CONFIGS_NS, "config-v1", with_limit(config, "0.0"));
    runtime.put(ACTIVATIONS_NS, "activation-1", with_limit(activation(1), "-0.0"));
    assert!(runtime.attach("external", "activation-1", "attach").is_ok());
}

#[test]
fn only_a_run_that_is_left_to_an_operator_has_to_take_its_state() {
    let mut runtime = external_fixture();
    let session = runtime
        .attach("external", "activation-1", "attach")
        .expect("a session");
    let active = || Ok(runtime.get(ACTIVE_RUNS_NS, "external"));
    let odd = || Ok(Some(Json::Int(1)));
    assert!(session.can_be_detached(&active(), &Ok(runtime.get(RUNS_NS, session.run_id()))));
    assert!(!session.can_be_detached(&active(), &odd()));
    assert!(session.can_be_detached(&Ok(None), &odd()));
    assert!(session.can_be_detached(&Ok(Some(parse(r#"{"runId": "other"}"#))), &odd()));
    assert!(session.can_be_detached(&active(), &Err("storage".to_string())));
    assert!(!session.is_closed());
}

#[test]
fn a_pass_goes_on_though_the_previous_run_cannot_be_read() {
    let mut runtime = Runtime::new();
    let running = deployment();
    runtime.put_deployment(&running);
    runtime.put(
        ACTIVE_RUNS_NS,
        &running.deployment_id,
        parse(r#"{"runId": "run-before", "state": "completed"}"#),
    );
    let case = PassCase { deployment: running.copy(), now_ms: runtime.now_ms };
    let ask = |step: PassStep| match step {
        PassStep::Ask { stage, action } => (stage, action),
        PassStep::Conclude(_) => panic!("concluded"),
    };
    let lease = runtime.acquire(&lease_resource(&running.deployment_id), "runner", 600_000);
    let (stage, _) =
        ask(supervise_deployment(&case, PassStage::Leasing, PassEvent::Lease(lease)));
    let known = stored(runtime.get(SCHEDULES_NS, &running.deployment_id), read_schedule);
    let (stage, _) = ask(supervise_deployment(&case, stage, PassEvent::Schedule(known)));
    let pointer = PassEvent::Active(runtime.get(ACTIVE_RUNS_NS, &running.deployment_id));
    let (stage, action) = ask(supervise_deployment(&case, stage, pointer));
    assert!(matches!(stage, PassStage::Following { .. }));
    assert!(matches!(action, PassAction::LoadRun { run_id, .. } if run_id == "run-before"));
    let lost = PassEvent::Failed("storage_unavailable".to_string());
    let (stage, action) = ask(supervise_deployment(&case, stage, lost));
    assert!(matches!(stage, PassStage::Planning { .. }));
    assert!(matches!(action, PassAction::LoadRun { .. }));
}

#[test]
fn a_schedule_is_checked_once_the_lease_is_taken() {
    let mut runtime = Runtime::new();
    let mut idle = deployment();
    idle.cron_utc = Some("not an expression".to_string());
    let case = PassCase { deployment: idle.copy(), now_ms: 5 };
    let lease = runtime.acquire(&lease_resource(&idle.deployment_id), "runner", 600_000);
    match supervise_deployment(&case, PassStage::Leasing, PassEvent::Lease(lease)) {
        PassStep::Conclude(end) => {
            assert_eq!(end.result.err(), Some("agent_deployment_invalid".to_string()));
        }
        PassStep::Ask { .. } => panic!("went on"),
    }
    match supervise_deployment(&case, PassStage::Leasing, PassEvent::Lease(None)) {
        PassStep::Conclude(end) => {
            assert!(end.result.expect("a receipt").field_is("outcome", "lease_held"));
        }
        PassStep::Ask { .. } => panic!("went on"),
    }
}

#[test]
fn a_repeated_recovery_repeats_its_answer() {
    let mut runtime = external_fixture();
    let mut session = runtime
        .attach("external", "activation-1", "attach")
        .expect("a session");
    runtime.close(&mut session).expect("closed");
    let first = recover_external(&mut runtime).expect("an answer");
    let records = runtime.records.len();
    let events = runtime.events.len();
    let again = recover_external(&mut runtime).expect("an answer");
    assert!(again.equals(&first));
    assert_eq!(runtime.records.len(), records);
    assert_eq!(runtime.events.len(), events);
    assert_eq!(runtime.count(RECOVERY_RECEIPTS_NS), 1);
}
