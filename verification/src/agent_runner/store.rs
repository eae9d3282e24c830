//! Which records a change of a deployment or of its schedule puts in storage.

use vstd::prelude::*;

use crate::agent_runner::capability;
use crate::agent_runner::capability::valid_mode;
use crate::agent_runner::cron;
use crate::agent_runner::cron::next_cron_due_after;
use crate::agent_runner::deployment;
use crate::agent_runner::deployment::{
    deployment_binding_digest, secret_shaped, valid_tools, AgentDeployment, AgentExecutor,
    DEPLOYMENTS_NS, SCHEDULES_NS, SCHEMA_VERSION,
};
use crate::agent_runner::schedule;
use crate::agent_runner::schedule::{
    deployment_schedule, initial_schedule_state, schedule_state_value, AgentScheduleState,
    DeploymentSchedule, StateView,
};
use crate::digest;
use crate::json;
use crate::json::{Json, JsonMap, JsonTree};
use crate::ports;
use crate::ports::{ContextView, SideEffectContext, StorageWrite, Stored, WriteContext, WriteView};
use crate::text;
use crate::text::{blank, join2, same};

verus! {

/// Whether a text is one of the states that can be asked for.
pub open spec fn is_desired_state(s: Seq<char>) -> bool {
    s == "active"@ || s == "paused"@ || s == "stopped"@
}

/// Whether a deployment can be stored. `workspace_exists` says whether its workspace
/// is a directory.
pub open spec fn is_valid(d: AgentDeployment, known: Seq<String>, workspace_exists: bool) -> bool {
    &&& !text::is_blank(d.deployment_id@)
    &&& !text::is_blank(d.system_project_id@)
    &&& !text::is_blank(d.agent_definition_version_id@)
    &&& !text::is_blank(d.execution_config_version_id@)
    &&& deployment::tools_are_valid(d.studio_tool_allowlist@, known)
    &&& capability::mode_is_valid(d.mode@)
    &&& d.executor == AgentExecutor::Supervised ==> schedule::schedule_is_valid(d) && !text::is_blank(
        d.workspace@,
    ) && workspace_exists && !text::is_blank(d.prompt@)
    &&& !text::occurs_any(text::lowered(d.prompt@), deployment::secret_needles())
    &&& is_desired_state(d.desired_state@)
}

/// Tests whether a deployment can be stored, its schedule apart.
fn fields_are_valid(d: &AgentDeployment, known: &Vec<String>, workspace_exists: bool) -> (r: bool)
    requires
        d.executor == AgentExecutor::Supervised ==> schedule::schedule_is_valid(*d),
    ensures
        r == is_valid(*d, known@, workspace_exists),
{
    let supervised: bool = d.executor == AgentExecutor::Supervised;
    !blank(d.deployment_id.as_str()) && !blank(d.system_project_id.as_str()) && !blank(
        d.agent_definition_version_id.as_str(),
    ) && !blank(d.execution_config_version_id.as_str()) && valid_tools(
        &d.studio_tool_allowlist,
        known,
    ) && valid_mode(d.mode.as_str()) && (!supervised || (!blank(d.workspace.as_str())
        && workspace_exists && !blank(d.prompt.as_str()))) && !secret_shaped(d.prompt.as_str()) && (
    same(d.desired_state.as_str(), "active") || same(d.desired_state.as_str(), "paused") || same(
        d.desired_state.as_str(),
        "stopped",
    ))
}

/// The name of an executor in a record.
pub open spec fn executor_name(executor: AgentExecutor) -> Seq<char> {
    match executor {
        AgentExecutor::Supervised => "supervised"@,
        AgentExecutor::ExternalClient => "external_client"@,
    }
}

/// A deployment as it stands in its record.
pub open spec fn deployment_tree(d: AgentDeployment) -> JsonTree {
    JsonTree::Object(
        map![
            "executor"@ => JsonTree::Text(executor_name(d.executor)),
            "deploymentId"@ => JsonTree::Text(d.deployment_id@),
            "systemProjectId"@ => JsonTree::Text(d.system_project_id@),
            "agentDefinitionVersionId"@ => JsonTree::Text(d.agent_definition_version_id@),
            "executionConfigVersionId"@ => JsonTree::Text(d.execution_config_version_id@),
            "studioToolAllowlist"@ => json::text_array(text::texts(d.studio_tool_allowlist@)),
            "desiredState"@ => JsonTree::Text(d.desired_state@),
            "intervalSeconds"@ => JsonTree::Int(d.interval_seconds as int),
            "cronUtc"@ => json::text_or_null(text::option_text(d.cron_utc)),
            "mode"@ => JsonTree::Text(d.mode@),
            "prompt"@ => JsonTree::Text(d.prompt@),
            "workspace"@ => JsonTree::Text(d.workspace@),
            "runtimeProfile"@ => JsonTree::Text(d.runtime_profile@)
        ],
    )
}

fn deployment_value(d: &AgentDeployment) -> (r: Json)
    ensures
        r@ == deployment_tree(*d),
{
    let executor: &str = match d.executor {
        AgentExecutor::Supervised => "supervised",
        AgentExecutor::ExternalClient => "external_client",
    };
    Json::object(
        JsonMap::new().with("executor", Json::text(executor)).with(
            "deploymentId",
            Json::text(d.deployment_id.as_str()),
        ).with("systemProjectId", Json::text(d.system_project_id.as_str())).with(
            "agentDefinitionVersionId",
            Json::text(d.agent_definition_version_id.as_str()),
        ).with(
            "executionConfigVersionId",
            Json::text(d.execution_config_version_id.as_str()),
        ).with("studioToolAllowlist", Json::texts(&d.studio_tool_allowlist)).with(
            "desiredState",
            Json::text(d.desired_state.as_str()),
        ).with("intervalSeconds", Json::Large(d.interval_seconds)).with(
            "cronUtc",
            Json::optional_text(&d.cron_utc),
        ).with("mode", Json::text(d.mode.as_str())).with("prompt", Json::text(d.prompt.as_str())).with(
            "workspace",
            Json::text(d.workspace.as_str()),
        ).with("runtimeProfile", Json::text(d.runtime_profile.as_str())),
    )
}

/// The record of a deployment.
pub open spec fn deployment_record_tree(d: AgentDeployment) -> JsonTree {
    JsonTree::Object(
        map![
            "schemaVersion"@ => JsonTree::Text(SCHEMA_VERSION@),
            "kind"@ => JsonTree::Text("AgentDeployment"@),
            "orchestrator"@ => JsonTree::Text("agent"@),
            "host"@ => JsonTree::Text("local"@),
            "deployment"@ => deployment_tree(d),
            "bindingDigest"@ => JsonTree::Text(deployment::binding_digest(d)),
            "credentialPosture"@ => JsonTree::Text(
                "customer-managed; no credential material is persisted in agent records"@,
            )
        ],
    )
}

/// What storage holds of a deployment that is put again.
#[derive(Debug)]
pub struct ExistingDeployment {
    /// The deployment of its record; never absent.
    pub deployment: Stored<AgentDeployment>,
    /// The binding that its record names.
    pub binding_digest: Option<String>,
}

/// The binding of a stored deployment: the one its record names, or its own.
pub open spec fn existing_binding(existing: ExistingDeployment) -> Seq<char> {
    match (existing.binding_digest, existing.deployment) {
        (Some(named), _) => named@,
        (None, Stored::Present(d)) => deployment::binding_digest(d),
        _ => Seq::empty(),
    }
}

/// Whether a pointer points to a run in flight or to one that waits for an operator.
pub open spec fn has_open_run(active: Option<JsonTree>) -> bool {
    match active {
        Some(tree) => json::text_member(tree, "state"@) == Some("running"@) || json::text_member(
            tree,
            "state"@,
        ) == Some("pending_reconcile"@),
        None => false,
    }
}

/// Why a deployment may not take the place of a stored one, if it may not.
pub open spec fn replacement_fault(
    d: AgentDeployment,
    existing: Option<ExistingDeployment>,
    active: Option<JsonTree>,
) -> Option<Seq<char>> {
    match existing {
        None => None,
        Some(stored) => match stored.deployment {
            Stored::Present(old_deployment) => if existing_binding(stored)
                != deployment::binding_digest(d) && (old_deployment.desired_state@ == "active"@
                || has_open_run(active)) {
                Some("agent_deployment_binding_immutable"@)
            } else {
                None
            },
            _ => Some("agent_deployment_invalid"@),
        },
    }
}

/// Whether putting a deployment would change the binding of a stored one, so that the
/// pointer to its run matters.
pub fn binding_changes(deployment: &AgentDeployment, existing: &ExistingDeployment) -> (r: bool)
    ensures
        r == (existing.deployment is Present && existing_binding(*existing)
            != deployment::binding_digest(*deployment)),
{
    let stored = match &existing.deployment {
        Stored::Present(stored) => stored,
        _ => {
            return false;
        },
    };
    let wanted = deployment_binding_digest(deployment);
    match &existing.binding_digest {
        Some(named) => !same(named.as_str(), wanted.as_str()),
        None => {
            let own = deployment_binding_digest(stored);
            !same(own.as_str(), wanted.as_str())
        },
    }
}

fn open_run(active: &Option<Json>) -> (r: bool)
    ensures
        r == has_open_run(crate::ports::option_tree(*active)),
{
    match active {
        Some(value) => value.field_is("state", "running") || value.field_is(
            "state",
            "pending_reconcile",
        ),
        None => false,
    }
}

/// The writes of a list.
pub open spec fn writes_view(writes: Seq<StorageWrite>) -> Seq<WriteView> {
    writes.map_values(|w: StorageWrite| w@)
}

/// The first state of the schedule of a deployment.
pub open spec fn first_state(d: AgentDeployment) -> StateView {
    StateView {
        schema_version: SCHEMA_VERSION@,
        schedule_kind: schedule_identity(d).0,
        schedule_digest: schedule_identity(d).1,
        next_due_at_ms: 0,
        last_due_at_ms: None,
        missed_tick_count: 0,
        missed_tick_count_capped: false,
        updated_at_ms: 0,
    }
}

/// The kind and the digest of the schedule of a deployment.
pub open spec fn schedule_identity(d: AgentDeployment) -> (Seq<char>, Seq<char>) {
    let (kind, tree) = match d.cron_utc {
        Some(expression) => (
            "cron_utc"@,
            JsonTree::Object(
                map![
                    "kind"@ => JsonTree::Text("cron_utc"@),
                    "expression"@ => JsonTree::Text(
                        text::joined(cron::fields_of(expression@), " "@),
                    )
                ],
            ),
        ),
        None => (
            "interval"@,
            JsonTree::Object(
                map![
                    "kind"@ => JsonTree::Text("interval"@),
                    "intervalSeconds"@ => JsonTree::Int(d.interval_seconds as int)
                ],
            ),
        ),
    };
    (kind, digest::short_digest(json::json_text_of(tree)))
}

/// The schedule of a deployment has its identity.
pub proof fn schedule_has_identity(s: DeploymentSchedule, d: AgentDeployment)
    requires
        schedule::is_schedule_of(s, d),
    ensures
        schedule_identity(d) == (schedule::kind_of(s), schedule::digest_of(s)),
{
}

/// The writes that put a deployment: its record and, for a supervised one without a
/// schedule state, the first state.
pub open spec fn put_writes(d: AgentDeployment, has_schedule: bool, context: ContextView) -> Seq<
    WriteView,
> {
    let record = WriteView {
        namespace: DEPLOYMENTS_NS@,
        key: d.deployment_id@,
        value: deployment_record_tree(d),
        context,
    };
    if d.executor == AgentExecutor::Supervised && !has_schedule {
        seq![
            record,
            WriteView {
                namespace: SCHEDULES_NS@,
                key: d.deployment_id@,
                value: schedule::state_tree(first_state(d)),
                context,
            },
        ]
    } else {
        seq![record]
    }
}

/// What comes of putting a deployment.
pub open spec fn put_outcome(
    d: AgentDeployment,
    known: Seq<String>,
    workspace_exists: bool,
    existing: Option<ExistingDeployment>,
    active: Option<JsonTree>,
    has_schedule: bool,
    context: ContextView,
) -> Result<Seq<WriteView>, Seq<char>> {
    if !is_valid(d, known, workspace_exists) {
        Err("agent_deployment_invalid"@)
    } else {
        match replacement_fault(d, existing, active) {
            Some(code) => Err(code),
            None => Ok(put_writes(d, has_schedule, context)),
        }
    }
}

/// Whether a result says what a specification says.
pub open spec fn writes_are(
    r: Result<Vec<StorageWrite>, String>,
    expected: Result<Seq<WriteView>, Seq<char>>,
) -> bool {
    match (r, expected) {
        (Ok(writes), Ok(view)) => writes_view(writes@) == view,
        (Err(e), Err(code)) => e@ == code,
        _ => false,
    }
}

/// What is looked up before a deployment is put.
#[derive(Debug)]
pub struct PutLookup {
    pub known_tools: Vec<String>,
    /// Whether the workspace of the deployment is a directory.
    pub workspace_exists: bool,
    pub existing: Option<ExistingDeployment>,
    /// The pointer to the deployment's run.
    pub active: Option<Json>,
    /// Whether there is a schedule state.
    pub has_schedule: bool,
}

impl PutLookup {
    /// What comes of putting a deployment after this lookup.
    pub open spec fn outcome(self, d: AgentDeployment, context: ContextView) -> Result<
        Seq<WriteView>,
        Seq<char>,
    > {
        put_outcome(
            d,
            self.known_tools@,
            self.workspace_exists,
            self.existing,
            crate::ports::option_tree(self.active),
            self.has_schedule,
            context,
        )
    }
}

/// Puts a deployment under the caller's own idempotency key. The versioned bindings
/// of a deployment may not change while it is active or has a run that is open.
pub fn put_deployment_with_context(
    deployment: &AgentDeployment,
    lookup: &PutLookup,
    context: &SideEffectContext,
) -> (r: Result<Vec<StorageWrite>, String>)
    ensures
        writes_are(r, lookup.outcome(*deployment, ports::context_of(*context))),
{
    put_deployment_under(deployment, lookup, &WriteContext::of(context))
}

/// Puts a deployment.
pub fn put_deployment(deployment: &AgentDeployment, lookup: &PutLookup) -> (r: Result<
    Vec<StorageWrite>,
    String,
>)
    ensures
        writes_are(
            r,
            lookup.outcome(
                *deployment,
                ports::local_context("deployment:"@ + deployment.deployment_id@),
            ),
        ),
{
    let key = join2("deployment:", deployment.deployment_id.as_str());
    put_deployment_under(deployment, lookup, &WriteContext::local(key))
}

fn put_deployment_under(deployment: &AgentDeployment, lookup: &PutLookup, key: &WriteContext) -> (r: Result<
    Vec<StorageWrite>,
    String,
>)
    ensures
        writes_are(r, lookup.outcome(*deployment, key@)),
{
    let schedule: Option<DeploymentSchedule> = if deployment.executor == AgentExecutor::Supervised {
        match deployment_schedule(deployment) {
            Ok(schedule) => Some(schedule),
            Err(e) => {
                return Err(e);
            },
        }
    } else {
        None
    };
    if !fields_are_valid(deployment, &lookup.known_tools, lookup.workspace_exists) {
        return Err("agent_deployment_invalid".to_owned());
    }
    if let Some(existing) = &lookup.existing {
        match &existing.deployment {
            Stored::Present(stored) => {
                if binding_changes(deployment, existing) && (same(
                    stored.desired_state.as_str(),
                    "active",
                ) || open_run(&lookup.active)) {
                    return Err("agent_deployment_binding_immutable".to_owned());
                }
            },
            _ => {
                return Err("agent_deployment_invalid".to_owned());
            },
        }
    }
    let binding = deployment_binding_digest(deployment);
    let record = Json::object(
        JsonMap::new().with("schemaVersion", Json::text(SCHEMA_VERSION)).with(
            "kind",
            Json::text("AgentDeployment"),
        ).with("orchestrator", Json::text("agent")).with("host", Json::text("local")).with(
            "deployment",
            deployment_value(deployment),
        ).with("bindingDigest", Json::text(binding.as_str())).with(
            "credentialPosture",
            Json::text("customer-managed; no credential material is persisted in agent records"),
        ),
    );
    let mut writes: Vec<StorageWrite> = Vec::new();
    writes.push(
        StorageWrite {
            namespace: DEPLOYMENTS_NS,
            key: deployment.deployment_id.clone(),
            value: record,
            context: key.copy(),
        },
    );
    if let Some(schedule) = &schedule {
        if !lookup.has_schedule {
            proof {
                schedule_has_identity(*schedule, *deployment);
            }
            writes.push(
                StorageWrite {
                    namespace: SCHEDULES_NS,
                    key: deployment.deployment_id.clone(),
                    value: schedule_state_value(&initial_schedule_state(schedule)),
                    context: key.copy(),
                },
            );
        }
    }
    proof {
        assert(writes_view(writes@) =~= put_writes(*deployment, lookup.has_schedule, key@));
    }
    Ok(writes)
}

/// The place of the first deployment with an identifier.
pub open spec fn first_with_id(list: Seq<AgentDeployment>, id: Seq<char>) -> Option<int>
    decreases list.len(),
{
    if list.len() == 0 {
        None
    } else {
        match first_with_id(list.drop_last(), id) {
            Some(at) => Some(at),
            None => if list.last().deployment_id@ == id {
                Some(list.len() - 1)
            } else {
                None
            },
        }
    }
}

/// Finds the first deployment with an identifier.
pub fn find_deployment(deployments: &Vec<AgentDeployment>, deployment_id: &str) -> (r: Option<usize>)
    ensures
        match r {
            Some(at) => at < deployments@.len() && first_with_id(deployments@, deployment_id@) == Some(
                at as int,
            ),
            None => first_with_id(deployments@, deployment_id@) is None,
        },
{
    let mut i: usize = 0;
    while i < deployments.len()
        invariant
            i <= deployments.len(),
            first_with_id(deployments@.take(i as int), deployment_id@) is None,
        decreases deployments.len() - i,
    {
        proof {
            assert(deployments@.take(i + 1).drop_last() =~= deployments@.take(i as int));
            assert(deployments@.take(i + 1).last() == deployments@[i as int]);
        }
        if same(deployments[i].deployment_id.as_str(), deployment_id) {
            proof {
                first_stays_first(deployments@, deployment_id@, i + 1);
            }
            return Some(i);
        }
        i += 1;
    }
    assert(deployments@.take(deployments@.len() as int) =~= deployments@);
    None
}

proof fn first_stays_first(list: Seq<AgentDeployment>, id: Seq<char>, n: int)
    requires
        0 <= n <= list.len(),
        first_with_id(list.take(n), id) is Some,
    ensures
        first_with_id(list, id) == first_with_id(list.take(n), id),
    decreases list.len(),
{
    if n == list.len() {
        assert(list.take(n) =~= list);
    } else {
        assert(list.drop_last().take(n) =~= list.take(n));
        first_stays_first(list.drop_last(), id, n);
    }
}

/// A deployment that is asked to be in another state.
pub open spec fn asked_for(d: AgentDeployment, state: Seq<char>, r: AgentDeployment) -> bool {
    &&& r.desired_state@ == state
    &&& deployment::same_deployment(
        AgentDeployment { desired_state: d.desired_state, ..r },
        d,
    )
}

/// Asks for a state of the first deployment with the given identifier: the deployment
/// as it is then to be put, or the code of why there is none.
pub fn with_desired_state(
    deployments: &Vec<AgentDeployment>,
    deployment_id: &str,
    desired_state: &str,
) -> (r: Result<AgentDeployment, String>)
    ensures
        match r {
            Ok(d) => first_with_id(deployments@, deployment_id@) matches Some(at) && asked_for(
                deployments@[at],
                desired_state@,
                d,
            ),
            Err(e) => first_with_id(deployments@, deployment_id@) is None && e@
                == "agent_deployment_not_found"@,
        },
{
    match find_deployment(deployments, deployment_id) {
        Some(at) => {
            let mut d = deployments[at].copy();
            d.desired_state = desired_state.to_owned();
            Ok(d)
        },
        None => Err("agent_deployment_not_found".to_owned()),
    }
}

/// Asks for a state of a deployment under the caller's own idempotency key.
pub fn set_desired_state_with_context(
    deployments: &Vec<AgentDeployment>,
    deployment_id: &str,
    desired_state: &str,
    lookup: &PutLookup,
    context: &SideEffectContext,
) -> (r: Result<Vec<StorageWrite>, String>)
    ensures
        match first_with_id(deployments@, deployment_id@) {
            None => r matches Err(e) && e@ == "agent_deployment_not_found"@,
            Some(at) => exists|d: AgentDeployment| #[trigger]
                asked_for(deployments@[at], desired_state@, d) && writes_are(
                    r,
                    lookup.outcome(d, ports::context_of(*context)),
                ),
        },
{
    match with_desired_state(deployments, deployment_id, desired_state) {
        Ok(d) => {
            let r = put_deployment_with_context(&d, lookup, context);
            proof {
                let at = first_with_id(deployments@, deployment_id@)->Some_0;
                assert(asked_for(deployments@[at], desired_state@, d));
            }
            r
        },
        Err(e) => Err(e),
    }
}

/// Asks for a state of a deployment.
pub fn set_desired_state(
    deployments: &Vec<AgentDeployment>,
    deployment_id: &str,
    desired_state: &str,
    lookup: &PutLookup,
) -> (r: Result<Vec<StorageWrite>, String>)
    ensures
        match first_with_id(deployments@, deployment_id@) {
            None => r matches Err(e) && e@ == "agent_deployment_not_found"@,
            Some(at) => exists|d: AgentDeployment| #[trigger]
                asked_for(deployments@[at], desired_state@, d) && writes_are(
                    r,
                    lookup.outcome(d, ports::local_context("deployment:"@ + deployment_id@)),
                ),
        },
{
    match with_desired_state(deployments, deployment_id, desired_state) {
        Ok(d) => {
            let key = join2("deployment:", deployment_id);
            let r = put_deployment_under(&d, lookup, &WriteContext::local(key));
            proof {
                let at = first_with_id(deployments@, deployment_id@)->Some_0;
                assert(asked_for(deployments@[at], desired_state@, d));
            }
            r
        },
        Err(e) => Err(e),
    }
}

/// Whether a schedule state replaces another: not one of the same schedule that is due no
/// earlier.
pub open spec fn replaces_state(state: StateView, held: StateView) -> bool {
    !(held.schedule_kind == state.schedule_kind && held.schedule_digest == state.schedule_digest
        && held.next_due_at_ms >= state.next_due_at_ms)
}

/// Whether a deployment takes a schedule state where `held` is stored: never that of
/// another schedule.
pub open spec fn takes_state(d: AgentDeployment, held: Option<StateView>, state: StateView) -> bool {
    schedule_identity(d) == (state.schedule_kind, state.schedule_digest) && (held matches Some(
        other,
    ) ==> replaces_state(state, other))
}

/// Whether a schedule state is to be stored: never over the state of another
/// schedule, and never over a state that is due no earlier.
pub open spec fn persistence(
    stored: Stored<AgentDeployment>,
    existing: Stored<AgentScheduleState>,
    state: StateView,
) -> Result<bool, Seq<char>> {
    match stored {
        Stored::Absent => Err("agent_deployment_not_found"@),
        Stored::Malformed => Err("agent_deployment_invalid"@),
        Stored::Present(d) => if !schedule::schedule_is_valid(d) {
            Err("agent_deployment_invalid"@)
        } else if schedule_identity(d) != (state.schedule_kind, state.schedule_digest) {
            Ok(false)
        } else {
            match existing {
                Stored::Absent => Ok(takes_state(d, None, state)),
                Stored::Malformed => Err(schedule::state_invalid()),
                Stored::Present(held) => Ok(takes_state(d, Some(held@), state)),
            }
        },
    }
}

/// The write that stores a schedule state.
pub open spec fn schedule_write(
    deployment_id: Seq<char>,
    state: StateView,
    context: ContextView,
) -> WriteView {
    WriteView {
        namespace: SCHEDULES_NS@,
        key: deployment_id,
        value: schedule::state_tree(state),
        context,
    }
}

/// Decides whether a schedule state is stored, under the caller's idempotency key. A
/// run that completes after its deployment was changed, or after a later tick was
/// taken, must not bring an older state back.
pub fn persist_schedule_state_with_context(
    deployment: &AgentDeployment,
    stored: &Stored<AgentDeployment>,
    existing: &Stored<AgentScheduleState>,
    state: &AgentScheduleState,
    key: &WriteContext,
) -> (r: Result<Option<StorageWrite>, String>)
    ensures
        match (r, persistence(*stored, *existing, state@)) {
            (Ok(Some(write)), Ok(true)) => write@ == schedule_write(
                deployment.deployment_id@,
                state@,
                key@,
            ),
            (Ok(None), Ok(false)) => true,
            (Err(e), Err(code)) => e@ == code,
            _ => false,
        },
{
    let d = match stored {
        Stored::Absent => {
            return Err("agent_deployment_not_found".to_owned());
        },
        Stored::Malformed => {
            return Err("agent_deployment_invalid".to_owned());
        },
        Stored::Present(d) => d,
    };
    let schedule = match deployment_schedule(d) {
        Ok(schedule) => schedule,
        Err(e) => {
            return Err(e);
        },
    };
    proof {
        schedule_has_identity(schedule, *d);
    }
    let current = schedule.digest();
    if !same(state.schedule_kind.as_str(), schedule.kind()) || !same(
        state.schedule_digest.as_str(),
        current.as_str(),
    ) {
        return Ok(None);
    }
    match existing {
        Stored::Absent => {},
        Stored::Malformed => {
            return Err("agent_schedule_state_invalid".to_owned());
        },
        Stored::Present(old_state) => {
            if same(old_state.schedule_kind.as_str(), state.schedule_kind.as_str()) && same(
                old_state.schedule_digest.as_str(),
                state.schedule_digest.as_str(),
            ) && old_state.next_due_at_ms >= state.next_due_at_ms {
                return Ok(None);
            }
        },
    }
    Ok(
        Some(
            StorageWrite {
                namespace: SCHEDULES_NS,
                key: deployment.deployment_id.clone(),
                value: schedule_state_value(state),
                context: key.copy(),
            },
        ),
    )
}

/// Decides whether a schedule state is stored.
pub fn persist_schedule_state(
    deployment: &AgentDeployment,
    stored: &Stored<AgentDeployment>,
    existing: &Stored<AgentScheduleState>,
    state: &AgentScheduleState,
) -> (r: Result<Option<StorageWrite>, String>)
    ensures
        match (r, persistence(*stored, *existing, state@)) {
            (Ok(Some(write)), Ok(true)) => write@ == schedule_write(
                deployment.deployment_id@,
                state@,
                ports::local_context("schedule:"@ + deployment.deployment_id@),
            ),
            (Ok(None), Ok(false)) => true,
            (Err(e), Err(code)) => e@ == code,
            _ => false,
        },
{
    let key = join2("schedule:", deployment.deployment_id.as_str());
    persist_schedule_state_with_context(
        deployment,
        stored,
        existing,
        state,
        &WriteContext::local(key),
    )
}

/// A later schedule state is never rolled back by an earlier one of the same schedule.
pub proof fn schedule_is_not_rolled_back(
    stored: Stored<AgentDeployment>,
    later: AgentScheduleState,
    earlier: StateView,
)
    requires
        later@.schedule_kind == earlier.schedule_kind,
        later@.schedule_digest == earlier.schedule_digest,
        earlier.next_due_at_ms <= later@.next_due_at_ms,
    ensures
        persistence(stored, Stored::Present(later), earlier) != Ok::<bool, Seq<char>>(true),
{
}

/// A state of a schedule that the deployment no longer has is never stored.
pub proof fn foreign_schedule_is_not_stored(
    d: AgentDeployment,
    existing: Stored<AgentScheduleState>,
    state: StateView,
)
    requires
        schedule_identity(d) != (state.schedule_kind, state.schedule_digest),
    ensures
        persistence(Stored::Present(d), existing, state) != Ok::<bool, Seq<char>>(true),
{
}

/// The binding of a deployment that is active, or that has an open run, cannot be
/// changed by putting it again.
pub proof fn binding_is_immutable_in_use(
    d: AgentDeployment,
    lookup: PutLookup,
    existing: ExistingDeployment,
    stored: AgentDeployment,
    context: ContextView,
)
    requires
        lookup.existing == Some(existing),
        existing.deployment == Stored::Present(stored),
        existing_binding(existing) != deployment::binding_digest(d),
        stored.desired_state@ == "active"@ || has_open_run(crate::ports::option_tree(lookup.active)),
    ensures
        lookup.outcome(d, context) is Err,
{
}

/// The state after an operator has resolved a run: the next tick is due at once, or
/// at the next time that a cron expression names.
pub open spec fn recovered_state(d: AgentDeployment, next_due_at_ms: int, now_ms: int) -> StateView {
    StateView { next_due_at_ms, updated_at_ms: now_ms, ..first_state(d) }
}

/// Whether a state, or a code, is what an operator's resolution makes of the schedule of a
/// deployment.
pub open spec fn is_recovered_schedule(
    d: AgentDeployment,
    now_ms: i64,
    r: Result<AgentScheduleState, String>,
) -> bool {
    match r {
        Ok(state) => schedule::schedule_is_valid(d) && (match d.cron_utc {
            None => state@ == recovered_state(d, now_ms as int, now_ms as int),
            Some(expression) => exists|c: cron::CronUtcSchedule, next: int|
                #![trigger c.means(expression@), recovered_state(d, next, now_ms as int)]
                c.means(expression@) && cron::next_due(c, now_ms as int) == Ok::<
                    int,
                    cron::CronFault,
                >(next) && state@ == recovered_state(d, next, now_ms as int),
        }),
        Err(e) => if !schedule::schedule_is_valid(d) {
            e@ == "agent_deployment_invalid"@
        } else {
            d.cron_utc matches Some(expression) && exists|
                c: cron::CronUtcSchedule,
                fault: cron::CronFault,
            |
                #![trigger c.means(expression@), fault.code()]
                c.means(expression@) && cron::next_due(c, now_ms as int) == Err::<
                    int,
                    cron::CronFault,
                >(fault) && e@ == fault.code()
        },
    }
}

/// The state of a schedule after an operator has resolved a run.
pub fn schedule_after_operator_recovery(deployment: &AgentDeployment, now_ms: i64) -> (r: Result<
    AgentScheduleState,
    String,
>)
    ensures
        is_recovered_schedule(*deployment, now_ms, r),
{
    let schedule = match deployment_schedule(deployment) {
        Ok(schedule) => schedule,
        Err(e) => {
            return Err(e);
        },
    };
    proof {
        schedule_has_identity(schedule, *deployment);
    }
    let mut state = initial_schedule_state(&schedule);
    match &schedule {
        DeploymentSchedule::Interval { .. } => {
            state.next_due_at_ms = now_ms;
        },
        DeploymentSchedule::CronUtc(cron) => {
            match next_cron_due_after(cron, now_ms) {
                Ok(next) => {
                    state.next_due_at_ms = next;
                },
                Err(fault) => {
                    return Err(fault.as_str().to_owned());
                },
            }
        },
    }
    state.updated_at_ms = now_ms;
    proof {
        if let DeploymentSchedule::CronUtc(c) = schedule {
            assert(c.means(deployment.cron_utc->Some_0@));
            assert(state@ =~= recovered_state(
                *deployment,
                state.next_due_at_ms as int,
                now_ms as int,
            ));
        }
    }
    Ok(state)
}

} // verus!
