//! Sessions of agents that an outside client owns. The service facade authenticates
//! ownership before it attaches one: to know the identifiers of a deployment is never
//! enough.

use vstd::prelude::*;

use crate::agent_runner::capability;
use crate::agent_runner::capability::{
    AgentMcpCapabilityRecord, AgentMcpExecutionCapability, ExecutionSnapshot,
    VerifiedAgentMcpExecutionContext,
};
use crate::agent_runner::deployment;
use crate::agent_runner::deployment::{
    canonical_allowlist, deployment_binding_digest, AgentDeployment, AgentExecutor, ACTIVE_RUNS_NS,
    DEPLOYMENTS_NS, MCP_CAPABILITIES_NS, RUNS_NS, SCHEMA_VERSION,
};
use crate::agent_runner::records;
use crate::agent_runner::records::{
    active_run_record, can_take_run_state, inner_is, lease_resource, object_entries, with_run_state,
};
use crate::agent_runner::supervise;
use crate::json;
use crate::json::{Json, JsonMap, JsonTree};
use crate::ports;
use crate::ports::{
    copy_optional, BatchView, ContextView, ExpectationView, LeaseClaim, LeaseView, StorageBatch,
    WriteContext, WriteView,
};
use crate::text;
use crate::text::{chars_of, join2, join4, same, signed_decimal_text, slice_text};

verus! {

/// Where execution configurations are stored.
pub const CONFIGS_NS: &'static str = "execution_configs";

/// Where execution activations are stored.
pub const ACTIVATIONS_NS: &'static str = "execution_activations";

/// A record that must be there.
pub fn required(value: Option<Json>) -> (r: Result<Json, String>)
    ensures
        match r {
            Ok(v) => value == Some(v),
            Err(e) => value is None && e@ == "external_agent_binding_missing"@,
        },
{
    match value {
        Some(v) => Ok(v),
        None => Err("external_agent_binding_missing".to_owned()),
    }
}

/// The fields in which an activation must agree with its configuration.
pub open spec fn shared_fields() -> Seq<Seq<char>> {
    seq![
        "strategyVersionId"@,
        "strategySpecHash"@,
        "capabilityGraphRevisionId"@,
        "accountRef"@,
        "riskLimits"@,
    ]
}

/// A field of a record, or null.
pub open spec fn field_or_null(tree: JsonTree, key: Seq<char>) -> JsonTree {
    match json::member(tree, key) {
        Some(t) => t,
        None => JsonTree::Null,
    }
}

/// Whether an activation and its configuration agree in a field that is set.
pub open spec fn field_agrees(activation: JsonTree, config: JsonTree, key: Seq<char>) -> bool {
    field_or_null(activation, key) != JsonTree::Null && json::alike(
        field_or_null(activation, key),
        field_or_null(config, key),
    )
}

/// Whether a deployment, its configuration and an activation belong together and are
/// for an outside client on the given kind of account.
pub open spec fn attachment_agrees(
    d: AgentDeployment,
    config: JsonTree,
    activation: JsonTree,
    activation_id: Seq<char>,
    account_mode: Seq<char>,
) -> bool {
    &&& d.executor == AgentExecutor::ExternalClient
    &&& d.desired_state@ == "active"@
    &&& json::text_member(config, "orchestrator"@) == Some("external_agent"@)
    &&& json::text_member(activation, "orchestrator"@) == Some("external_agent"@)
    &&& json::text_member(activation, "state"@) == Some("active"@)
    &&& json::text_member(activation, "activationId"@) == Some(activation_id)
    &&& json::text_member(activation, "configId"@) == Some(d.execution_config_version_id@)
    &&& json::text_member(activation, "mode"@) == Some(d.mode@)
    &&& json::text_member(config, "mode"@) == Some(d.mode@)
    &&& account_mode == d.mode@
    &&& forall|i: int|
        0 <= i < shared_fields().len() ==> field_agrees(
            activation,
            config,
            #[trigger] shared_fields()[i],
        )
}

fn fields_agree(activation: &Json, config: &Json, key: &str) -> (r: bool)
    ensures
        r == field_agrees(activation@, config@, key@),
{
    match (activation.field(key), config.field(key)) {
        (Some(a), Some(c)) => {
            let set: bool = match a {
                Json::Null => false,
                _ => true,
            };
            set && a.equals(c)
        },
        _ => false,
    }
}

/// Whether a deployment has a run that is neither completed nor resolved.
pub open spec fn prior_is_open(prior: Option<JsonTree>) -> bool {
    match prior {
        Some(tree) => json::text_member(tree, "state"@) != Some("completed"@) && json::text_member(
            tree,
            "state"@,
        ) != Some("reconciled"@),
        None => false,
    }
}

/// Why a session cannot be attached, if it cannot.
pub open spec fn attachment_fault(
    d: AgentDeployment,
    config: JsonTree,
    activation: JsonTree,
    activation_id: Seq<char>,
    account_mode: Seq<char>,
    prior: Option<JsonTree>,
) -> Option<Seq<char>> {
    if !attachment_agrees(d, config, activation, activation_id, account_mode) {
        Some("external_agent_binding_invalid"@)
    } else if prior_is_open(prior) {
        Some(supervise::pending())
    } else {
        None
    }
}

/// Checks that a session can be attached.
pub fn check_attachment(
    deployment: &AgentDeployment,
    config: &Json,
    activation: &Json,
    activation_id: &str,
    account_mode: &str,
    prior: &Option<Json>,
) -> (r: Result<(), String>)
    ensures
        match (
            r,
            attachment_fault(
                *deployment,
                config@,
                activation@,
                activation_id@,
                account_mode@,
                ports::option_tree(*prior),
            ),
        ) {
            (Ok(_), None) => true,
            (Err(e), Some(code)) => e@ == code,
            _ => false,
        },
{
    let mode: &str = deployment.mode.as_str();
    let bound: bool = deployment.executor == AgentExecutor::ExternalClient && same(
        deployment.desired_state.as_str(),
        "active",
    ) && config.field_is("orchestrator", "external_agent") && activation.field_is(
        "orchestrator",
        "external_agent",
    ) && activation.field_is("state", "active") && activation.field_is(
        "activationId",
        activation_id,
    ) && activation.field_is("configId", deployment.execution_config_version_id.as_str())
        && activation.field_is("mode", mode) && config.field_is("mode", mode) && same(
        account_mode,
        mode,
    );
    let strategy: bool = fields_agree(activation, config, "strategyVersionId");
    let spec_hash: bool = fields_agree(activation, config, "strategySpecHash");
    let graph: bool = fields_agree(activation, config, "capabilityGraphRevisionId");
    let account: bool = fields_agree(activation, config, "accountRef");
    let limits: bool = fields_agree(activation, config, "riskLimits");
    proof {
        let keys = shared_fields();
        if strategy && spec_hash && graph && account && limits {
            assert forall|i: int| 0 <= i < keys.len() implies field_agrees(
                activation@,
                config@,
                #[trigger] keys[i],
            ) by {}
        } else {
            assert(!field_agrees(activation@, config@, keys[0]) || !field_agrees(
                activation@,
                config@,
                keys[1],
            ) || !field_agrees(activation@, config@, keys[2]) || !field_agrees(
                activation@,
                config@,
                keys[3],
            ) || !field_agrees(activation@, config@, keys[4]));
        }
    }
    if !bound || !strategy || !spec_hash || !graph || !account || !limits {
        return Err("external_agent_binding_invalid".to_owned());
    }
    let unfinished: bool = match prior {
        Some(value) => !value.field_is("state", "completed") && !value.field_is("state", "reconciled"),
        None => false,
    };
    if unfinished {
        return Err("agent_run_pending_reconcile".to_owned());
    }
    Ok(())
}

/// A session of an outside client. No bearer token leaves it.
pub struct ExternalAgentSession {
    capability: AgentMcpExecutionCapability,
    lease: LeaseClaim,
    deployment_id: String,
    run_id: String,
    closed: bool,
}

/// What an [`ExternalAgentSession`] is.
#[verifier::ext_equal]
pub struct SessionView {
    pub token: Seq<char>,
    pub lease: LeaseView,
    pub deployment_id: Seq<char>,
    pub run_id: Seq<char>,
    pub closed: bool,
}

impl View for ExternalAgentSession {
    type V = SessionView;

    closed spec fn view(&self) -> SessionView {
        SessionView {
            token: self.capability@,
            lease: self.lease@,
            deployment_id: self.deployment_id@,
            run_id: self.run_id@,
            closed: self.closed,
        }
    }
}

/// The run of a session: named after its capability.
pub open spec fn external_run_id(token: Seq<char>) -> Seq<char> {
    "external_"@ + capability::capability_key(token).take(24)
}

/// The run of a session that a capability is issued for.
pub fn session_run_id(capability: &AgentMcpExecutionCapability) -> (r: String)
    ensures
        r@ == external_run_id(capability@),
{
    let key = capability.digest();
    let chars = chars_of(key.as_str());
    let head = slice_text(&chars, 0, 24);
    assert(chars@.subrange(0, 24) =~= capability::capability_key(capability@).take(24));
    join2("external_", head.as_str())
}

/// The record of the run of a session.
pub open spec fn session_run_tree(
    deployment_id: Seq<char>,
    activation_id: Seq<char>,
    run_id: Seq<char>,
    binding: Seq<char>,
    key: Seq<char>,
    fence: int,
) -> JsonTree {
    JsonTree::Object(
        map![
            "schemaVersion"@ => JsonTree::Text(SCHEMA_VERSION@),
            "kind"@ => JsonTree::Text("AgentRun"@),
            "executor"@ => JsonTree::Text("external_client"@),
            "activationId"@ => JsonTree::Text(activation_id),
            "bindingDigest"@ => JsonTree::Text(binding),
            "mcpCapabilityDigest"@ => JsonTree::Text(key),
            "run"@ => JsonTree::Object(
                map![
                    "runId"@ => JsonTree::Text(run_id),
                    "deploymentId"@ => JsonTree::Text(deployment_id),
                    "triggerId"@ => JsonTree::Text("external_attach"@),
                    "state"@ => JsonTree::Text("running"@),
                    "leaseFence"@ => JsonTree::Int(fence),
                    "deploymentBindingDigest"@ => JsonTree::Text(binding)
                ],
            )
        ],
    )
}

fn session_run_record(
    deployment_id: &str,
    activation_id: &str,
    run_id: &str,
    binding: &str,
    key: &str,
    fence: i64,
) -> (r: Json)
    ensures
        r@ == session_run_tree(
            deployment_id@,
            activation_id@,
            run_id@,
            binding@,
            key@,
            fence as int,
        ),
{
    let run = JsonMap::new().with("runId", Json::text(run_id)).with(
        "deploymentId",
        Json::text(deployment_id),
    ).with("triggerId", Json::text("external_attach")).with("state", Json::text("running")).with(
        "leaseFence",
        Json::Int(fence),
    ).with("deploymentBindingDigest", Json::text(binding));
    Json::object(
        JsonMap::new().with("schemaVersion", Json::text(SCHEMA_VERSION)).with(
            "kind",
            Json::text("AgentRun"),
        ).with("executor", Json::text("external_client")).with(
            "activationId",
            Json::text(activation_id),
        ).with("bindingDigest", Json::text(binding)).with("mcpCapabilityDigest", Json::text(key)).with(
            "run",
            Json::object(run),
        ),
    )
}

/// What an attachment was decided on.
#[derive(Debug)]
pub struct AttachmentRecords {
    /// The whole record that holds the deployment.
    pub deployment_record: Json,
    pub config: Json,
    pub activation: Json,
    /// The pointer to the run that the deployment had before.
    pub prior: Option<Json>,
}

/// The record of the capability of a session.
pub open spec fn session_capability_tree(
    d: AgentDeployment,
    deployment_id: Seq<char>,
    token: Seq<char>,
) -> JsonTree {
    JsonTree::Object(
        map![
            "schemaVersion"@ => JsonTree::Text(SCHEMA_VERSION@),
            "deploymentId"@ => JsonTree::Text(deployment_id),
            "runId"@ => JsonTree::Text(external_run_id(token)),
            "bindingDigest"@ => JsonTree::Text(deployment::binding_digest(d)),
            "mode"@ => JsonTree::Text(d.mode@),
            "studioToolAllowlist"@ => json::text_array(
                deployment::canonical_tools(d.studio_tool_allowlist@),
            ),
            "capabilityDigest"@ => JsonTree::Text(capability::capability_key(token))
        ],
    )
}

/// The writes of an attachment: the run, the pointer to it and the capability. They go
/// through only if nothing has changed since it was decided.
pub open spec fn attachment_batch(
    d: AgentDeployment,
    deployment_id: Seq<char>,
    activation_id: Seq<char>,
    seen: AttachmentRecords,
    token: Seq<char>,
    lease: LeaseView,
    now_ms: int,
    context: ContextView,
) -> BatchView {
    let run_id = external_run_id(token);
    let key = capability::capability_key(token);
    BatchView {
        writes: seq![
            WriteView {
                namespace: RUNS_NS@,
                key: run_id,
                value: session_run_tree(
                    deployment_id,
                    activation_id,
                    run_id,
                    deployment::binding_digest(d),
                    key,
                    lease.fencing_token,
                ),
                context,
            },
            WriteView {
                namespace: ACTIVE_RUNS_NS@,
                key: deployment_id,
                value: records::active_tree(run_id, "running"@, lease, now_ms),
                context,
            },
            WriteView {
                namespace: MCP_CAPABILITIES_NS@,
                key,
                value: session_capability_tree(d, deployment_id, token),
                context,
            },
        ],
        expectations: seq![
            ExpectationView {
                namespace: DEPLOYMENTS_NS@,
                key: deployment_id,
                value: Some(seen.deployment_record@),
            },
            ExpectationView {
                namespace: CONFIGS_NS@,
                key: d.execution_config_version_id@,
                value: Some(seen.config@),
            },
            ExpectationView {
                namespace: ACTIVATIONS_NS@,
                key: activation_id,
                value: Some(seen.activation@),
            },
            ExpectationView {
                namespace: ACTIVE_RUNS_NS@,
                key: deployment_id,
                value: ports::option_tree(seen.prior),
            },
            ExpectationView { namespace: RUNS_NS@, key: run_id, value: None },
            ExpectationView { namespace: MCP_CAPABILITIES_NS@, key, value: None },
        ],
    }
}

/// The lease that an attachment asks for: what it is on and who is to own it.
pub fn attachment_lease(deployment_id: &str, capability: &AgentMcpExecutionCapability) -> (r: (
    String,
    String,
))
    ensures
        r.0@ == records::lease_resource_of(deployment_id@),
        r.1@ == external_run_id(capability@),
{
    (lease_resource(deployment_id), session_run_id(capability))
}

/// The lease of an attachment, which must not be held by another.
pub fn attached_lease(lease: Option<LeaseClaim>) -> (r: Result<LeaseClaim, String>)
    ensures
        match r {
            Ok(claim) => lease == Some(claim),
            Err(e) => lease is None && e@ == "agent_run_lease_held"@,
        },
{
    match lease {
        Some(claim) => Ok(claim),
        None => Err("agent_run_lease_held".to_owned()),
    }
}

/// Plans an attachment under a lease: the session and the writes on which it rests. The
/// session counts only once the writes went through and its authority has been checked.
pub fn plan_attachment(
    deployment: &AgentDeployment,
    deployment_id: &str,
    activation_id: &str,
    account_mode: &str,
    seen: &AttachmentRecords,
    capability: AgentMcpExecutionCapability,
    lease: LeaseClaim,
    now_ms: i64,
    context: &WriteContext,
) -> (r: Result<(ExternalAgentSession, StorageBatch), String>)
    ensures
        match (
            r,
            attachment_fault(
                *deployment,
                seen.config@,
                seen.activation@,
                activation_id@,
                account_mode@,
                ports::option_tree(seen.prior),
            ),
        ) {
            (Ok(attached), None) => attached.0@ == (SessionView {
                token: capability@,
                lease: lease@,
                deployment_id: deployment_id@,
                run_id: external_run_id(capability@),
                closed: false,
            }) && attached.1@ == attachment_batch(
                *deployment,
                deployment_id@,
                activation_id@,
                *seen,
                capability@,
                lease@,
                now_ms as int,
                context@,
            ),
            (Err(e), Some(code)) => e@ == code,
            _ => false,
        },
{
    if let Err(e) = check_attachment(
        deployment,
        &seen.config,
        &seen.activation,
        activation_id,
        account_mode,
        &seen.prior,
    ) {
        return Err(e);
    }
    let run_id = session_run_id(&capability);
    let key = capability.digest();
    let binding = deployment_binding_digest(deployment);
    let record = AgentMcpCapabilityRecord {
        schema_version: SCHEMA_VERSION.to_owned(),
        deployment_id: deployment_id.to_owned(),
        run_id: run_id.clone(),
        binding_digest: binding.clone(),
        mode: deployment.mode.clone(),
        studio_tool_allowlist: canonical_allowlist(&deployment.studio_tool_allowlist),
        capability_digest: key.clone(),
    };
    let run = session_run_record(
        deployment_id,
        activation_id,
        run_id.as_str(),
        binding.as_str(),
        key.as_str(),
        lease.fencing_token,
    );
    let pointer = active_run_record(run_id.as_str(), "running", &lease, now_ms);
    let batch = StorageBatch::new().write(RUNS_NS, run_id.as_str(), run, context).write(
        ACTIVE_RUNS_NS,
        deployment_id,
        pointer,
        context,
    ).write(MCP_CAPABILITIES_NS, key.as_str(), record.value(), context).expect(
        DEPLOYMENTS_NS,
        deployment_id,
        Some(seen.deployment_record.copy()),
    ).expect(
        CONFIGS_NS,
        deployment.execution_config_version_id.as_str(),
        Some(seen.config.copy()),
    ).expect(ACTIVATIONS_NS, activation_id, Some(seen.activation.copy())).expect(
        ACTIVE_RUNS_NS,
        deployment_id,
        copy_optional(&seen.prior),
    ).expect(RUNS_NS, run_id.as_str(), None).expect(MCP_CAPABILITIES_NS, key.as_str(), None);
    let session = ExternalAgentSession {
        capability,
        lease,
        deployment_id: deployment_id.to_owned(),
        run_id,
        closed: false,
    };
    Ok((session, batch))
}

impl ExternalAgentSession {
    /// The outcome of asking a session for its authority.
    pub open spec fn authority(
        self,
        snapshot: ExecutionSnapshot,
        desired_state: Option<Seq<char>>,
        lease: Option<LeaseClaim>,
        checked_at_ms: int,
        known: Seq<String>,
        r: Result<VerifiedAgentMcpExecutionContext, String>,
    ) -> bool {
        if self@.closed {
            r matches Err(e) && e@ == "external_agent_session_closed"@
        } else {
            match capability::context_of(snapshot, capability::capability_key(self@.token), known) {
                Err(code) => r matches Err(e) && e@ == code,
                Ok(shown) => match r {
                    Ok(context) => context@ == shown && context.lease_of(
                        snapshot,
                        desired_state,
                        lease,
                        checked_at_ms,
                        known,
                    ) is Ok,
                    Err(e) => exists|context: VerifiedAgentMcpExecutionContext|
                        #![trigger context@]
                        context@ == shown && context.lease_of(
                            snapshot,
                            desired_state,
                            lease,
                            checked_at_ms,
                            known,
                        ) == Err::<LeaseClaim, Seq<char>>(e@),
                },
            }
        }
    }

    /// The authority of the session, as the records and the lease in force have it.
    pub fn verified_context(
        &self,
        snapshot: &ExecutionSnapshot,
        desired_state: &Option<String>,
        lease: &Option<LeaseClaim>,
        checked_at_ms: i64,
        known_tools: &Vec<String>,
    ) -> (r: Result<VerifiedAgentMcpExecutionContext, String>)
        ensures
            self.authority(
                *snapshot,
                text::option_text(*desired_state),
                *lease,
                checked_at_ms as int,
                known_tools@,
                r,
            ),
    {
        if self.closed {
            return Err("external_agent_session_closed".to_owned());
        }
        match self.capability.verified_context(snapshot, known_tools) {
            Err(e) => Err(e),
            Ok(context) => match context.current_lease(
                snapshot,
                desired_state,
                lease,
                checked_at_ms,
                known_tools,
            ) {
                Ok(_) => Ok(context),
                Err(e) => {
                    proof {
                        let shown = context@;
                        assert(context@ == shown);
                    }
                    Err(e)
                },
            },
        }
    }
}

/// The code of a batch that did not go through.
fn batch_outcome(updated: bool, conflict: &str) -> (r: Result<(), String>)
    ensures
        match r {
            Ok(_) => updated,
            Err(e) => !updated && e@ == conflict@,
        },
{
    if updated {
        Ok(())
    } else {
        Err(conflict.to_owned())
    }
}

/// What becomes of the recovery of an abandoned session.
pub fn quarantine_outcome(updated: bool) -> (r: Result<(), String>)
    ensures
        match r {
            Ok(_) => updated,
            Err(e) => !updated && e@ == "external_agent_recovery_conflict"@,
        },
{
    batch_outcome(updated, "external_agent_recovery_conflict")
}

/// The answer to a close: what became of the writes comes before what became of the
/// release of the lease.
pub fn close_outcome(updated: bool, released: Result<(), String>) -> (r: Result<(), String>)
    ensures
        if updated {
            r == released
        } else {
            r matches Err(e) && e@ == "external_agent_detach_conflict"@
        },
{
    match batch_outcome(updated, "external_agent_detach_conflict") {
        Ok(_) => released,
        Err(e) => Err(e),
    }
}

/// The pointer to a run with the state in which an operator has to resolve it.
pub open spec fn quarantined_pointer(active: JsonTree) -> JsonTree {
    JsonTree::Object(
        records::object_of(active).insert("state"@, JsonTree::Text("pending_reconcile"@)),
    )
}

/// The writes that leave a run to an operator: its record and the pointer to it, if
/// neither has changed.
pub open spec fn quarantine_batch(
    deployment_id: Seq<char>,
    run_id: Seq<char>,
    active: JsonTree,
    run: JsonTree,
    context: ContextView,
) -> BatchView {
    BatchView {
        writes: seq![
            WriteView {
                namespace: RUNS_NS@,
                key: run_id,
                value: records::in_run_state(run, "pending_reconcile"@),
                context,
            },
            WriteView {
                namespace: ACTIVE_RUNS_NS@,
                key: deployment_id,
                value: quarantined_pointer(active),
                context,
            },
        ],
        expectations: seq![
            ExpectationView { namespace: RUNS_NS@, key: run_id, value: Some(run) },
            ExpectationView { namespace: ACTIVE_RUNS_NS@, key: deployment_id, value: Some(active) },
        ],
    }
}

fn quarantine_writes(deployment_id: &str, run_id: &str, active: &Json, run: &Json, context: &WriteContext) -> (r:
    StorageBatch)
    requires
        records::takes_run_state(run@),
    ensures
        r@ == quarantine_batch(deployment_id@, run_id@, active@, run@, context@),
{
    let ended = with_run_state(run, "pending_reconcile");
    let pointer = Json::object(
        object_entries(active).with("state", Json::text("pending_reconcile")),
    );
    StorageBatch::new().write(RUNS_NS, run_id, ended, context).write(
        ACTIVE_RUNS_NS,
        deployment_id,
        pointer,
        context,
    ).expect(RUNS_NS, run_id, Some(run.copy())).expect(
        ACTIVE_RUNS_NS,
        deployment_id,
        Some(active.copy()),
    )
}

/// What a close asks for.
#[derive(Debug)]
pub enum CloseStep {
    /// The session was closed before.
    AlreadyClosed,
    /// The run cannot be left to an operator; the lease is released all the same.
    Failed(String),
    /// The run is left to an operator and the lease released.
    Detach(StorageBatch),
}

/// Whether the pointer to the run is still that of the session.
pub open spec fn points_to_session(session: SessionView, active: JsonTree) -> bool {
    &&& json::text_member(active, "runId"@) == Some(session.run_id)
    &&& json::i64_member(active, "leaseFence"@) == Some(session.lease.fencing_token)
}

/// What came of reading a record: the record, that there is none, or why it could not be
/// read.
pub type ReadRecord = Result<Option<Json>, String>;

/// Why the run of a session cannot be left to an operator, if it cannot: its pointer or
/// its record could not be read or is not there, or the pointer is no longer the
/// session's.
pub open spec fn detachment_fault(
    session: SessionView,
    active: ReadRecord,
    run: ReadRecord,
) -> Option<Seq<char>> {
    match active {
        Err(code) => Some(code@),
        Ok(None) => Some("external_agent_binding_missing"@),
        Ok(Some(a)) => if !points_to_session(session, a@) {
            Some("agent_run_lease_invalid"@)
        } else {
            match run {
                Err(code) => Some(code@),
                Ok(None) => Some("external_agent_binding_missing"@),
                Ok(Some(_)) => None,
            }
        },
    }
}

/// Whether a run that is left to an operator can take the state in which it is left.
pub open spec fn can_detach(session: SessionView, active: ReadRecord, run: ReadRecord) -> bool {
    detachment_fault(session, active, run) is None ==> records::takes_run_state(
        run->Ok_0->Some_0@,
    )
}

/// The writes that leave the run of a session to an operator.
pub open spec fn detachment_batch(session: SessionView, active: JsonTree, run: JsonTree) -> BatchView {
    quarantine_batch(
        session.deployment_id,
        session.run_id,
        active,
        run,
        ports::local_context("external-detach:"@ + session.run_id),
    )
}

/// Whether a step closes a session: it is closed from then on, and where it was open its run
/// is left to an operator, or the step says why it cannot be.
pub open spec fn closes(
    before: SessionView,
    after: SessionView,
    active: ReadRecord,
    run: ReadRecord,
    r: CloseStep,
) -> bool {
    &&& after == (SessionView { closed: true, ..before })
    &&& match r {
        CloseStep::AlreadyClosed => before.closed,
        CloseStep::Failed(e) => !before.closed && detachment_fault(before, active, run) == Some(e@),
        CloseStep::Detach(batch) => {
            &&& !before.closed
            &&& detachment_fault(before, active, run) is None
            &&& batch@ == detachment_batch(before, active->Ok_0->Some_0@, run->Ok_0->Some_0@)
        },
    }
}

/// What the authority of a session is checked against.
#[derive(Debug)]
pub struct AuthorityRecords {
    pub snapshot: ExecutionSnapshot,
    pub desired_state: Option<String>,
    /// The lease in force, if there is one.
    pub lease: Option<LeaseClaim>,
    pub checked_at_ms: i64,
    pub known_tools: Vec<String>,
}

/// How far the renewal of a session has come.
#[derive(Debug)]
pub enum RenewalStage {
    /// Its authority is being checked.
    Verifying,
    /// The pointer to its run is being read.
    Reading,
    /// Its lease is being renewed; the pointer was found to be `prior`.
    Leasing { prior: Json },
    /// The heartbeat is being written.
    Writing,
    /// Its authority is being checked under the renewed lease.
    Confirming,
    /// The renewal failed: what is to be left to an operator is being read.
    Failing { code: String },
    /// The renewal failed: the run is being left to an operator and the lease released.
    Closing { code: String },
}

/// What happened to the renewal of a session.
#[derive(Debug)]
pub enum RenewalEvent {
    Authority(AuthorityRecords),
    Pointer(Option<Json>),
    Renewed { lease: LeaseClaim, now_ms: i64 },
    /// Whether the heartbeat went through.
    Settled(bool),
    /// What was asked for could not be had.
    Failed(String),
    /// The pointer to the run and the record of it, as far as they could be read.
    Records { active: ReadRecord, run: ReadRecord },
    /// Everything was tried to leave the run to an operator and to release the lease.
    Closed,
}

/// What the renewal of a session asks for.
#[derive(Debug)]
pub enum RenewalAction {
    CheckAuthority,
    ReadPointer,
    RenewLease(LeaseClaim),
    Write(StorageBatch),
    /// The pointer to the run and the record of it are to be read.
    ReadRun,
    /// The writes, if there are any, are to be made and the lease is to be released.
    Detach { batch: Option<StorageBatch>, lease: LeaseClaim },
}

/// The next step of a renewal.
#[derive(Debug)]
pub enum RenewalStep {
    Ask { stage: RenewalStage, action: RenewalAction },
    End(Result<(), String>),
}

/// Whether a renewal can have come to a stage: once it has failed its session is closed.
pub open spec fn renewal_reached(session: SessionView, stage: RenewalStage) -> bool {
    session.closed == (stage is Failing || stage is Closing)
}

/// Whether an event is one that the stage waits for.
pub open spec fn renewal_fits(session: SessionView, stage: RenewalStage, event: RenewalEvent) -> bool {
    &&& renewal_reached(session, stage)
    &&& match event {
        RenewalEvent::Authority(_) => stage is Verifying || stage is Confirming,
        RenewalEvent::Pointer(_) => stage is Reading,
        RenewalEvent::Renewed { .. } => stage is Leasing,
        RenewalEvent::Settled(_) => stage is Writing,
        RenewalEvent::Failed(_) => !(stage is Failing) && !(stage is Closing),
        RenewalEvent::Records { active, run } => stage is Failing && can_detach(
            session,
            active,
            run,
        ),
        RenewalEvent::Closed => stage is Closing,
    }
}

/// Whether a step fails a renewal: its session is closed, and its run comes next.
pub open spec fn renewal_fails(
    before: SessionView,
    after: SessionView,
    code: Seq<char>,
    r: RenewalStep,
) -> bool {
    &&& after == (SessionView { closed: true, ..before })
    &&& r matches RenewalStep::Ask {
        stage: RenewalStage::Failing { code: c },
        action: RenewalAction::ReadRun,
    } && c@ == code
}

/// The heartbeat of a session under a renewed lease, where its pointer is still `prior`.
pub open spec fn heartbeat_batch(
    session: SessionView,
    prior: JsonTree,
    renewed: LeaseView,
    now_ms: int,
) -> BatchView {
    BatchView {
        writes: seq![
            WriteView {
                namespace: ACTIVE_RUNS_NS@,
                key: session.deployment_id,
                value: records::active_tree(session.run_id, "running"@, renewed, now_ms),
                context: ports::local_context(
                    "external-heartbeat:"@ + session.run_id + ":"@ + text::signed_decimal(now_ms),
                ),
            },
        ],
        expectations: seq![
            ExpectationView {
                namespace: ACTIVE_RUNS_NS@,
                key: session.deployment_id,
                value: Some(prior),
            },
        ],
    }
}

/// Whether a step follows from what the records say of the authority of the session: with
/// it the renewal goes on, without it the renewal fails.
pub open spec fn follows_authority(
    before: ExternalAgentSession,
    after: SessionView,
    seen: AuthorityRecords,
    goes_on: bool,
    r: RenewalStep,
) -> bool {
    exists|verdict: Result<VerifiedAgentMcpExecutionContext, String>|
        #[trigger] before.authority(
            seen.snapshot,
            text::option_text(seen.desired_state),
            seen.lease,
            seen.checked_at_ms as int,
            seen.known_tools@,
            verdict,
        ) && match verdict {
            Ok(_) => after == before@ && goes_on,
            Err(e) => renewal_fails(before@, after, e@, r),
        }
}

/// What comes of an event, to the session and to its renewal.
pub open spec fn renewal_leads_to(
    before: ExternalAgentSession,
    after: SessionView,
    stage: RenewalStage,
    event: RenewalEvent,
    r: RenewalStep,
) -> bool {
    match (stage, event) {
        (_, RenewalEvent::Failed(code)) => renewal_fails(before@, after, code@, r),
        (RenewalStage::Verifying, RenewalEvent::Authority(seen)) => follows_authority(
            before,
            after,
            seen,
            r matches RenewalStep::Ask {
                stage: RenewalStage::Reading,
                action: RenewalAction::ReadPointer,
            },
            r,
        ),
        (RenewalStage::Reading, RenewalEvent::Pointer(found)) => match found {
            None => renewal_fails(before@, after, "external_agent_binding_missing"@, r),
            Some(pointer) => after == before@ && (r matches RenewalStep::Ask {
                stage: RenewalStage::Leasing { prior },
                action: RenewalAction::RenewLease(lease),
            } && prior == pointer && lease@ == before@.lease),
        },
        (RenewalStage::Leasing { prior }, RenewalEvent::Renewed { lease, now_ms }) => {
            &&& after == (SessionView { lease: lease@, ..before@ })
            &&& r matches RenewalStep::Ask {
                stage: RenewalStage::Writing,
                action: RenewalAction::Write(batch),
            } && batch@ == heartbeat_batch(before@, prior@, lease@, now_ms as int)
        },
        (RenewalStage::Writing, RenewalEvent::Settled(updated)) => if updated {
            after == before@ && (r matches RenewalStep::Ask {
                stage: RenewalStage::Confirming,
                action: RenewalAction::CheckAuthority,
            })
        } else {
            renewal_fails(before@, after, "external_agent_renew_conflict"@, r)
        },
        (RenewalStage::Confirming, RenewalEvent::Authority(seen)) => follows_authority(
            before,
            after,
            seen,
            r matches RenewalStep::End(Ok(_)),
            r,
        ),
        (RenewalStage::Failing { code }, RenewalEvent::Records { active, run }) => {
            &&& after == before@
            &&& r matches RenewalStep::Ask {
                stage: RenewalStage::Closing { code: c },
                action: RenewalAction::Detach { batch, lease },
            } && c == code && lease@ == before@.lease && match detachment_fault(
                before@,
                active,
                run,
            ) {
                Some(_) => batch is None,
                None => batch matches Some(writes) && writes@ == detachment_batch(
                    before@,
                    active->Ok_0->Some_0@,
                    run->Ok_0->Some_0@,
                ),
            }
        },
        (RenewalStage::Closing { code }, RenewalEvent::Closed) => after == before@ && r
            == RenewalStep::End(Err(code)),
        _ => true,
    }
}

impl ExternalAgentSession {
    /// The heartbeat of the session under its lease, where its pointer is still `prior`.
    fn heartbeat(&self, prior: Json, now_ms: i64) -> (r: StorageBatch)
        ensures
            r@ == heartbeat_batch(self@, prior@, self@.lease, now_ms as int),
    {
        let number = signed_decimal_text(now_ms);
        let context = WriteContext::local(
            join4("external-heartbeat:", self.run_id.as_str(), ":", number.as_str()),
        );
        let pointer = active_run_record(self.run_id.as_str(), "running", &self.lease, now_ms);
        StorageBatch::new().write(
            ACTIVE_RUNS_NS,
            self.deployment_id.as_str(),
            pointer,
            &context,
        ).expect(ACTIVE_RUNS_NS, self.deployment_id.as_str(), Some(prior))
    }

    /// Closes the session, since its renewal failed.
    fn fail_renewal(&mut self, code: String) -> (r: RenewalStep)
        ensures
            renewal_fails(old(self)@, final(self)@, code@, r),
    {
        self.closed = true;
        RenewalStep::Ask { stage: RenewalStage::Failing { code }, action: RenewalAction::ReadRun }
    }

    /// The writes that leave the run to an operator, or why it cannot be left to one.
    fn detachment(&self, active: &ReadRecord, run: &ReadRecord) -> (r: Result<StorageBatch, String>)
        requires
            can_detach(self@, *active, *run),
        ensures
            match (r, detachment_fault(self@, *active, *run)) {
                (Err(e), Some(code)) => e@ == code,
                (Ok(batch), None) => batch@ == detachment_batch(
                    self@,
                    active->Ok_0->Some_0@,
                    run->Ok_0->Some_0@,
                ),
                _ => false,
            },
    {
        let pointer: &Json = match active {
            Ok(Some(value)) => value,
            Ok(None) => {
                return Err("external_agent_binding_missing".to_owned());
            },
            Err(code) => {
                return Err(code.clone());
            },
        };
        let fenced: bool = match pointer.i64_field("leaseFence") {
            Some(n) => n == self.lease.fencing_token,
            None => false,
        };
        if !pointer.field_is("runId", self.run_id.as_str()) || !fenced {
            return Err("agent_run_lease_invalid".to_owned());
        }
        match run {
            Ok(Some(record)) => {
                let context = WriteContext::local(
                    join2("external-detach:", self.run_id.as_str()),
                );
                Ok(
                    quarantine_writes(
                        self.deployment_id.as_str(),
                        self.run_id.as_str(),
                        pointer,
                        record,
                        &context,
                    ),
                )
            },
            Ok(None) => Err("external_agent_binding_missing".to_owned()),
            Err(code) => Err(code.clone()),
        }
    }

    /// Checks the authority of the session against what was read.
    pub fn is_authorized(&self, seen: &AuthorityRecords) -> (r: Result<(), String>)
        ensures
            exists|verdict: Result<VerifiedAgentMcpExecutionContext, String>|
                #[trigger] self.authority(
                    seen.snapshot,
                    text::option_text(seen.desired_state),
                    seen.lease,
                    seen.checked_at_ms as int,
                    seen.known_tools@,
                    verdict,
                ) && match (verdict, r) {
                    (Ok(_), Ok(_)) => true,
                    (Err(a), Err(b)) => a == b,
                    _ => false,
                },
    {
        match self.verified_context(
            &seen.snapshot,
            &seen.desired_state,
            &seen.lease,
            seen.checked_at_ms,
            &seen.known_tools,
        ) {
            Ok(_) => Ok(()),
            Err(e) => Err(e),
        }
    }

    /// Begins a renewal of the session. One that is closed is not renewed.
    pub fn begin_renewal(&self) -> (r: RenewalStep)
        ensures
            if self@.closed {
                r matches RenewalStep::End(Err(e)) && e@ == "external_agent_session_closed"@
            } else {
                r matches RenewalStep::Ask {
                    stage: RenewalStage::Verifying,
                    action: RenewalAction::CheckAuthority,
                }
            },
    {
        if self.closed {
            return RenewalStep::End(Err("external_agent_session_closed".to_owned()));
        }
        RenewalStep::Ask { stage: RenewalStage::Verifying, action: RenewalAction::CheckAuthority }
    }

    /// Takes the next step of a renewal: the authority is checked, the lease renewed, the
    /// heartbeat written and the authority checked again. Whatever fails, the session is
    /// closed: it has no authority from then on, its run is left to an operator and its
    /// lease released.
    pub fn renew(&mut self, stage: RenewalStage, event: RenewalEvent) -> (r: RenewalStep)
        requires
            renewal_fits(old(self)@, stage, event),
        ensures
            renewal_leads_to(*old(self), final(self)@, stage, event, r),
            r matches RenewalStep::End(Err(_)) ==> final(self)@.closed,
            r matches RenewalStep::Ask { stage: next, .. } ==> renewal_reached(final(self)@, next),
    {
        match (stage, event) {
            (_, RenewalEvent::Failed(code)) => self.fail_renewal(code),
            (RenewalStage::Verifying, RenewalEvent::Authority(seen)) => match self.is_authorized(
                &seen,
            ) {
                Ok(_) => RenewalStep::Ask {
                    stage: RenewalStage::Reading,
                    action: RenewalAction::ReadPointer,
                },
                Err(code) => self.fail_renewal(code),
            },
            (RenewalStage::Reading, RenewalEvent::Pointer(found)) => match required(found) {
                Ok(prior) => RenewalStep::Ask {
                    stage: RenewalStage::Leasing { prior },
                    action: RenewalAction::RenewLease(self.lease.copy()),
                },
                Err(code) => self.fail_renewal(code),
            },
            (RenewalStage::Leasing { prior }, RenewalEvent::Renewed { lease, now_ms }) => {
                self.lease = lease;
                RenewalStep::Ask {
                    stage: RenewalStage::Writing,
                    action: RenewalAction::Write(self.heartbeat(prior, now_ms)),
                }
            },
            (RenewalStage::Writing, RenewalEvent::Settled(updated)) => match batch_outcome(
                updated,
                "external_agent_renew_conflict",
            ) {
                Ok(_) => RenewalStep::Ask {
                    stage: RenewalStage::Confirming,
                    action: RenewalAction::CheckAuthority,
                },
                Err(code) => self.fail_renewal(code),
            },
            (RenewalStage::Confirming, RenewalEvent::Authority(seen)) => match self.is_authorized(
                &seen,
            ) {
                Ok(_) => RenewalStep::End(Ok(())),
                Err(code) => self.fail_renewal(code),
            },
            (RenewalStage::Failing { code }, RenewalEvent::Records { active, run }) => {
                let batch: Option<StorageBatch> = match self.detachment(&active, &run) {
                    Ok(writes) => Some(writes),
                    Err(_) => None,
                };
                RenewalStep::Ask {
                    stage: RenewalStage::Closing { code },
                    action: RenewalAction::Detach { batch, lease: self.lease.copy() },
                }
            },
            (RenewalStage::Closing { code }, _) => RenewalStep::End(Err(code)),
            _ => RenewalStep::End(Ok(())),
        }
    }

    /// Tells whether what was read of the run can be left to an operator, where it is to be.
    pub fn can_be_detached(&self, active: &ReadRecord, run: &ReadRecord) -> (r: bool)
        ensures
            r == can_detach(self@, *active, *run),
    {
        let pointer: &Json = match active {
            Ok(Some(value)) => value,
            _ => {
                return true;
            },
        };
        let fenced: bool = match pointer.i64_field("leaseFence") {
            Some(n) => n == self.lease.fencing_token,
            None => false,
        };
        if !pointer.field_is("runId", self.run_id.as_str()) || !fenced {
            return true;
        }
        match run {
            Ok(Some(record)) => can_take_run_state(record),
            _ => true,
        }
    }

    /// Detaches the client: revokes its authority and keeps what may have happened for
    /// an operator. It never calls the activity of a client that went away completed.
    pub fn close(&mut self, active: &ReadRecord, run: &ReadRecord) -> (r: CloseStep)
        requires
            old(self)@.closed || can_detach(old(self)@, *active, *run),
        ensures
            closes(old(self)@, final(self)@, *active, *run, r),
    {
        if self.closed {
            return CloseStep::AlreadyClosed;
        }
        let step = self.detachment(active, run);
        self.closed = true;
        match step {
            Ok(batch) => CloseStep::Detach(batch),
            Err(code) => CloseStep::Failed(code),
        }
    }

    /// Tells whether the session is closed.
    pub fn is_closed(&self) -> (r: bool)
        ensures
            r == self@.closed,
    {
        self.closed
    }

    /// The lease of the session, to renew or to release.
    pub fn lease(&self) -> (r: &LeaseClaim)
        ensures
            r@ == self@.lease,
    {
        &self.lease
    }

    /// The deployment of the session.
    pub fn deployment_id(&self) -> (r: &String)
        ensures
            r@ == self@.deployment_id,
    {
        &self.deployment_id
    }

    /// The run of the session.
    pub fn run_id(&self) -> (r: &String)
        ensures
            r@ == self@.run_id,
    {
        &self.run_id
    }

    /// The lookup key of the session's capability.
    pub fn capability_digest(&self) -> (r: String)
        ensures
            r@ == capability::capability_key(self@.token),
    {
        self.capability.digest()
    }
}

/// What the recovery of an abandoned session asks for.
#[derive(Debug)]
pub enum AbandonedRun {
    /// There is nothing in flight.
    Idle,
    /// The run is left to an operator.
    Quarantine(StorageBatch),
}

/// The run that an abandoned session left in flight: nothing where the pointer is in
/// another state, and an error where it names no run.
pub open spec fn abandoned_run(active: Option<JsonTree>) -> Result<Option<Seq<char>>, Seq<char>> {
    match active {
        Some(tree) => if json::text_member(tree, "state"@) != Some("running"@) {
            Ok(None)
        } else {
            match json::text_member(tree, "runId"@) {
                Some(id) => Ok(Some(id)),
                None => Err("external_agent_binding_invalid"@),
            }
        },
        None => Ok(None),
    }
}

/// Looks for the run that an abandoned session left in flight.
pub fn find_abandoned_run(active: &Option<Json>) -> (r: Result<Option<String>, String>)
    ensures
        match (r, abandoned_run(ports::option_tree(*active))) {
            (Ok(id), Ok(found)) => text::option_text(id) == found,
            (Err(e), Err(code)) => e@ == code,
            _ => false,
        },
{
    match active {
        Some(value) => {
            if !value.field_is("state", "running") {
                return Ok(None);
            }
            match value.text_field("runId") {
                Some(id) => Ok(Some(id)),
                None => Err("external_agent_binding_invalid".to_owned()),
            }
        },
        None => Ok(None),
    }
}

/// Whether a run is one of an outside client on the deployment.
pub open spec fn is_external_run(run: JsonTree, deployment_id: Seq<char>) -> bool {
    &&& json::text_member(run, "executor"@) == Some("external_client"@)
    &&& records::inner_text(run, "run"@, "deploymentId"@) == Some(deployment_id)
}

/// Leaves to an operator the run of a session whose process went away without closing
/// it. Only a caller that holds the lease of the deployment does this.
pub fn quarantine_abandoned(
    deployment_id: &str,
    active: &Option<Json>,
    run: &Option<Json>,
    context: &WriteContext,
) -> (r: Result<AbandonedRun, String>)
    ensures
        match abandoned_run(ports::option_tree(*active)) {
            Err(code) => r matches Err(e) && e@ == code,
            Ok(None) => r matches Ok(AbandonedRun::Idle),
            Ok(Some(id)) => match *run {
                None => r matches Err(e) && e@ == "external_agent_binding_missing"@,
                Some(record) => if is_external_run(record@, deployment_id@) {
                    r matches Ok(AbandonedRun::Quarantine(batch)) && batch@ == quarantine_batch(
                        deployment_id@,
                        id,
                        active->Some_0@,
                        record@,
                        context@,
                    )
                } else {
                    r matches Err(e) && e@ == "external_agent_binding_invalid"@
                },
            },
        },
{
    let run_id: String = match find_abandoned_run(active) {
        Ok(Some(id)) => id,
        Ok(None) => {
            return Ok(AbandonedRun::Idle);
        },
        Err(e) => {
            return Err(e);
        },
    };
    match (active, run) {
        (Some(pointer), Some(record)) => {
            if !record.field_is("executor", "external_client") || !inner_is(
                record,
                "run",
                "deploymentId",
                deployment_id,
            ) {
                return Err("external_agent_binding_invalid".to_owned());
            }
            Ok(
                AbandonedRun::Quarantine(
                    quarantine_writes(deployment_id, run_id.as_str(), pointer, record, context),
                ),
            )
        },
        _ => Err("external_agent_binding_missing".to_owned()),
    }
}

/// A closed session has no authority, whatever the records and the lease say.
pub proof fn closed_session_has_no_authority(
    session: ExternalAgentSession,
    snapshot: ExecutionSnapshot,
    desired_state: Option<Seq<char>>,
    lease: Option<LeaseClaim>,
    checked_at_ms: int,
    known: Seq<String>,
    r: Result<VerifiedAgentMcpExecutionContext, String>,
)
    requires
        session@.closed,
        session.authority(snapshot, desired_state, lease, checked_at_ms, known, r),
    ensures
        r matches Err(e) && e@ == "external_agent_session_closed"@,
{
}

/// A renewal that fails closes the session at that step, and the session stays closed until
/// the renewal ends. The lease that is released is the session's own.
pub proof fn failed_renewal_closes(
    before: ExternalAgentSession,
    after: SessionView,
    stage: RenewalStage,
    event: RenewalEvent,
    r: RenewalStep,
)
    requires
        renewal_fits(before@, stage, event),
        renewal_leads_to(before, after, stage, event, r),
    ensures
        r matches RenewalStep::End(Err(_)) ==> after.closed,
        r matches RenewalStep::Ask { stage: next, .. } ==> renewal_reached(after, next),
        event is Failed ==> after.closed,
        before@.closed ==> after.closed && !(r matches RenewalStep::End(Ok(_))),
        r matches RenewalStep::Ask { action: RenewalAction::Detach { lease, .. }, .. }
            ==> after.closed && lease@ == before@.lease,
{
}

/// A renewal whose lease another has taken over fails: where the records are still the
/// session's and the lease in force has another fencing token, the session is closed at
/// that step, and what is then released is the session's own lease and not the other's.
pub proof fn replaced_lease_fails_the_renewal(
    before: ExternalAgentSession,
    after: SessionView,
    stage: RenewalStage,
    seen: AuthorityRecords,
    other: LeaseClaim,
    r: RenewalStep,
    active: ReadRecord,
    run: ReadRecord,
    closing: RenewalStep,
    closed: ExternalAgentSession,
)
    requires
        stage is Verifying || stage is Confirming,
        renewal_fits(before@, stage, RenewalEvent::Authority(seen)),
        renewal_leads_to(before, after, stage, RenewalEvent::Authority(seen), r),
        seen.lease == Some(other),
        other@.fencing_token != before@.lease.fencing_token,
        seen.snapshot.active matches Some(pointer) && points_to_session(before@, pointer@),
        closed@ == after,
        renewal_leads_to(
            closed,
            after,
            r->stage,
            RenewalEvent::Records { active, run },
            closing,
        ),
    ensures
        after == (SessionView { closed: true, ..before@ }),
        r matches RenewalStep::Ask { stage: RenewalStage::Failing { .. }, .. },
        closing matches RenewalStep::Ask { action: RenewalAction::Detach { lease, .. }, .. }
            && lease@ == before@.lease && lease@ != other@,
{
}

/// Closing a closed session once more changes nothing and writes nothing.
pub proof fn closed_session_stays_closed(
    before: SessionView,
    after: SessionView,
    active: ReadRecord,
    run: ReadRecord,
    r: CloseStep,
)
    requires
        before.closed,
        closes(before, after, active, run, r),
    ensures
        after == before,
        r is AlreadyClosed,
{
}

/// The steps that a renewal has still to take.
pub open spec fn renewal_rest(stage: RenewalStage) -> nat {
    match stage {
        RenewalStage::Verifying => 6,
        RenewalStage::Reading => 5,
        RenewalStage::Leasing { .. } => 4,
        RenewalStage::Writing => 3,
        RenewalStage::Confirming => 2,
        RenewalStage::Failing { .. } => 1,
        RenewalStage::Closing { .. } => 0,
    }
}

/// A renewal comes to an end: every step leaves fewer steps to take.
pub proof fn renewal_ends(
    before: ExternalAgentSession,
    after: SessionView,
    stage: RenewalStage,
    event: RenewalEvent,
    r: RenewalStep,
)
    requires
        renewal_fits(before@, stage, event),
        renewal_leads_to(before, after, stage, event, r),
    ensures
        r matches RenewalStep::Ask { stage: next, .. } ==> renewal_rest(next) < renewal_rest(stage),
{
}

/// A run that a session leaves behind bars the next attachment until an operator has
/// resolved it.
pub proof fn detached_run_bars_attachment(
    d: AgentDeployment,
    config: JsonTree,
    activation: JsonTree,
    activation_id: Seq<char>,
    account_mode: Seq<char>,
    active: JsonTree,
)
    ensures
        attachment_fault(
            d,
            config,
            activation,
            activation_id,
            account_mode,
            Some(quarantined_pointer(active)),
        ) is Some,
{
    let pointer = quarantined_pointer(active);
    reveal_strlit("pending_reconcile");
    reveal_strlit("completed");
    reveal_strlit("reconciled");
    assert("pending_reconcile"@.len() == 17);
    assert("completed"@.len() == 9);
    assert("reconciled"@.len() == 10);
    assert(json::text_member(pointer, "state"@) == Some("pending_reconcile"@));
}

/// While a session is attached, no other can be: the pointer that it writes bars the
/// next attachment.
pub proof fn attached_session_is_exclusive(
    d: AgentDeployment,
    config: JsonTree,
    activation: JsonTree,
    activation_id: Seq<char>,
    account_mode: Seq<char>,
    run_id: Seq<char>,
    lease: LeaseView,
    now_ms: int,
)
    ensures
        attachment_fault(
            d,
            config,
            activation,
            activation_id,
            account_mode,
            Some(records::active_tree(run_id, "running"@, lease, now_ms)),
        ) is Some,
{
    let pointer = records::active_tree(run_id, "running"@, lease, now_ms);
    reveal_strlit("running");
    reveal_strlit("completed");
    reveal_strlit("reconciled");
    assert("running"@.len() == 7);
    assert("completed"@.len() == 9);
    assert("reconciled"@.len() == 10);
    reveal_strlit("state");
    reveal_strlit("leaseExpiresAtMs");
    reveal_strlit("leaseFence");
    reveal_strlit("heartbeatAtMs");
    assert("state"@.len() == 5);
    assert("leaseExpiresAtMs"@.len() == 16);
    assert("leaseFence"@.len() == 10);
    assert("heartbeatAtMs"@.len() == 13);
    assert(json::text_member(pointer, "state"@) == Some("running"@));
}

} // verus!
