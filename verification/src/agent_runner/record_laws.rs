//! What the records of the runner say: each names the deployment, the run and the lease that
//! it was written for, and what is read of one is what was written.

use vstd::prelude::*;

use crate::agent_runner::capability;
use crate::agent_runner::capability::AgentMcpCapabilityRecord;
use crate::agent_runner::deployment;
use crate::agent_runner::deployment::{AgentDeployment, AgentExecutor};
use crate::agent_runner::external_session;
use crate::agent_runner::records;
use crate::agent_runner::records::RunView;
use crate::agent_runner::recovery;
use crate::agent_runner::recovery::ReceiptView;
use crate::agent_runner::schedule;
use crate::agent_runner::store;
use crate::json;
use crate::json::JsonTree;
use crate::ports::{AuthorityContext, ContextView, LeaseView};
use crate::text;

verus! {

/// The record of a run says, member by member, what the run is.
pub proof fn run_record_says_what_the_run_is(
    run: RunView,
)
    ensures
        ({
            let tree = records::run_tree(run);
            &&& json::member(tree, "runId"@) == Some(JsonTree::Text(run.run_id))
            &&& json::member(tree, "deploymentId"@) == Some(JsonTree::Text(run.deployment_id))
            &&& json::member(tree, "triggerId"@) == Some(JsonTree::Text(run.trigger_id))
            &&& json::member(tree, "state"@) == Some(JsonTree::Text(run.state))
            &&& json::member(tree, "leaseFence"@) == Some(JsonTree::Int(run.lease_fence))
            &&& json::member(tree, "deploymentBindingDigest"@) == Some(JsonTree::Text(run.deployment_binding_digest))
            &&& run.codex_session_ref matches Some(session) ==> json::member(tree, "codexSessionRef"@) == Some(
                JsonTree::Text(session),
            )
            &&& run.codex_session_ref is None ==> json::member(tree, "codexSessionRef"@) == Some(
                JsonTree::Null,
            )
        }),
{
    reveal_strlit("runId");
    reveal_strlit("deploymentId");
    reveal_strlit("triggerId");
    reveal_strlit("state");
    reveal_strlit("leaseFence");
    reveal_strlit("deploymentBindingDigest");
    reveal_strlit("codexSessionRef");
    assert("runId"@.len() == 5);
    assert("deploymentId"@.len() == 12);
    assert("triggerId"@.len() == 9);
    assert("state"@.len() == 5);
    assert("leaseFence"@.len() == 10);
    assert("deploymentBindingDigest"@.len() == 23);
    assert("codexSessionRef"@.len() == 15);
    assert("runId"@[0] == 'r');
    assert("state"@[0] == 's');
}

/// The pointer to a run names the run, its state, and the end and the fence of its lease.
pub proof fn pointer_names_the_run_and_its_lease(
    run_id: Seq<char>,
    state: Seq<char>,
    lease: LeaseView,
    heartbeat_at_ms: int,
)
    ensures
        ({
            let tree = records::active_tree(run_id, state, lease, heartbeat_at_ms);
            &&& json::member(tree, "runId"@) == Some(JsonTree::Text(run_id))
            &&& json::member(tree, "state"@) == Some(JsonTree::Text(state))
            &&& json::member(tree, "leaseExpiresAtMs"@) == Some(JsonTree::Int(lease.expires_at_ms))
            &&& json::member(tree, "leaseFence"@) == Some(JsonTree::Int(lease.fencing_token))
            &&& json::member(tree, "heartbeatAtMs"@) == Some(JsonTree::Int(heartbeat_at_ms))
        }),
{
    reveal_strlit("runId");
    reveal_strlit("state");
    reveal_strlit("leaseExpiresAtMs");
    reveal_strlit("leaseFence");
    reveal_strlit("heartbeatAtMs");
    assert("runId"@.len() == 5);
    assert("state"@.len() == 5);
    assert("leaseExpiresAtMs"@.len() == 16);
    assert("leaseFence"@.len() == 10);
    assert("heartbeatAtMs"@.len() == 13);
    assert("runId"@[0] == 'r');
    assert("state"@[0] == 's');
}

/// The receipt of a pass names the deployment, what came of the pass, and the run.
pub proof fn receipt_names_the_outcome(
    deployment_id: Seq<char>,
    outcome: Seq<char>,
    run_id: Seq<char>,
)
    ensures
        ({
            let tree = records::receipt_tree(deployment_id, outcome, Some(run_id));
            &&& json::member(tree, "deploymentId"@) == Some(JsonTree::Text(deployment_id))
            &&& json::member(tree, "outcome"@) == Some(JsonTree::Text(outcome))
            &&& json::member(tree, "runId"@) == Some(JsonTree::Text(run_id))
            &&& json::member(tree, "redacted"@) == Some(JsonTree::Bool(true))
        }),
{
    reveal_strlit("schemaVersion");
    reveal_strlit("deploymentId");
    reveal_strlit("outcome");
    reveal_strlit("runId");
    reveal_strlit("redacted");
    assert("schemaVersion"@.len() == 13);
    assert("deploymentId"@.len() == 12);
    assert("outcome"@.len() == 7);
    assert("runId"@.len() == 5);
    assert("redacted"@.len() == 8);
}

/// A run is put in another state with nothing else of its record changed.
pub proof fn run_state_is_all_that_changes(
    map: Map<Seq<char>, JsonTree>,
    run: Map<Seq<char>, JsonTree>,
    state: Seq<char>,
    key: Seq<char>,
)
    requires
        json::member(JsonTree::Object(map), "run"@) == Some(JsonTree::Object(run)),
    ensures
        ({
            let tree = records::in_run_state(JsonTree::Object(map), state);

            &&& records::inner_text(tree, "run"@, "state"@) == Some(state)
            &&& key != "run"@ ==> json::member(tree, key) == json::member(JsonTree::Object(map), key)
            &&& key != "state"@ ==> (json::member(tree, "run"@) matches Some(inner) && json::member(inner, key)
                == json::member(JsonTree::Object(run), key))
        }),
{
    reveal_strlit("run");
    reveal_strlit("state");
    assert("run"@.len() == 3);
    assert("state"@.len() == 5);
}

/// Evidence names who acted, and its payload holds no credential and everything else.
pub proof fn evidence_names_who_acted(
    deployment_id: Seq<char>,
    event_type: Seq<char>,
    payload: Map<Seq<char>, JsonTree>,
    authority: AuthorityContext,
    key: Seq<char>,
)
    ensures
        ({
            let tree = records::evidence_tree(deployment_id, event_type, JsonTree::Object(payload), authority);
            &&& json::member(tree, "deploymentId"@) == Some(JsonTree::Text(deployment_id))
            &&& json::member(tree, "eventType"@) == Some(JsonTree::Text(event_type))
            &&& json::member(tree, "authority"@) matches Some(who) && json::member(who, "actor"@) == Some(
                JsonTree::Text(authority.actor@),
            ) && json::member(who, "surface"@) == Some(JsonTree::Text(authority.surface@))
                && json::member(who, "accountMode"@) == Some(
                JsonTree::Text(authority.account_mode@),
            )
            &&& json::member(tree, "payload"@) matches Some(kept) && (if key == "apiKey"@ || key
                == "apiSecret"@ || key == "token"@ || key == "secret"@ || key == "authorization"@ {
                json::member(kept, key) is None
            } else {
                json::member(kept, key) == json::member(JsonTree::Object(payload), key)
            })
        }),
{
    reveal_strlit("schemaVersion");
    reveal_strlit("deploymentId");
    reveal_strlit("eventType");
    reveal_strlit("authority");
    reveal_strlit("payload");
    reveal_strlit("actor");
    reveal_strlit("surface");
    reveal_strlit("accountMode");
    assert("schemaVersion"@.len() == 13);
    assert("deploymentId"@.len() == 12);
    assert("eventType"@.len() == 9);
    assert("authority"@.len() == 9);
    assert("payload"@.len() == 7);
    assert("actor"@.len() == 5);
    assert("surface"@.len() == 7);
    assert("accountMode"@.len() == 11);
    assert("eventType"@[0] == 'e');
    assert("authority"@[0] == 'a');
    assert("payload"@[0] == 'p');
    assert("surface"@[0] == 's');
}

/// The record of a deployment says, member by member, what the deployment is.
pub proof fn deployment_record_says_what_it_is(
    d: AgentDeployment,
)
    ensures
        ({
            let tree = store::deployment_tree(d);
            &&& json::member(tree, "deploymentId"@) == Some(JsonTree::Text(d.deployment_id@))
            &&& json::member(tree, "systemProjectId"@) == Some(JsonTree::Text(d.system_project_id@))
            &&& json::member(tree, "agentDefinitionVersionId"@) == Some(JsonTree::Text(d.agent_definition_version_id@))
            &&& json::member(tree, "executionConfigVersionId"@) == Some(JsonTree::Text(d.execution_config_version_id@))
            &&& json::member(tree, "studioToolAllowlist"@) == Some(json::text_array(text::texts(d.studio_tool_allowlist@)))
            &&& json::member(tree, "desiredState"@) == Some(JsonTree::Text(d.desired_state@))
            &&& json::member(tree, "intervalSeconds"@) == Some(JsonTree::Int(d.interval_seconds as int))
            &&& json::member(tree, "mode"@) == Some(JsonTree::Text(d.mode@))
            &&& json::member(tree, "prompt"@) == Some(JsonTree::Text(d.prompt@))
            &&& json::member(tree, "workspace"@) == Some(JsonTree::Text(d.workspace@))
            &&& json::member(tree, "runtimeProfile"@) == Some(JsonTree::Text(d.runtime_profile@))
            &&& d.executor == AgentExecutor::Supervised ==> json::member(tree, "executor"@) == Some(
                JsonTree::Text("supervised"@),
            )
            &&& d.executor == AgentExecutor::ExternalClient ==> json::member(tree, "executor"@) == Some(
                JsonTree::Text("external_client"@),
            )
            &&& d.cron_utc matches Some(expression) ==> json::member(tree, "cronUtc"@) == Some(
                JsonTree::Text(expression@),
            )
        }),
{
    reveal_strlit("executor");
    reveal_strlit("deploymentId");
    reveal_strlit("systemProjectId");
    reveal_strlit("agentDefinitionVersionId");
    reveal_strlit("executionConfigVersionId");
    reveal_strlit("studioToolAllowlist");
    reveal_strlit("desiredState");
    reveal_strlit("intervalSeconds");
    reveal_strlit("cronUtc");
    reveal_strlit("mode");
    reveal_strlit("prompt");
    reveal_strlit("workspace");
    reveal_strlit("runtimeProfile");
    assert("executor"@.len() == 8);
    assert("deploymentId"@.len() == 12);
    assert("systemProjectId"@.len() == 15);
    assert("agentDefinitionVersionId"@.len() == 24);
    assert("executionConfigVersionId"@.len() == 24);
    assert("studioToolAllowlist"@.len() == 19);
    assert("desiredState"@.len() == 12);
    assert("intervalSeconds"@.len() == 15);
    assert("cronUtc"@.len() == 7);
    assert("mode"@.len() == 4);
    assert("prompt"@.len() == 6);
    assert("workspace"@.len() == 9);
    assert("runtimeProfile"@.len() == 14);
    assert("deploymentId"@[2] == 'p');
    assert("desiredState"@[2] == 's');
    assert("systemProjectId"@[0] == 's');
    assert("intervalSeconds"@[0] == 'i');
    assert("agentDefinitionVersionId"@[0] == 'a');
    assert("executionConfigVersionId"@[0] == 'e');
}

/// A deployment can be stored if and only if it is named, is of versions that are named, lists
/// tools that are known, is in a mode and a state that there are, and gives no secret away;
/// one that is supervised also has a schedule, a prompt and a workspace that is there.
pub proof fn deployment_is_stored_when_it_is_in_order(
    d: AgentDeployment,
    known: Seq<String>,
    workspace_exists: bool,
)
    ensures
        store::is_valid(d, known, workspace_exists) <==> {
            &&& !text::is_blank(d.deployment_id@)
            &&& !text::is_blank(d.system_project_id@)
            &&& !text::is_blank(d.agent_definition_version_id@)
            &&& !text::is_blank(d.execution_config_version_id@)
            &&& d.studio_tool_allowlist@.len() > 0
            &&& forall|i: int|
                0 <= i < d.studio_tool_allowlist@.len() ==> deployment::tool_shaped(
                    (#[trigger] d.studio_tool_allowlist@[i])@,
                ) && text::texts(known).contains(d.studio_tool_allowlist@[i]@)
            &&& d.mode@ == "paper"@ || d.mode@ == "live"@
            &&& d.desired_state@ == "active"@ || d.desired_state@ == "paused"@ || d.desired_state@
                == "stopped"@
            &&& !text::occurs_any(text::lowered(d.prompt@), deployment::secret_needles())
            &&& d.executor == AgentExecutor::Supervised ==> {
                &&& workspace_exists
                &&& !text::is_blank(d.workspace@)
                &&& !text::is_blank(d.prompt@)
                &&& schedule::schedule_is_valid(d)
                &&& d.cron_utc is None ==> d.interval_seconds >= 60
            }
        },
{
}

/// A deployment that may be put is written under its own name, and where it is supervised
/// and has no schedule yet, a schedule that is due from the beginning is written with it.
pub proof fn put_writes_the_deployment(
    d: AgentDeployment,
    has_schedule: bool,
    context: ContextView,
)
    ensures
        ({
            let writes = store::put_writes(d, has_schedule, context);
            &&& writes[0].namespace == "agent_deployments"@
            &&& writes[0].key == d.deployment_id@
            &&& json::member(writes[0].value, "deployment"@) == Some(store::deployment_tree(d))
            &&& json::member(writes[0].value, "bindingDigest"@) == Some(
                JsonTree::Text(deployment::binding_digest(d)),
            )
            &&& writes.len() == (if d.executor == AgentExecutor::Supervised && !has_schedule {
                2nat
            } else {
                1nat
            })
            &&& d.executor == AgentExecutor::Supervised && !has_schedule ==> {
                &&& writes[1].namespace == "agent_deployment_schedules"@
                &&& writes[1].key == d.deployment_id@
                &&& json::member(writes[1].value, "nextDueAtMs"@) == Some(JsonTree::Int(0))
                &&& json::member(writes[1].value, "lastDueAtMs"@) == Some(JsonTree::Null)
                &&& json::member(writes[1].value, "missedTickCount"@) == Some(JsonTree::Int(0))
            }
            &&& forall|i: int|
                0 <= i < writes.len() ==> (#[trigger] writes[i]).context == context
        }),
{
    reveal_strlit("schemaVersion");
    reveal_strlit("kind");
    reveal_strlit("orchestrator");
    reveal_strlit("host");
    reveal_strlit("deployment");
    reveal_strlit("bindingDigest");
    reveal_strlit("credentialPosture");
    reveal_strlit("scheduleKind");
    reveal_strlit("scheduleDigest");
    reveal_strlit("nextDueAtMs");
    reveal_strlit("lastDueAtMs");
    reveal_strlit("missedTickCount");
    reveal_strlit("missedTickCountCapped");
    reveal_strlit("updatedAtMs");
    assert("schemaVersion"@.len() == 13);
    assert("kind"@.len() == 4);
    assert("orchestrator"@.len() == 12);
    assert("host"@.len() == 4);
    assert("deployment"@.len() == 10);
    assert("bindingDigest"@.len() == 13);
    assert("credentialPosture"@.len() == 17);
    assert("scheduleKind"@.len() == 12);
    assert("scheduleDigest"@.len() == 14);
    assert("nextDueAtMs"@.len() == 11);
    assert("lastDueAtMs"@.len() == 11);
    assert("missedTickCount"@.len() == 15);
    assert("missedTickCountCapped"@.len() == 21);
    assert("updatedAtMs"@.len() == 11);
    assert("schemaVersion"@[0] == 's');
    assert("bindingDigest"@[0] == 'b');
    assert("kind"@[0] == 'k');
    assert("host"@[0] == 'h');
    assert("orchestrator"@[0] == 'o');
    assert("scheduleKind"@[0] == 's');
    assert("nextDueAtMs"@[0] == 'n');
    assert("lastDueAtMs"@[0] == 'l');
    assert("updatedAtMs"@[0] == 'u');
}

/// A deployment whose binding differs takes the place of a stored one only while that is
/// neither wanted active nor has a run in flight or waiting for an operator.
pub proof fn binding_changes_only_at_rest(
    d: AgentDeployment,
    kept: AgentDeployment,
    binding: String,
    pointer: Option<JsonTree>,
)
    ensures
        ({
            let stored = store::ExistingDeployment {
                deployment: crate::ports::Stored::Present(kept),
                binding_digest: Some(binding),
            };
            store::replacement_fault(d, Some(stored), pointer) is None <==> {
                ||| binding@ == deployment::binding_digest(d)
                ||| kept.desired_state@ != "active"@ && (pointer matches Some(tree)
                    ==> json::text_member(tree, "state"@) != Some("running"@) && json::text_member(
                    tree,
                    "state"@,
                ) != Some("pending_reconcile"@))
            }
        }),
        store::replacement_fault(d, None, pointer) is None,
{
}

/// A session is attached if and only if the deployment is for an outside client and wanted
/// active, its configuration and the activation are for an outside agent, the activation is
/// active and is the one asked for and of that configuration, all are in one mode, they
/// agree in what they share, and no earlier run is open.
pub proof fn session_attaches_to_what_agrees(
    d: AgentDeployment,
    config: JsonTree,
    activation: JsonTree,
    activation_id: Seq<char>,
    account_mode: Seq<char>,
    prior: Option<JsonTree>,
)
    ensures
        external_session::attachment_fault(
            d,
            config,
            activation,
            activation_id,
            account_mode,
            prior,
        ) is None <==> {
            &&& d.executor == AgentExecutor::ExternalClient
            &&& d.desired_state@ == "active"@
            &&& json::text_member(config, "orchestrator"@) == Some("external_agent"@)
            &&& json::text_member(activation, "orchestrator"@) == Some("external_agent"@)
            &&& json::text_member(activation, "state"@) == Some("active"@)
            &&& json::text_member(activation, "activationId"@) == Some(activation_id)
            &&& json::text_member(activation, "configId"@) == Some(d.execution_config_version_id@)
            &&& json::text_member(activation, "mode"@) == Some(d.mode@)
            &&& json::text_member(config, "mode"@) == Some(d.mode@)
            &&& account_mode == d.mode@
            &&& external_session::field_agrees(activation, config, "strategyVersionId"@)
            &&& external_session::field_agrees(activation, config, "strategySpecHash"@)
            &&& external_session::field_agrees(activation, config, "capabilityGraphRevisionId"@)
            &&& external_session::field_agrees(activation, config, "accountRef"@)
            &&& external_session::field_agrees(activation, config, "riskLimits"@)
            &&& prior matches Some(tree) ==> json::text_member(tree, "state"@) == Some(
                "completed"@,
            ) || json::text_member(tree, "state"@) == Some("reconciled"@)
        },
{
    let shared = external_session::shared_fields();
    assert(shared.len() == 5);
    assert(shared[0] == "strategyVersionId"@);
    assert(shared[1] == "strategySpecHash"@);
    assert(shared[2] == "capabilityGraphRevisionId"@);
    assert(shared[3] == "accountRef"@);
    assert(shared[4] == "riskLimits"@);
}

/// The records that an attachment writes give its session authority as long as its lease
/// lasts: the run is in flight under the capability, and the pointer is to that run.
pub proof fn attached_session_has_authority(
    record: AgentMcpCapabilityRecord,
    activation_id: Seq<char>,
    key: Seq<char>,
    lease: LeaseView,
    written_at_ms: int,
    now_ms: int,
)
    requires
        i64::MIN <= lease.expires_at_ms <= i64::MAX,
    ensures
        capability::run_agrees(
            external_session::session_run_tree(
                record.deployment_id@,
                activation_id,
                record.run_id@,
                record.binding_digest@,
                key,
                lease.fencing_token,
            ),
            record,
            key,
        ),
        capability::active_agrees(
            records::active_tree(record.run_id@, "running"@, lease, written_at_ms),
            record,
            now_ms,
        ) <==> now_ms < lease.expires_at_ms,
{
    reveal_strlit("schemaVersion");
    reveal_strlit("kind");
    reveal_strlit("executor");
    reveal_strlit("activationId");
    reveal_strlit("bindingDigest");
    reveal_strlit("mcpCapabilityDigest");
    reveal_strlit("run");
    assert("schemaVersion"@.len() == 13);
    assert("kind"@.len() == 4);
    assert("executor"@.len() == 8);
    assert("activationId"@.len() == 12);
    assert("bindingDigest"@.len() == 13);
    assert("mcpCapabilityDigest"@.len() == 19);
    assert("run"@.len() == 3);
    assert("schemaVersion"@[0] == 's');
    assert("bindingDigest"@[0] == 'b');
    reveal_strlit("runId");
    reveal_strlit("deploymentId");
    reveal_strlit("triggerId");
    reveal_strlit("state");
    reveal_strlit("leaseFence");
    reveal_strlit("deploymentBindingDigest");
    reveal_strlit("leaseExpiresAtMs");
    reveal_strlit("heartbeatAtMs");
    assert("runId"@.len() == 5);
    assert("deploymentId"@.len() == 12);
    assert("triggerId"@.len() == 9);
    assert("state"@.len() == 5);
    assert("leaseFence"@.len() == 10);
    assert("deploymentBindingDigest"@.len() == 23);
    assert("leaseExpiresAtMs"@.len() == 16);
    assert("heartbeatAtMs"@.len() == 13);
    assert("runId"@[0] == 'r');
    assert("state"@[0] == 's');
}

/// The pointer to a run that is left to an operator says so, and is otherwise the one that
/// was found.
pub proof fn run_left_to_an_operator_is_pointed_to(
    active: Map<Seq<char>, JsonTree>,
    key: Seq<char>,
)
    ensures
        json::member(
            external_session::quarantined_pointer(JsonTree::Object(active)),
            "state"@,
        ) == Some(JsonTree::Text("pending_reconcile"@)),
        key != "state"@ ==> json::member(
            external_session::quarantined_pointer(JsonTree::Object(active)),
            key,
        ) == json::member(JsonTree::Object(active), key),
{
}

/// A run waits for an operator where its pointer says so and names it.
pub proof fn waiting_run_is_the_one_pointed_to(active: JsonTree, run_id: Seq<char>)
    ensures
        recovery::waiting_run(Some(active)) == Some(run_id) <==> json::text_member(active, "state"@)
            == Some("pending_reconcile"@) && json::text_member(active, "runId"@) == Some(run_id)
            && !text::is_blank(run_id),
        recovery::waiting_run(None) is None,
{
}

/// Only a run that waits for an operator is resolved, once: it is in the resolved state
/// from then on, and a run in any other state cannot be resolved.
pub proof fn waiting_run_is_resolved_once(record: JsonTree)
    ensures
        records::inner_text(record, "run"@, "state"@) == Some("pending_reconcile"@)
            ==> (recovery::resolved_record(Some(record)) matches Some(after) && records::inner_text(
            after,
            "run"@,
            "state"@,
        ) == Some("reconciled"@)),
        records::inner_text(record, "run"@, "state"@) == Some("reconciled"@)
            ==> recovery::resolved_record(Some(record)) == Some(record),
        records::inner_text(record, "run"@, "state"@) != Some("pending_reconcile"@)
            && records::inner_text(record, "run"@, "state"@) != Some("reconciled"@)
            ==> recovery::resolved_record(Some(record)) is None,
        recovery::resolved_record(None) is None,
{
    reveal_strlit("pending_reconcile");
    reveal_strlit("reconciled");
    assert("pending_reconcile"@.len() == 17);
    assert("reconciled"@.len() == 10);
}

/// The pointer of a resolved run names the run and the time, and is no longer that of a run in
/// flight.
pub proof fn resolved_pointer_names_the_run(
    run_id: Seq<char>,
    at_ms: int,
)
    ensures
        ({
            let tree = recovery::resolved_pointer(run_id, at_ms);
            &&& json::member(tree, "state"@) == Some(JsonTree::Text("reconciled"@))
            &&& json::member(tree, "resolvedRunId"@) == Some(JsonTree::Text(run_id))
            &&& json::member(tree, "resolvedAtMs"@) == Some(JsonTree::Int(at_ms))
            &&& json::member(tree, "runId"@) is None
            &&& recovery::pointer_agrees(Some(tree), run_id)
            &&& recovery::waiting_run(Some(tree)) is None
        }),
{
    reveal_strlit("state");
    reveal_strlit("resolvedRunId");
    reveal_strlit("resolvedAtMs");
    reveal_strlit("runId");
    assert("state"@.len() == 5);
    assert("resolvedRunId"@.len() == 13);
    assert("resolvedAtMs"@.len() == 12);
    assert("runId"@.len() == 5);
    assert("state"@[0] == 's');
    assert("runId"@[0] == 'r');
}

/// The record of a receipt says, member by member, what the receipt is.
pub proof fn recovery_record_says_what_the_receipt_is(
    r: ReceiptView,
)
    ensures
        ({
            let tree = recovery::recovery_tree(r);
            &&& json::member(tree, "schemaVersion"@) == Some(JsonTree::Text(r.schema_version))
            &&& json::member(tree, "deploymentId"@) == Some(JsonTree::Text(r.deployment_id))
            &&& json::member(tree, "runId"@) == Some(JsonTree::Text(r.run_id))
            &&& json::member(tree, "requestDigest"@) == Some(JsonTree::Text(r.request_digest))
            &&& json::member(tree, "requestedAtMs"@) == Some(JsonTree::Int(r.requested_at_ms))
            &&& json::member(tree, "state"@) == Some(JsonTree::Text(r.state))
            &&& json::member(tree, "receipt"@) == Some(r.receipt)
        }),
{
    reveal_strlit("schemaVersion");
    reveal_strlit("deploymentId");
    reveal_strlit("runId");
    reveal_strlit("requestDigest");
    reveal_strlit("requestedAtMs");
    reveal_strlit("state");
    reveal_strlit("receipt");
    assert("schemaVersion"@.len() == 13);
    assert("deploymentId"@.len() == 12);
    assert("runId"@.len() == 5);
    assert("requestDigest"@.len() == 13);
    assert("requestedAtMs"@.len() == 13);
    assert("state"@.len() == 5);
    assert("receipt"@.len() == 7);
    assert("schemaVersion"@[0] == 's');
    assert("requestDigest"@[0] == 'r');
    assert("requestedAtMs"@[0] == 'r');
    assert("runId"@[0] == 'r');
    assert("state"@[0] == 's');
    assert("requestDigest"@[7] == 'D');
    assert("requestedAtMs"@[7] == 'e');
}

} // verus!
