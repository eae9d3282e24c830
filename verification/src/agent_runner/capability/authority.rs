//! When an agent has authority: every record that has to agree, and what the authority is
//! over.

use vstd::prelude::*;

use crate::agent_runner::capability;
use crate::agent_runner::capability::{
    AgentMcpCapabilityRecord, ContextView, ExecutionSnapshot, VerifiedAgentMcpExecutionContext,
};
use crate::agent_runner::deployment;
use crate::agent_runner::deployment::AgentDeployment;
use crate::agent_runner::records;
use crate::json;
use crate::json::{Json, JsonTree};
use crate::ports::{LeaseClaim, Stored};
use crate::text;

verus! {

/// Whether the records of a run in flight all say the same of it.
pub open spec fn records_agree(
    record: AgentMcpCapabilityRecord,
    run: JsonTree,
    active: JsonTree,
    d: AgentDeployment,
    key: Seq<char>,
    now_ms: int,
) -> bool {
    &&& record.capability_digest@ == key
    &&& json::text_member(run, "mcpCapabilityDigest"@) == Some(key)
    &&& records::inner_text(run, "run"@, "runId"@) == Some(record.run_id@)
    &&& json::text_member(active, "runId"@) == Some(record.run_id@)
    &&& records::inner_text(run, "run"@, "deploymentId"@) == Some(record.deployment_id@)
    &&& records::inner_text(run, "run"@, "state"@) == Some("running"@)
    &&& json::text_member(active, "state"@) == Some("running"@)
    &&& json::text_member(run, "bindingDigest"@) == Some(record.binding_digest@)
    &&& deployment::binding_digest(d) == record.binding_digest@
    &&& d.mode@ == record.mode@
    &&& json::i64_member(active, "leaseExpiresAtMs"@) matches Some(expires) && now_ms < expires
}

/// A capability has authority only where the records of the run in flight agree and its
/// own is in order, and then over the run, the deployment and the mode that they name and
/// over the tools that the record and the deployment both list.
pub proof fn authority_needs_records_that_agree(
    snapshot: ExecutionSnapshot,
    key: Seq<char>,
    known: Seq<String>,
    view: ContextView,
)
    requires
        capability::context_of(snapshot, key, known) == Ok::<ContextView, Seq<char>>(view),
    ensures
        snapshot.now_ms >= 0,
        snapshot.capability matches Stored::Present(record) && snapshot.run matches Some(run)
            && snapshot.active matches Some(active) && snapshot.deployment matches Stored::Present(d)
            && records_agree(record, run@, active@, d, key, snapshot.now_ms as int)
            && record.schema_version@ == deployment::SCHEMA_VERSION@ && !text::is_blank(
            record.deployment_id@,
        ) && !text::is_blank(record.run_id@) && !text::is_blank(record.binding_digest@) && (
        record.mode@ == "paper"@ || record.mode@ == "live"@) && deployment::tools_are_valid(
            record.studio_tool_allowlist@,
            known,
        ) && view.deployment_id == record.deployment_id@ && view.run_id == record.run_id@
            && view.binding_digest == record.binding_digest@ && view.mode == record.mode@
            && view.tools == deployment::canonical_tools(record.studio_tool_allowlist@)
            && view.tools == deployment::canonical_tools(d.studio_tool_allowlist@)
            && view.capability_digest == key,
{
}

/// A capability whose records agree and are in order has authority.
pub proof fn records_that_agree_give_authority(
    snapshot: ExecutionSnapshot,
    key: Seq<char>,
    known: Seq<String>,
    record: AgentMcpCapabilityRecord,
    run: Json,
    active: Json,
    d: AgentDeployment,
)
    requires
        snapshot.now_ms >= 0,
        snapshot.capability == Stored::Present(record),
        snapshot.run == Some(run),
        snapshot.active == Some(active),
        snapshot.deployment == Stored::Present(d),
        records_agree(record, run@, active@, d, key, snapshot.now_ms as int),
        record.schema_version@ == deployment::SCHEMA_VERSION@,
        !text::is_blank(record.deployment_id@),
        !text::is_blank(record.run_id@),
        !text::is_blank(record.binding_digest@),
        record.mode@ == "paper"@ || record.mode@ == "live"@,
        deployment::tools_are_valid(record.studio_tool_allowlist@, known),
        deployment::canonical_tools(d.studio_tool_allowlist@) == deployment::canonical_tools(
            record.studio_tool_allowlist@,
        ),
    ensures
        capability::context_of(snapshot, key, known) is Ok,
{
}

/// A token that is not of the shape of a capability is refused, and one that is has the
/// authority of its digest. Without a token there is no authority and no refusal.
pub proof fn token_has_the_authority_of_its_digest(
    token: Seq<char>,
    snapshot: ExecutionSnapshot,
    known: Seq<String>,
)
    ensures
        capability::resolution(None, snapshot, known) == Ok::<Option<ContextView>, Seq<char>>(
            None,
        ),
        token.len() != 64 ==> capability::resolution(Some(token), snapshot, known) is Err,
        (exists|i: int|
            0 <= i < token.len() && !('0' <= #[trigger] token[i] <= '9' || 'a' <= token[i] <= 'f'
                || 'A' <= token[i] <= 'F')) ==> capability::resolution(Some(token), snapshot, known)
            is Err,
        capability::resolution(Some(token), snapshot, known) matches Ok(found)
            ==> found matches Some(view) && view.capability_digest == capability::capability_key(
            token,
        ),
{
    if exists|i: int|
        0 <= i < token.len() && !('0' <= #[trigger] token[i] <= '9' || 'a' <= token[i] <= 'f'
            || 'A' <= token[i] <= 'F') {
        let i = choose|i: int|
            0 <= i < token.len() && !('0' <= #[trigger] token[i] <= '9' || 'a' <= token[i] <= 'f'
                || 'A' <= token[i] <= 'F');
        if capability::token_shaped(token) {
            assert(capability::is_hex(token[i]));
        }
    }
}

/// A lease is handed to the run only while its authority holds, the deployment is wanted
/// active, and the lease is that of the deployment, has not ended, and has the fence that
/// both records of the run have.
pub proof fn lease_is_that_of_the_run(
    context: VerifiedAgentMcpExecutionContext,
    snapshot: ExecutionSnapshot,
    desired_state: Option<Seq<char>>,
    lease: Option<LeaseClaim>,
    checked_at_ms: int,
    known: Seq<String>,
    held: LeaseClaim,
)
    requires
        context.lease_of(snapshot, desired_state, lease, checked_at_ms, known) == Ok::<
            LeaseClaim,
            Seq<char>,
        >(held),
    ensures
        capability::context_of(snapshot, context@.capability_digest, known) == Ok::<
            ContextView,
            Seq<char>,
        >(context@),
        desired_state == Some("active"@),
        lease == Some(held),
        held.resource@ == records::lease_resource_of(context@.deployment_id),
        !text::is_blank(held.owner@),
        checked_at_ms < held.expires_at_ms,
        held.fencing_token > 0,
        snapshot.active matches Some(active) && json::i64_member(active@, "leaseFence"@) == Some(
            held.fencing_token as int,
        ),
        snapshot.run matches Some(run) && json::member(run@, "run"@) matches Some(inner)
            && json::i64_member(inner, "leaseFence"@) == Some(held.fencing_token as int),
{
}

/// A deployment that is not wanted active has no lease to hand out.
pub proof fn paused_deployment_has_no_lease(
    context: VerifiedAgentMcpExecutionContext,
    snapshot: ExecutionSnapshot,
    desired_state: Option<Seq<char>>,
    lease: Option<LeaseClaim>,
    checked_at_ms: int,
    known: Seq<String>,
)
    requires
        desired_state != Some("active"@),
        context.still_holds(snapshot, known) is Ok,
    ensures
        context.lease_of(snapshot, desired_state, lease, checked_at_ms, known) == Err::<
            LeaseClaim,
            Seq<char>,
        >("agent_deployment_not_active"@),
{
}

} // verus!
