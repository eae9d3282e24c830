//! How an operator resolves a run that was put aside. It never submits or retries an
//! order, and a request that was interrupted is finished by repeating it.

use vstd::prelude::*;

use crate::agent_runner::deployment::{
    AgentDeployment, ACTIVE_RUNS_NS, RECOVERY_RECEIPTS_NS, RUNS_NS, SCHEMA_VERSION,
};
use crate::agent_runner::records;
use crate::agent_runner::records::{inner_is, receipt, with_run_state};
use crate::digest;
use crate::digest::short_hash;
use crate::json;
use crate::json::{json_text, Json, JsonMap, JsonTree};
use crate::ports::{SideEffectContext, StorageWrite, WriteContext, WriteView};
use crate::text;
use crate::text::{blank, join2, same};

verus! {

/// The owner of a deployment's lease while a run of it is resolved.
pub const RECOVERY_OWNER: &'static str = "local-agent-recovery";

/// The receipt of a request to resolve a run.
#[derive(Debug)]
pub struct AgentRecoveryReceipt {
    pub schema_version: String,
    pub deployment_id: String,
    pub run_id: String,
    pub request_digest: String,
    pub requested_at_ms: i64,
    pub state: String,
    pub receipt: Json,
}

/// What an [`AgentRecoveryReceipt`] says.
#[verifier::ext_equal]
pub struct ReceiptView {
    pub schema_version: Seq<char>,
    pub deployment_id: Seq<char>,
    pub run_id: Seq<char>,
    pub request_digest: Seq<char>,
    pub requested_at_ms: int,
    pub state: Seq<char>,
    pub receipt: JsonTree,
}

impl View for AgentRecoveryReceipt {
    type V = ReceiptView;

    open spec fn view(&self) -> ReceiptView {
        ReceiptView {
            schema_version: self.schema_version@,
            deployment_id: self.deployment_id@,
            run_id: self.run_id@,
            request_digest: self.request_digest@,
            requested_at_ms: self.requested_at_ms as int,
            state: self.state@,
            receipt: self.receipt@,
        }
    }
}

/// The record of a receipt.
pub open spec fn recovery_tree(r: ReceiptView) -> JsonTree {
    JsonTree::Object(
        map![
            "schemaVersion"@ => JsonTree::Text(r.schema_version),
            "deploymentId"@ => JsonTree::Text(r.deployment_id),
            "runId"@ => JsonTree::Text(r.run_id),
            "requestDigest"@ => JsonTree::Text(r.request_digest),
            "requestedAtMs"@ => JsonTree::Int(r.requested_at_ms),
            "state"@ => JsonTree::Text(r.state),
            "receipt"@ => r.receipt
        ],
    )
}

impl AgentRecoveryReceipt {
    /// The receipt as it is stored.
    pub fn value(&self) -> (r: Json)
        ensures
            r@ == recovery_tree(self@),
    {
        Json::object(
            JsonMap::new().with("schemaVersion", Json::text(self.schema_version.as_str())).with(
                "deploymentId",
                Json::text(self.deployment_id.as_str()),
            ).with("runId", Json::text(self.run_id.as_str())).with(
                "requestDigest",
                Json::text(self.request_digest.as_str()),
            ).with("requestedAtMs", Json::Int(self.requested_at_ms)).with(
                "state",
                Json::text(self.state.as_str()),
            ).with("receipt", self.receipt.copy()),
        )
    }
}

/// What identifies a request: the deployment, who asks and the idempotency key.
pub open spec fn request_tree(deployment_id: Seq<char>, context: SideEffectContext) -> JsonTree {
    JsonTree::Object(
        map![
            "deploymentId"@ => JsonTree::Text(deployment_id),
            "actor"@ => JsonTree::Text(context.authority.actor@),
            "surface"@ => JsonTree::Text(context.authority.surface@),
            "accountMode"@ => JsonTree::Text(context.authority.account_mode@),
            "idempotencyKey"@ => JsonTree::Text(context.idempotency_key@)
        ],
    )
}

/// The digest of what identifies a request.
pub open spec fn request_digest(deployment_id: Seq<char>, context: SideEffectContext) -> Seq<char> {
    digest::short_digest(json::json_text_of(request_tree(deployment_id, context)))
}

/// The digest of what identifies a request.
pub fn recovery_request_digest(deployment: &AgentDeployment, context: &SideEffectContext) -> (r: String)
    ensures
        r@ == request_digest(deployment.deployment_id@, *context),
{
    let value = Json::object(
        JsonMap::new().with("deploymentId", Json::text(deployment.deployment_id.as_str())).with(
            "actor",
            Json::text(context.authority.actor.as_str()),
        ).with("surface", Json::text(context.authority.surface.as_str())).with(
            "accountMode",
            Json::text(context.authority.account_mode.as_str()),
        ).with("idempotencyKey", Json::text(context.idempotency_key.as_str())),
    );
    let encoded = json_text(&value);
    short_hash(encoded.as_str())
}

/// The key of a receipt.
pub fn recovery_receipt_key(request_digest: &str) -> (r: String)
    ensures
        r@ == "recovery_"@ + request_digest@,
{
    join2("recovery_", request_digest)
}

/// The code of a run that does not wait for an operator.
pub open spec fn not_pending() -> Seq<char> {
    "agent_run_not_pending_reconcile"@
}

/// The run that waits for an operator, where the pointer names one.
pub open spec fn waiting_run(active: Option<JsonTree>) -> Option<Seq<char>> {
    match active {
        Some(tree) => match json::text_member(tree, "runId"@) {
            Some(id) => if json::text_member(tree, "state"@) == Some("pending_reconcile"@)
                && !text::is_blank(id) {
                Some(id)
            } else {
                None
            },
            None => None,
        },
        None => None,
    }
}

/// The receipt with which a request begins.
pub open spec fn first_receipt(
    deployment_id: Seq<char>,
    run_id: Seq<char>,
    request: Seq<char>,
    now_ms: int,
) -> ReceiptView {
    ReceiptView {
        schema_version: SCHEMA_VERSION@,
        deployment_id,
        run_id,
        request_digest: request,
        requested_at_ms: now_ms,
        state: "in_progress"@,
        receipt: records::receipt_tree(deployment_id, "reconciled"@, Some(run_id)),
    }
}

/// Begins a request for the run that waits for an operator.
pub fn begin_recovery(
    deployment: &AgentDeployment,
    active: &Option<Json>,
    request_digest: &str,
    now_ms: i64,
) -> (r: Result<AgentRecoveryReceipt, String>)
    ensures
        match (r, waiting_run(crate::ports::option_tree(*active))) {
            (Ok(receipt), Some(id)) => receipt@ == first_receipt(
                deployment.deployment_id@,
                id,
                request_digest@,
                now_ms as int,
            ),
            (Err(e), None) => e@ == not_pending(),
            _ => false,
        },
{
    let run_id: String = match active {
        Some(value) => match value.text_field("runId") {
            Some(id) => {
                if !value.field_is("state", "pending_reconcile") || blank(id.as_str()) {
                    return Err("agent_run_not_pending_reconcile".to_owned());
                }
                id
            },
            None => {
                return Err("agent_run_not_pending_reconcile".to_owned());
            },
        },
        None => {
            return Err("agent_run_not_pending_reconcile".to_owned());
        },
    };
    let value = receipt(deployment, "reconciled", &Some(run_id.clone()));
    Ok(
        AgentRecoveryReceipt {
            schema_version: SCHEMA_VERSION.to_owned(),
            deployment_id: deployment.deployment_id.clone(),
            run_id,
            request_digest: request_digest.to_owned(),
            requested_at_ms: now_ms,
            state: "in_progress".to_owned(),
            receipt: value,
        },
    )
}

/// The code of a receipt that could not be stored, given what storage said.
pub fn receipt_storage_error(error: &str) -> (r: String)
    ensures
        r@ == (if error@ == "immutable_storage_conflict"@ {
            "agent_recovery_idempotency_conflict"@
        } else {
            "agent_recovery_receipt_persist_failed"@
        }),
{
    if same(error, "immutable_storage_conflict") {
        "agent_recovery_idempotency_conflict".to_owned()
    } else {
        "agent_recovery_receipt_persist_failed".to_owned()
    }
}

/// Whether a receipt is one of this request.
pub open spec fn receipt_is_valid(r: ReceiptView, deployment_id: Seq<char>, request: Seq<char>) -> bool {
    &&& r.schema_version == SCHEMA_VERSION@
    &&& r.deployment_id == deployment_id
    &&& r.request_digest == request
    &&& r.state == "in_progress"@ || r.state == "completed"@
}

/// Checks that a receipt is one of this request, and says whether it is completed:
/// then its receipt is the answer.
pub fn check_recovery_receipt(
    stored: &AgentRecoveryReceipt,
    deployment: &AgentDeployment,
    request_digest: &str,
) -> (r: Result<bool, String>)
    ensures
        match r {
            Ok(completed) => receipt_is_valid(
                stored@,
                deployment.deployment_id@,
                request_digest@,
            ) && completed == (stored@.state == "completed"@),
            Err(e) => !receipt_is_valid(stored@, deployment.deployment_id@, request_digest@) && e@
                == "agent_recovery_receipt_invalid"@,
        },
{
    let completed: bool = same(stored.state.as_str(), "completed");
    if !same(stored.schema_version.as_str(), SCHEMA_VERSION) || !same(
        stored.deployment_id.as_str(),
        deployment.deployment_id.as_str(),
    ) || !same(stored.request_digest.as_str(), request_digest) || !(same(
        stored.state.as_str(),
        "in_progress",
    ) || completed) {
        return Err("agent_recovery_receipt_invalid".to_owned());
    }
    Ok(completed)
}

/// What the record of the run becomes, and whether it has to be written.
#[derive(Debug)]
pub struct RunTransition {
    pub record: Json,
    pub write: Option<StorageWrite>,
}

/// The state of the run of a record.
pub open spec fn run_state(record: JsonTree) -> Option<Seq<char>> {
    records::inner_text(record, "run"@, "state"@)
}

/// The record of the run after it has been resolved; nothing where it cannot be.
pub open spec fn resolved_record(record: Option<JsonTree>) -> Option<JsonTree> {
    match record {
        Some(tree) => if run_state(tree) == Some("pending_reconcile"@) {
            Some(records::in_run_state(tree, "reconciled"@))
        } else if run_state(tree) == Some("reconciled"@) {
            Some(tree)
        } else {
            None
        },
        None => None,
    }
}

/// Resolves the record of a run that waits, or accepts one that is resolved already.
pub fn resolve_run(run_id: &str, record: &Option<Json>, context: &SideEffectContext) -> (r: Result<
    RunTransition,
    String,
>)
    ensures
        match (r, resolved_record(crate::ports::option_tree(*record))) {
            (Ok(done), Some(tree)) => done.record@ == tree && (match done.write {
                Some(write) => run_state(record->Some_0@) == Some("pending_reconcile"@) && write@ == (
                WriteView {
                    namespace: RUNS_NS@,
                    key: run_id@,
                    value: tree,
                    context: crate::ports::context_of(*context),
                }),
                None => run_state(record->Some_0@) == Some("reconciled"@),
            }),
            (Err(e), None) => e@ == not_pending(),
            _ => false,
        },
{
    let record = match record {
        Some(record) => record,
        None => {
            return Err("agent_run_not_pending_reconcile".to_owned());
        },
    };
    if inner_is(record, "run", "state", "pending_reconcile") {
        proof {
            reveal_strlit("reconciled");
            reveal_strlit("pending_reconcile");
            assert("reconciled"@.len() == 10 && "pending_reconcile"@.len() == 17);
        }
        let resolved = with_run_state(record, "reconciled");
        let written = resolved.copy();
        return Ok(
            RunTransition {
                record: resolved,
                write: Some(
                    StorageWrite {
                        namespace: RUNS_NS,
                        key: run_id.to_owned(),
                        value: written,
                        context: WriteContext::of(context),
                    },
                ),
            },
        );
    }
    if inner_is(record, "run", "state", "reconciled") {
        return Ok(RunTransition { record: record.copy(), write: None });
    }
    Err("agent_run_not_pending_reconcile".to_owned())
}

/// Whether the pointer of a deployment is to the run that is resolved, before or after.
pub open spec fn pointer_agrees(active: Option<JsonTree>, run_id: Seq<char>) -> bool {
    match active {
        Some(tree) => (json::text_member(tree, "state"@) == Some("pending_reconcile"@)
            && json::text_member(tree, "runId"@) == Some(run_id)) || (json::text_member(tree, "state"@)
            == Some("reconciled"@) && json::text_member(tree, "resolvedRunId"@) == Some(run_id)),
        None => false,
    }
}

/// The pointer after a run has been resolved. It keeps no session: the run that is
/// newly allowed must not take an ambiguous one up.
pub open spec fn resolved_pointer(run_id: Seq<char>, at_ms: int) -> JsonTree {
    JsonTree::Object(
        map![
            "state"@ => JsonTree::Text("reconciled"@),
            "resolvedRunId"@ => JsonTree::Text(run_id),
            "resolvedAtMs"@ => JsonTree::Int(at_ms)
        ],
    )
}

/// Resolves the pointer of a deployment.
pub fn resolve_pointer(
    deployment: &AgentDeployment,
    stored: &AgentRecoveryReceipt,
    active: &Option<Json>,
    context: &SideEffectContext,
) -> (r: Result<StorageWrite, String>)
    ensures
        match r {
            Ok(write) => pointer_agrees(crate::ports::option_tree(*active), stored@.run_id) && write@
                == (WriteView {
                namespace: ACTIVE_RUNS_NS@,
                key: deployment.deployment_id@,
                value: resolved_pointer(stored@.run_id, stored@.requested_at_ms),
                context: crate::ports::context_of(*context),
            }),
            Err(e) => !pointer_agrees(crate::ports::option_tree(*active), stored@.run_id) && e@
                == not_pending(),
        },
{
    let run_id: &str = stored.run_id.as_str();
    let agrees: bool = match active {
        Some(value) => (value.field_is("state", "pending_reconcile") && value.field_is("runId", run_id))
            || (value.field_is("state", "reconciled") && value.field_is("resolvedRunId", run_id)),
        None => false,
    };
    if !agrees {
        return Err("agent_run_not_pending_reconcile".to_owned());
    }
    Ok(
        StorageWrite {
            namespace: ACTIVE_RUNS_NS,
            key: deployment.deployment_id.clone(),
            value: Json::object(
                JsonMap::new().with("state", Json::text("reconciled")).with(
                    "resolvedRunId",
                    Json::text(run_id),
                ).with("resolvedAtMs", Json::Int(stored.requested_at_ms)),
            ),
            context: WriteContext::of(context),
        },
    )
}

/// The receipt of a request that is done, as it is stored.
pub fn complete_recovery(stored: AgentRecoveryReceipt, context: &SideEffectContext) -> (r: (
    StorageWrite,
    Json,
))
    ensures
        r.0@ == (WriteView {
            namespace: RECOVERY_RECEIPTS_NS@,
            key: "recovery_"@ + stored@.request_digest,
            value: recovery_tree(ReceiptView { state: "completed"@, ..stored@ }),
            context: crate::ports::context_of(*context),
        }),
        r.1@ == stored@.receipt,
{
    let mut done = stored;
    done.state = "completed".to_owned();
    let write = StorageWrite {
        namespace: RECOVERY_RECEIPTS_NS,
        key: recovery_receipt_key(done.request_digest.as_str()),
        value: done.value(),
        context: WriteContext::of(context),
    };
    (write, done.receipt)
}

/// What a request is answered. One that failed after it changed something can be
/// repeated.
pub fn recovery_answer(transition_started: bool, result: Result<Json, String>) -> (r: Result<
    Json,
    String,
>)
    ensures
        match (result, r) {
            (Ok(value), Ok(answer)) => answer == value,
            (Err(code), Err(answer)) => answer@ == (if transition_started {
                "agent_recovery_retryable"@
            } else {
                code@
            }),
            _ => false,
        },
{
    match result {
        Ok(value) => Ok(value),
        Err(code) => if transition_started {
            Err("agent_recovery_retryable".to_owned())
        } else {
            Err(code)
        },
    }
}

/// A request that was interrupted can be repeated: the run that it resolved and the
/// pointer that it wrote are accepted, and neither changes again.
pub proof fn recovery_can_be_repeated(record: JsonTree, run_id: Seq<char>, at_ms: int)
    requires
        run_state(record) == Some("pending_reconcile"@),
    ensures
        ({
            let resolved = resolved_record(Some(record))->Some_0;
            &&& run_state(resolved) == Some("reconciled"@)
            &&& resolved_record(Some(resolved)) == Some(resolved)
            &&& pointer_agrees(Some(resolved_pointer(run_id, at_ms)), run_id)
        }),
{
    reveal_strlit("state");
    reveal_strlit("resolvedRunId");
    reveal_strlit("resolvedAtMs");
    reveal_strlit("reconciled");
    reveal_strlit("pending_reconcile");
    assert("state"@.len() == 5 && "resolvedRunId"@.len() == 13 && "resolvedAtMs"@.len() == 12);
    assert("reconciled"@.len() == 10 && "pending_reconcile"@.len() == 17);
}

/// A run that an operator has resolved leaves no session behind: the pointer names no
/// run, so the next pass resumes none.
pub proof fn resolved_pointer_names_no_run(run_id: Seq<char>, at_ms: int)
    ensures
        json::text_member(resolved_pointer(run_id, at_ms), "runId"@) is None,
{
    reveal_strlit("state");
    reveal_strlit("resolvedRunId");
    reveal_strlit("resolvedAtMs");
    reveal_strlit("runId");
    assert("runId"@[0] == 'r' && "state"@[0] == 's');
    assert("runId"@.len() == 5 && "resolvedRunId"@.len() == 13 && "resolvedAtMs"@.len() == 12);
}

} // verus!
