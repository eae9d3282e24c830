//! The records that the supervisor keeps and the receipts that it hands out.

use vstd::prelude::*;

use crate::agent_runner::deployment::{AgentDeployment, SCHEMA_VERSION};
use crate::digest;
use crate::digest::short_hash;
use crate::json;
use crate::json::{json_text, Json, JsonMap, JsonTree};
use crate::ports::{
    AuthorityContext, EventAppend, EventView, LeaseClaim, LeaseView, OutboxRecord, OutboxView,
};
use crate::text;
use crate::text::{join2, join5, same};

verus! {

/// A run of an agent.
#[derive(Debug)]
pub struct AgentRun {
    pub run_id: String,
    pub deployment_id: String,
    pub trigger_id: String,
    pub state: String,
    pub lease_fence: i64,
    pub deployment_binding_digest: String,
    pub codex_session_ref: Option<String>,
}

/// What an [`AgentRun`] says.
#[verifier::ext_equal]
pub struct RunView {
    pub run_id: Seq<char>,
    pub deployment_id: Seq<char>,
    pub trigger_id: Seq<char>,
    pub state: Seq<char>,
    pub lease_fence: int,
    pub deployment_binding_digest: Seq<char>,
    pub codex_session_ref: Option<Seq<char>>,
}

impl View for AgentRun {
    type V = RunView;

    open spec fn view(&self) -> RunView {
        RunView {
            run_id: self.run_id@,
            deployment_id: self.deployment_id@,
            trigger_id: self.trigger_id@,
            state: self.state@,
            lease_fence: self.lease_fence as int,
            deployment_binding_digest: self.deployment_binding_digest@,
            codex_session_ref: text::option_text(self.codex_session_ref),
        }
    }
}

/// A run as it stands in its record.
pub open spec fn run_tree(run: RunView) -> JsonTree {
    JsonTree::Object(
        map![
            "runId"@ => JsonTree::Text(run.run_id),
            "deploymentId"@ => JsonTree::Text(run.deployment_id),
            "triggerId"@ => JsonTree::Text(run.trigger_id),
            "state"@ => JsonTree::Text(run.state),
            "leaseFence"@ => JsonTree::Int(run.lease_fence),
            "deploymentBindingDigest"@ => JsonTree::Text(run.deployment_binding_digest),
            "codexSessionRef"@ => json::text_or_null(run.codex_session_ref)
        ],
    )
}

impl AgentRun {
    /// The run as it stands in its record.
    pub fn value(&self) -> (r: Json)
        ensures
            r@ == run_tree(self@),
    {
        Json::object(
            JsonMap::new().with("runId", Json::text(self.run_id.as_str())).with(
                "deploymentId",
                Json::text(self.deployment_id.as_str()),
            ).with("triggerId", Json::text(self.trigger_id.as_str())).with(
                "state",
                Json::text(self.state.as_str()),
            ).with("leaseFence", Json::Int(self.lease_fence)).with(
                "deploymentBindingDigest",
                Json::text(self.deployment_binding_digest.as_str()),
            ).with("codexSessionRef", Json::optional_text(&self.codex_session_ref)),
        )
    }

    /// A copy of this run.
    pub fn copy(&self) -> (r: AgentRun)
        ensures
            r == *self,
    {
        AgentRun {
            run_id: self.run_id.clone(),
            deployment_id: self.deployment_id.clone(),
            trigger_id: self.trigger_id.clone(),
            state: self.state.clone(),
            lease_fence: self.lease_fence,
            deployment_binding_digest: self.deployment_binding_digest.clone(),
            codex_session_ref: text::copy_option(&self.codex_session_ref),
        }
    }
}

/// The record that points to the run of a deployment.
pub open spec fn active_tree(
    run_id: Seq<char>,
    state: Seq<char>,
    lease: LeaseView,
    heartbeat_at_ms: int,
) -> JsonTree {
    JsonTree::Object(
        map![
            "runId"@ => JsonTree::Text(run_id),
            "state"@ => JsonTree::Text(state),
            "leaseExpiresAtMs"@ => JsonTree::Int(lease.expires_at_ms),
            "leaseFence"@ => JsonTree::Int(lease.fencing_token),
            "heartbeatAtMs"@ => JsonTree::Int(heartbeat_at_ms)
        ],
    )
}

/// The record that points to the run of a deployment.
pub fn active_run_record(run_id: &str, state: &str, lease: &LeaseClaim, heartbeat_at_ms: i64) -> (r:
    Json)
    ensures
        r@ == active_tree(run_id@, state@, lease@, heartbeat_at_ms as int),
{
    Json::object(
        JsonMap::new().with("runId", Json::text(run_id)).with("state", Json::text(state)).with(
            "leaseExpiresAtMs",
            Json::Int(lease.expires_at_ms),
        ).with("leaseFence", Json::Int(lease.fencing_token)).with(
            "heartbeatAtMs",
            Json::Int(heartbeat_at_ms),
        ),
    )
}

/// The record that points to a run that waits for an operator.
pub open spec fn quarantine_tree(run_id: Seq<char>) -> JsonTree {
    JsonTree::Object(
        map![
            "runId"@ => JsonTree::Text(run_id),
            "state"@ => JsonTree::Text("pending_reconcile"@)
        ],
    )
}

/// The record that points to a run that waits for an operator.
pub fn quarantine_record(run_id: &str) -> (r: Json)
    ensures
        r@ == quarantine_tree(run_id@),
{
    Json::object(
        JsonMap::new().with("runId", Json::text(run_id)).with(
            "state",
            Json::text("pending_reconcile"),
        ),
    )
}

/// The receipt of a pass over a deployment.
pub open spec fn receipt_tree(
    deployment_id: Seq<char>,
    outcome: Seq<char>,
    run_id: Option<Seq<char>>,
) -> JsonTree {
    JsonTree::Object(
        map![
            "schemaVersion"@ => JsonTree::Text(SCHEMA_VERSION@),
            "deploymentId"@ => JsonTree::Text(deployment_id),
            "outcome"@ => JsonTree::Text(outcome),
            "runId"@ => json::text_or_null(run_id),
            "redacted"@ => JsonTree::Bool(true)
        ],
    )
}

/// The receipt of a pass over a deployment.
pub fn receipt(deployment: &AgentDeployment, outcome: &str, run_id: &Option<String>) -> (r: Json)
    ensures
        r@ == receipt_tree(deployment.deployment_id@, outcome@, text::option_text(*run_id)),
{
    Json::object(
        JsonMap::new().with("schemaVersion", Json::text(SCHEMA_VERSION)).with(
            "deploymentId",
            Json::text(deployment.deployment_id.as_str()),
        ).with("outcome", Json::text(outcome)).with("runId", Json::optional_text(run_id)).with(
            "redacted",
            Json::Bool(true),
        ),
    )
}

/// The outcome and the code that a failure is reported with: of an unforeseen
/// failure nothing is told.
pub open spec fn failure_report(error: Seq<char>) -> (Seq<char>, Seq<char>) {
    if error == "agent_entitlement_denied"@ {
        ("entitlement_denied"@, "agent_entitlement_denied"@)
    } else if error == "agent_run_pending_reconcile"@ {
        ("pending_reconcile"@, "agent_run_pending_reconcile"@)
    } else {
        ("failed"@, "agent_runner_failed"@)
    }
}

/// The receipt of a pass over a deployment that failed.
pub open spec fn failure_tree(deployment_id: Seq<char>, error: Seq<char>) -> JsonTree {
    JsonTree::Object(
        map![
            "schemaVersion"@ => JsonTree::Text(SCHEMA_VERSION@),
            "deploymentId"@ => JsonTree::Text(deployment_id),
            "outcome"@ => JsonTree::Text(failure_report(error).0),
            "errorCode"@ => JsonTree::Text(failure_report(error).1),
            "redacted"@ => JsonTree::Bool(true)
        ],
    )
}

/// The receipt of a pass over a deployment that failed.
pub fn failure_receipt(deployment: &AgentDeployment, error: &str) -> (r: Json)
    ensures
        r@ == failure_tree(deployment.deployment_id@, error@),
{
    let (outcome, code): (&str, &str) = if same(error, "agent_entitlement_denied") {
        ("entitlement_denied", "agent_entitlement_denied")
    } else if same(error, "agent_run_pending_reconcile") {
        ("pending_reconcile", "agent_run_pending_reconcile")
    } else {
        ("failed", "agent_runner_failed")
    };
    Json::object(
        JsonMap::new().with("schemaVersion", Json::text(SCHEMA_VERSION)).with(
            "deploymentId",
            Json::text(deployment.deployment_id.as_str()),
        ).with("outcome", Json::text(outcome)).with("errorCode", Json::text(code)).with(
            "redacted",
            Json::Bool(true),
        ),
    )
}

/// The text of a member of a member.
pub open spec fn inner_text(tree: JsonTree, outer: Seq<char>, inner: Seq<char>) -> Option<Seq<char>> {
    match json::member(tree, outer) {
        Some(t) => json::text_member(t, inner),
        None => None,
    }
}

/// The text of a member of a member.
pub fn inner_text_field(value: &Json, outer: &str, inner: &str) -> (r: Option<String>)
    ensures
        text::option_text(r) == inner_text(value@, outer@, inner@),
{
    match value.field(outer) {
        Some(v) => v.text_field(inner),
        None => None,
    }
}

/// Whether the text of a member of a member is `expected`.
pub fn inner_is(value: &Json, outer: &str, inner: &str, expected: &str) -> (r: bool)
    ensures
        r == (inner_text(value@, outer@, inner@) == Some(expected@)),
{
    match inner_text_field(value, outer, inner) {
        Some(t) => same(t.as_str(), expected),
        None => false,
    }
}

/// Whether a record can be given a run state: it and its run are objects or nothing.
pub open spec fn takes_run_state(record: JsonTree) -> bool {
    match record {
        JsonTree::Null => true,
        JsonTree::Object(map) => map.dom().contains("run"@) ==> (map["run"@] is Null
            || map["run"@] is Object),
        _ => false,
    }
}

/// Tests whether a record can be given a run state.
pub fn can_take_run_state(record: &Json) -> (r: bool)
    ensures
        r == takes_run_state(record@),
{
    match record {
        Json::Null => true,
        Json::Object(map) => match map.get("run") {
            Some(Json::Null) => true,
            Some(Json::Object(_)) => true,
            Some(_) => false,
            None => true,
        },
        _ => false,
    }
}

/// The entries of an object, or none where there is no object.
pub open spec fn object_of(tree: JsonTree) -> Map<Seq<char>, JsonTree> {
    match tree {
        JsonTree::Object(map) => map,
        _ => Map::empty(),
    }
}

/// A record whose run has the given state.
pub open spec fn in_run_state(record: JsonTree, state: Seq<char>) -> JsonTree {
    let run = match json::member(record, "run"@) {
        Some(t) => object_of(t),
        None => Map::empty(),
    };
    JsonTree::Object(
        object_of(record).insert(
            "run"@,
            JsonTree::Object(run.insert("state"@, JsonTree::Text(state))),
        ),
    )
}

/// The entries of a value that is an object.
pub fn object_entries(value: &Json) -> (r: JsonMap)
    ensures
        r@ == object_of(value@),
{
    match value.copy() {
        Json::Object(map) => map,
        _ => JsonMap::new(),
    }
}

/// The record with the state of its run set.
pub fn with_run_state(record: &Json, state: &str) -> (r: Json)
    requires
        takes_run_state(record@),
    ensures
        r@ == in_run_state(record@, state@),
{
    let run = match record.field("run") {
        Some(value) => object_entries(value),
        None => JsonMap::new(),
    };
    let run = Json::object(run.with("state", Json::text(state)));
    Json::object(object_entries(record).with("run", run))
}

/// The entries that no evidence may hold.
pub open spec fn redacted_entries(map: Map<Seq<char>, JsonTree>) -> Map<Seq<char>, JsonTree> {
    map.remove("apiKey"@).remove("apiSecret"@).remove("token"@).remove("secret"@).remove(
        "authorization"@,
    )
}

/// A payload without the entries that no evidence may hold.
pub open spec fn redacted_tree(tree: JsonTree) -> JsonTree {
    match tree {
        JsonTree::Object(map) => JsonTree::Object(redacted_entries(map)),
        _ => tree,
    }
}

/// The payload without the entries that no evidence may hold.
pub fn redact(value: &Json) -> (r: Json)
    ensures
        r@ == redacted_tree(value@),
{
    match value.copy() {
        Json::Object(map) => {
            let mut map = map;
            map.remove("apiKey");
            map.remove("apiSecret");
            map.remove("token");
            map.remove("secret");
            map.remove("authorization");
            Json::object(map)
        },
        other => other,
    }
}

/// Evidence never holds one of the redacted entries at its top.
pub proof fn redacted_holds_no_secret_entry(tree: JsonTree)
    ensures
        json::member(redacted_tree(tree), "apiKey"@) is None,
        json::member(redacted_tree(tree), "apiSecret"@) is None,
        json::member(redacted_tree(tree), "token"@) is None,
        json::member(redacted_tree(tree), "secret"@) is None,
        json::member(redacted_tree(tree), "authorization"@) is None,
{
}

/// The lease resource of a deployment.
pub open spec fn lease_resource_of(deployment_id: Seq<char>) -> Seq<char> {
    "agent-deployment:"@ + deployment_id
}

/// The lease resource of a deployment.
pub fn lease_resource(deployment_id: &str) -> (r: String)
    ensures
        r@ == lease_resource_of(deployment_id@),
{
    join2("agent-deployment:", deployment_id)
}

/// The idempotency key of a piece of evidence.
pub open spec fn evidence_key(
    event_type: Seq<char>,
    deployment_id: Seq<char>,
    payload: JsonTree,
) -> Seq<char> {
    event_type + ":"@ + deployment_id + ":"@ + digest::short_digest(json::json_text_of(payload))
}

/// What evidence says: who acted, and the redacted payload.
pub open spec fn evidence_tree(
    deployment_id: Seq<char>,
    event_type: Seq<char>,
    payload: JsonTree,
    authority: AuthorityContext,
) -> JsonTree {
    JsonTree::Object(
        map![
            "schemaVersion"@ => JsonTree::Text(SCHEMA_VERSION@),
            "deploymentId"@ => JsonTree::Text(deployment_id),
            "eventType"@ => JsonTree::Text(event_type),
            "authority"@ => JsonTree::Object(
                map![
                    "actor"@ => JsonTree::Text(authority.actor@),
                    "surface"@ => JsonTree::Text(authority.surface@),
                    "accountMode"@ => JsonTree::Text(authority.account_mode@)
                ],
            ),
            "payload"@ => redacted_tree(payload)
        ],
    )
}

/// The event and the outbox record that a piece of evidence is kept as.
pub fn evidence_records(
    deployment: &AgentDeployment,
    event_type: &str,
    payload: &Json,
    now_ms: i64,
    authority: &AuthorityContext,
) -> (r: (EventAppend, OutboxRecord))
    ensures
        r.0@ == (EventView {
            stream: lease_resource_of(deployment.deployment_id@),
            event_type: event_type@,
            aggregate_id: deployment.deployment_id@,
            payload: evidence_tree(deployment.deployment_id@, event_type@, payload@, *authority),
            idempotency_key: evidence_key(event_type@, deployment.deployment_id@, payload@),
            occurred_at_ms: now_ms as int,
            retention_until_ms: None,
        }),
        r.1@ == (OutboxView {
            outbox_id: "outbox_"@ + digest::short_digest(
                evidence_key(event_type@, deployment.deployment_id@, payload@),
            ),
            topic: event_type@,
            payload: evidence_tree(deployment.deployment_id@, event_type@, payload@, *authority),
            idempotency_key: "outbox:"@ + evidence_key(
                event_type@,
                deployment.deployment_id@,
                payload@,
            ),
            created_at_ms: now_ms as int,
            fencing_token: 0,
        }),
{
    let encoded = json_text(payload);
    let payload_hash = short_hash(encoded.as_str());
    let key = join5(
        event_type,
        ":",
        deployment.deployment_id.as_str(),
        ":",
        payload_hash.as_str(),
    );
    let authority_value = Json::object(
        JsonMap::new().with("actor", Json::text(authority.actor.as_str())).with(
            "surface",
            Json::text(authority.surface.as_str()),
        ).with("accountMode", Json::text(authority.account_mode.as_str())),
    );
    let redacted = Json::object(
        JsonMap::new().with("schemaVersion", Json::text(SCHEMA_VERSION)).with(
            "deploymentId",
            Json::text(deployment.deployment_id.as_str()),
        ).with("eventType", Json::text(event_type)).with("authority", authority_value).with(
            "payload",
            redact(payload),
        ),
    );
    let key_hash = short_hash(key.as_str());
    let event = EventAppend {
        stream: lease_resource(deployment.deployment_id.as_str()),
        event_type: event_type.to_owned(),
        aggregate_id: deployment.deployment_id.clone(),
        payload: redacted.copy(),
        idempotency_key: key.clone(),
        occurred_at_ms: now_ms,
        retention_until_ms: None,
    };
    let outbox = OutboxRecord {
        outbox_id: join2("outbox_", key_hash.as_str()),
        topic: event_type.to_owned(),
        payload: redacted,
        idempotency_key: join2("outbox:", key.as_str()),
        created_at_ms: now_ms,
        fencing_token: 0,
    };
    (event, outbox)
}

} // verus!
