//! How far a piece of evidence has come on its way to the archive, and the changes
//! of that state: claimed, published, failed, asked for again.

use vstd::prelude::*;

use crate::archive_outbox::envelope;
use crate::archive_outbox::envelope::{
    canonical_form_of, is_safe_identifier, safe_error_code, valid_sha256, ArchiveEvidenceEnvelope,
    ArchiveIngestRequest, ArchiveOutboxError, EnvelopeView, ARCHIVE_INGEST_SCHEMA, CLOUD_ARCHIVE_RECORD_SCHEMA,
};
use crate::json;
use crate::json::{Json, JsonMap, JsonTree};
use crate::ports;
use crate::ports::{
    AuthorityContext, AuthorityView, BatchView, ContextView, ExpectationView, FailureMode,
    PortDescriptor, PortKind, StorageBatch, Stored, WriteAuthority, WriteContext, WriteView,
};
use crate::text;
use crate::text::{copy_option, join2, join4, same, signed_decimal_text};

verus! {

/// Where the states are stored.
pub const STATES_NS: &'static str = "archive_evidence_states_v1";

/// How long a claim lasts.
pub const LEASE_MS: i64 = 30_000;

/// How far a piece of evidence has come.
#[derive(Debug)]
pub struct ArchiveEvidenceSyncStatus {
    pub state: String,
    pub attempts: u32,
    pub next_attempt_at_ms: Option<i64>,
    pub last_attempt_at_ms: Option<i64>,
    pub last_error_code: Option<String>,
    pub published_at_ms: Option<i64>,
    pub entitlement_snapshot_ref: Option<String>,
    pub archive_ref: Option<String>,
    pub record_digest_sha256: Option<String>,
    pub acknowledged_cursor: Option<i64>,
    pub lease_owner: Option<String>,
    pub lease_until_ms: Option<i64>,
    pub fencing_token: i64,
}

/// What an [`ArchiveEvidenceSyncStatus`] says.
#[verifier::ext_equal]
pub struct StatusView {
    pub state: Seq<char>,
    pub attempts: int,
    pub next_attempt_at_ms: Option<i64>,
    pub last_attempt_at_ms: Option<i64>,
    pub last_error_code: Option<Seq<char>>,
    pub published_at_ms: Option<i64>,
    pub entitlement_snapshot_ref: Option<Seq<char>>,
    pub archive_ref: Option<Seq<char>>,
    pub record_digest_sha256: Option<Seq<char>>,
    pub acknowledged_cursor: Option<i64>,
    pub lease_owner: Option<Seq<char>>,
    pub lease_until_ms: Option<i64>,
    pub fencing_token: int,
}

impl View for ArchiveEvidenceSyncStatus {
    type V = StatusView;

    open spec fn view(&self) -> StatusView {
        StatusView {
            state: self.state@,
            attempts: self.attempts as int,
            next_attempt_at_ms: self.next_attempt_at_ms,
            last_attempt_at_ms: self.last_attempt_at_ms,
            last_error_code: text::option_text(self.last_error_code),
            published_at_ms: self.published_at_ms,
            entitlement_snapshot_ref: text::option_text(self.entitlement_snapshot_ref),
            archive_ref: text::option_text(self.archive_ref),
            record_digest_sha256: text::option_text(self.record_digest_sha256),
            acknowledged_cursor: self.acknowledged_cursor,
            lease_owner: text::option_text(self.lease_owner),
            lease_until_ms: self.lease_until_ms,
            fencing_token: self.fencing_token as int,
        }
    }
}

/// The state of evidence that has not been tried yet.
pub open spec fn pending_view(queued_at_ms: i64) -> StatusView {
    StatusView {
        state: "pending"@,
        attempts: 0,
        next_attempt_at_ms: Some(queued_at_ms),
        last_attempt_at_ms: None,
        last_error_code: None,
        published_at_ms: None,
        entitlement_snapshot_ref: None,
        archive_ref: None,
        record_digest_sha256: None,
        acknowledged_cursor: None,
        lease_owner: None,
        lease_until_ms: None,
        fencing_token: 0,
    }
}

/// A number as a JSON value: the number, or null.
pub open spec fn number_or_null(value: Option<i64>) -> JsonTree {
    match value {
        Some(n) => JsonTree::Int(n as int),
        None => JsonTree::Null,
    }
}

/// A number as a JSON value.
pub fn optional_number(value: Option<i64>) -> (r: Json)
    ensures
        r@ == number_or_null(value),
{
    match value {
        Some(n) => Json::Int(n),
        None => Json::Null,
    }
}

/// A state as it is stored.
pub open spec fn status_tree(s: StatusView) -> JsonTree {
    JsonTree::Object(
        map![
            "state"@ => JsonTree::Text(s.state),
            "attempts"@ => JsonTree::Int(s.attempts),
            "nextAttemptAtMs"@ => number_or_null(s.next_attempt_at_ms),
            "lastAttemptAtMs"@ => number_or_null(s.last_attempt_at_ms),
            "lastErrorCode"@ => json::text_or_null(s.last_error_code),
            "publishedAtMs"@ => number_or_null(s.published_at_ms),
            "entitlementSnapshotRef"@ => json::text_or_null(s.entitlement_snapshot_ref),
            "archiveRef"@ => json::text_or_null(s.archive_ref),
            "recordDigestSha256"@ => json::text_or_null(s.record_digest_sha256),
            "acknowledgedCursor"@ => number_or_null(s.acknowledged_cursor),
            "leaseOwner"@ => json::text_or_null(s.lease_owner),
            "leaseUntilMs"@ => number_or_null(s.lease_until_ms),
            "fencingToken"@ => JsonTree::Int(s.fencing_token)
        ],
    )
}

impl StatusView {
    /// Whether the archive has the evidence.
    pub open spec fn is_published(self) -> bool {
        self.state == "published"@
    }

    /// Whether an operator has to look at the evidence.
    pub open spec fn reconciliation_required(self) -> bool {
        self.state == "reconciliation_required"@
    }

    /// Whether a worker holds the evidence at the given time.
    pub open spec fn is_leased_until(self, now_ms: i64) -> bool {
        self.state == "leased"@ && (self.lease_until_ms matches Some(until) && until > now_ms)
    }

    /// Whether the evidence is to be tried at the given time.
    pub open spec fn due(self, now_ms: i64) -> bool {
        &&& !self.is_published()
        &&& !self.reconciliation_required()
        &&& !self.is_leased_until(now_ms)
        &&& self.next_attempt_at_ms matches Some(at) ==> at <= now_ms
    }

    /// Whether the state is one that the outbox writes.
    pub open spec fn is_known(self) -> bool {
        &&& self.state == "pending"@ || self.state == "leased"@ || self.state == "published"@
            || self.state == "unavailable"@ || self.state == "reconciliation_required"@
        &&& self.state == "leased"@ ==> self.attempts != 0
    }
}

impl ArchiveEvidenceSyncStatus {
    /// The state of evidence that has not been tried yet.
    pub fn pending(queued_at_ms: i64) -> (r: ArchiveEvidenceSyncStatus)
        ensures
            r@ == pending_view(queued_at_ms),
    {
        ArchiveEvidenceSyncStatus {
            state: "pending".to_owned(),
            attempts: 0,
            next_attempt_at_ms: Some(queued_at_ms),
            last_attempt_at_ms: None,
            last_error_code: None,
            published_at_ms: None,
            entitlement_snapshot_ref: None,
            archive_ref: None,
            record_digest_sha256: None,
            acknowledged_cursor: None,
            lease_owner: None,
            lease_until_ms: None,
            fencing_token: 0,
        }
    }

    /// Whether the archive has the evidence.
    pub fn is_published(&self) -> (r: bool)
        ensures
            r == self@.is_published(),
    {
        same(self.state.as_str(), "published")
    }

    /// Whether an operator has to look at the evidence.
    pub fn reconciliation_required(&self) -> (r: bool)
        ensures
            r == self@.reconciliation_required(),
    {
        same(self.state.as_str(), "reconciliation_required")
    }

    /// Whether a worker holds the evidence at the given time.
    pub fn is_leased_until(&self, now_ms: i64) -> (r: bool)
        ensures
            r == self@.is_leased_until(now_ms),
    {
        let held: bool = match self.lease_until_ms {
            Some(until) => until > now_ms,
            None => false,
        };
        same(self.state.as_str(), "leased") && held
    }

    /// Whether the evidence is to be tried at the given time.
    pub fn due(&self, now_ms: i64) -> (r: bool)
        ensures
            r == self@.due(now_ms),
    {
        let reached: bool = match self.next_attempt_at_ms {
            Some(at) => at <= now_ms,
            None => true,
        };
        !self.is_published() && !self.reconciliation_required() && !self.is_leased_until(now_ms)
            && reached
    }

    /// Whether the state is one that the outbox writes.
    pub fn is_known(&self) -> (r: bool)
        ensures
            r == self@.is_known(),
    {
        let state: &str = self.state.as_str();
        let leased: bool = same(state, "leased");
        (same(state, "pending") || leased || same(state, "published") || same(state, "unavailable")
            || same(state, "reconciliation_required")) && !(self.attempts == 0 && leased)
    }

    /// A copy of the state.
    pub fn copy(&self) -> (r: ArchiveEvidenceSyncStatus)
        ensures
            r@ == self@,
    {
        ArchiveEvidenceSyncStatus {
            state: self.state.clone(),
            attempts: self.attempts,
            next_attempt_at_ms: self.next_attempt_at_ms,
            last_attempt_at_ms: self.last_attempt_at_ms,
            last_error_code: copy_option(&self.last_error_code),
            published_at_ms: self.published_at_ms,
            entitlement_snapshot_ref: copy_option(&self.entitlement_snapshot_ref),
            archive_ref: copy_option(&self.archive_ref),
            record_digest_sha256: copy_option(&self.record_digest_sha256),
            acknowledged_cursor: self.acknowledged_cursor,
            lease_owner: copy_option(&self.lease_owner),
            lease_until_ms: self.lease_until_ms,
            fencing_token: self.fencing_token,
        }
    }

    /// The state as it is stored.
    pub fn value(&self) -> (r: Json)
        ensures
            r@ == status_tree(self@),
    {
        Json::object(
            JsonMap::new().with("state", Json::text(self.state.as_str())).with(
                "attempts",
                Json::Int(self.attempts as i64),
            ).with("nextAttemptAtMs", optional_number(self.next_attempt_at_ms)).with(
                "lastAttemptAtMs",
                optional_number(self.last_attempt_at_ms),
            ).with("lastErrorCode", Json::optional_text(&self.last_error_code)).with(
                "publishedAtMs",
                optional_number(self.published_at_ms),
            ).with(
                "entitlementSnapshotRef",
                Json::optional_text(&self.entitlement_snapshot_ref),
            ).with("archiveRef", Json::optional_text(&self.archive_ref)).with(
                "recordDigestSha256",
                Json::optional_text(&self.record_digest_sha256),
            ).with("acknowledgedCursor", optional_number(self.acknowledged_cursor)).with(
                "leaseOwner",
                Json::optional_text(&self.lease_owner),
            ).with("leaseUntilMs", optional_number(self.lease_until_ms)).with(
                "fencingToken",
                Json::Int(self.fencing_token),
            ),
        )
    }
}

/// The state that storage holds, where it holds one that the outbox writes, and none
/// where there is none.
pub open spec fn stored_status(stored: Stored<ArchiveEvidenceSyncStatus>) -> Result<
    Option<StatusView>,
    ArchiveOutboxError,
> {
    match stored {
        Stored::Absent => Ok(None),
        Stored::Malformed => Err(ArchiveOutboxError::StorageInconsistent),
        Stored::Present(status) => if status@.is_known() {
            Ok(Some(status@))
        } else {
            Err(ArchiveOutboxError::StorageInconsistent)
        },
    }
}

/// The state of evidence: the one that storage holds, or the first one.
pub open spec fn status_or_pending(
    stored: Stored<ArchiveEvidenceSyncStatus>,
    queued_at_ms: i64,
) -> Result<StatusView, ArchiveOutboxError> {
    match stored_status(stored) {
        Ok(Some(status)) => Ok(status),
        Ok(None) => Ok(pending_view(queued_at_ms)),
        Err(error) => Err(error),
    }
}

/// Reads the state that storage holds.
pub fn decode_status(stored: &Stored<ArchiveEvidenceSyncStatus>) -> (r: Result<
    Option<ArchiveEvidenceSyncStatus>,
    ArchiveOutboxError,
>)
    ensures
        match (r, stored_status(*stored)) {
            (Ok(Some(s)), Ok(Some(v))) => s@ == v,
            (Ok(None), Ok(None)) => true,
            (Err(e), Err(error)) => e == error,
            _ => false,
        },
{
    match stored {
        Stored::Absent => Ok(None),
        Stored::Malformed => Err(ArchiveOutboxError::StorageInconsistent),
        Stored::Present(status) => if status.is_known() {
            Ok(Some(status.copy()))
        } else {
            Err(ArchiveOutboxError::StorageInconsistent)
        },
    }
}

/// Reads the state of evidence: the one that storage holds, or the first one.
pub fn read_state_or_default(
    stored: &Stored<ArchiveEvidenceSyncStatus>,
    envelope: &ArchiveEvidenceEnvelope,
) -> (r: Result<ArchiveEvidenceSyncStatus, ArchiveOutboxError>)
    ensures
        match (r, status_or_pending(*stored, envelope.occurred_at_ms)) {
            (Ok(s), Ok(v)) => s@ == v,
            (Err(e), Err(error)) => e == error,
            _ => false,
        },
{
    match decode_status(stored) {
        Ok(Some(status)) => Ok(status),
        Ok(None) => Ok(ArchiveEvidenceSyncStatus::pending(envelope.occurred_at_ms)),
        Err(e) => Err(e),
    }
}

/// The context of a change of state: the authority of the outbox itself.
pub open spec fn state_key(request_id: Seq<char>, action: Seq<char>) -> ContextView {
    ContextView {
        authority: AuthorityView::Given {
            actor: "archive-outbox"@,
            surface: "archive-sync"@,
            account_mode: "local"@,
        },
        idempotency_key: "archive-evidence:"@ + request_id + ":"@ + action,
    }
}

/// The context of a change of state.
pub fn state_context(envelope: &ArchiveEvidenceEnvelope, action: &str) -> (r: WriteContext)
    ensures
        r@ == state_key(envelope@.request_id, action@),
{
    WriteContext {
        authority: WriteAuthority::Given(
            AuthorityContext {
                actor: "archive-outbox".to_owned(),
                surface: "archive-sync".to_owned(),
                account_mode: "local".to_owned(),
            },
        ),
        idempotency_key: join4("archive-evidence:", envelope.request_id.as_str(), ":", action),
    }
}

/// The write of a first state, if there is none.
pub open spec fn first_state_batch(request_id: Seq<char>, status: StatusView, context: ContextView) -> BatchView {
    BatchView {
        writes: seq![
            WriteView {
                namespace: STATES_NS@,
                key: request_id,
                value: status_tree(status),
                context,
            },
        ],
        expectations: seq![
            ExpectationView { namespace: STATES_NS@, key: request_id, value: None },
        ],
    }
}

/// The write of a state in the place of another, if that is still there.
pub open spec fn state_batch(
    request_id: Seq<char>,
    from: StatusView,
    to: StatusView,
    context: ContextView,
) -> BatchView {
    BatchView {
        writes: seq![
            WriteView { namespace: STATES_NS@, key: request_id, value: status_tree(to), context },
        ],
        expectations: seq![
            ExpectationView {
                namespace: STATES_NS@,
                key: request_id,
                value: Some(status_tree(from)),
            },
        ],
    }
}

/// The write of a first state, if there is none.
pub fn first_state(request_id: &str, status: &ArchiveEvidenceSyncStatus, context: &WriteContext) -> (r:
    StorageBatch)
    ensures
        r@ == first_state_batch(request_id@, status@, context@),
{
    StorageBatch::new().write(STATES_NS, request_id, status.value(), context).expect(
        STATES_NS,
        request_id,
        None,
    )
}

/// The write of a state in the place of another, if that is still there.
pub fn change_state(
    request_id: &str,
    from: &ArchiveEvidenceSyncStatus,
    to: &ArchiveEvidenceSyncStatus,
    context: &WriteContext,
) -> (r: StorageBatch)
    ensures
        r@ == state_batch(request_id@, from@, to@, context@),
{
    StorageBatch::new().write(STATES_NS, request_id, to.value(), context).expect(
        STATES_NS,
        request_id,
        Some(from.value()),
    )
}

/// The state of evidence, and the write that puts the first one in its place where
/// storage has lost it.
#[derive(Debug)]
pub struct LoadedState {
    pub status: ArchiveEvidenceSyncStatus,
    pub repair: Option<StorageBatch>,
}

/// Whether a loaded state is the one of storage.
pub open spec fn loads(
    loaded: Result<LoadedState, ArchiveOutboxError>,
    stored: Stored<ArchiveEvidenceSyncStatus>,
    request_id: Seq<char>,
    occurred_at_ms: i64,
) -> bool {
    match (loaded, stored_status(stored)) {
        (Ok(l), Ok(Some(v))) => l.status@ == v && l.repair is None,
        (Ok(l), Ok(None)) => l.status@ == pending_view(occurred_at_ms) && (l.repair matches Some(batch)
            && batch@ == first_state_batch(
            request_id,
            pending_view(occurred_at_ms),
            state_key(request_id, "repair"@),
        )),
        (Err(e), Err(error)) => e == error,
        _ => false,
    }
}

/// Loads the state of evidence, and repairs it where storage has lost it.
pub fn load_or_repair_state(
    stored: &Stored<ArchiveEvidenceSyncStatus>,
    envelope: &ArchiveEvidenceEnvelope,
) -> (r: Result<LoadedState, ArchiveOutboxError>)
    ensures
        loads(r, *stored, envelope@.request_id, envelope.occurred_at_ms),
{
    match decode_status(stored) {
        Ok(Some(status)) => Ok(LoadedState { status, repair: None }),
        Ok(None) => {
            let status = ArchiveEvidenceSyncStatus::pending(envelope.occurred_at_ms);
            let context = state_context(envelope, "repair");
            let repair = first_state(envelope.request_id.as_str(), &status, &context);
            Ok(LoadedState { status, repair: Some(repair) })
        },
        Err(e) => Err(e),
    }
}

/// The time so many milliseconds later, held within an `i64`.
pub open spec fn later(now_ms: i64, delay_ms: int) -> i64 {
    if now_ms + delay_ms > i64::MAX {
        i64::MAX
    } else {
        (now_ms + delay_ms) as i64
    }
}

fn after(now_ms: i64, delay_ms: i64) -> (r: i64)
    requires
        0 <= delay_ms,
    ensures
        r == later(now_ms, delay_ms as int),
{
    if now_ms > i64::MAX - delay_ms {
        i64::MAX
    } else {
        now_ms + delay_ms
    }
}

/// The state of evidence that a worker has claimed.
pub open spec fn claimed_view(s: StatusView, owner: Seq<char>, now_ms: i64) -> StatusView {
    StatusView {
        state: "leased"@,
        attempts: if s.attempts < u32::MAX {
            s.attempts + 1
        } else {
            s.attempts
        },
        last_attempt_at_ms: Some(now_ms),
        next_attempt_at_ms: None,
        lease_owner: Some(owner),
        lease_until_ms: Some(later(now_ms, LEASE_MS as int)),
        fencing_token: if s.fencing_token < i64::MAX {
            s.fencing_token + 1
        } else {
            s.fencing_token
        },
        ..s
    }
}

/// What a claim asks for.
#[derive(Debug)]
pub enum ClaimStep {
    /// The evidence is not due.
    NotDue,
    /// The claim, and the write that makes it: it is lost where the write does not go
    /// through.
    Claim { claimed: ArchiveEvidenceSyncStatus, batch: StorageBatch },
}

/// Claims evidence that is due.
pub fn claim_due(
    current: &ArchiveEvidenceSyncStatus,
    envelope: &ArchiveEvidenceEnvelope,
    owner: &str,
    now_ms: i64,
) -> (r: ClaimStep)
    ensures
        match r {
            ClaimStep::NotDue => !current@.due(now_ms),
            ClaimStep::Claim { claimed, batch } => {
                let to = claimed_view(current@, owner@, now_ms);
                &&& current@.due(now_ms)
                &&& claimed@ == to
                &&& batch@ == state_batch(
                    envelope@.request_id,
                    current@,
                    to,
                    state_key(
                        envelope@.request_id,
                        "claim-"@ + text::signed_decimal(to.fencing_token),
                    ),
                )
            },
        },
{
    if !current.due(now_ms) {
        return ClaimStep::NotDue;
    }
    let mut claimed = current.copy();
    claimed.state = "leased".to_owned();
    if claimed.attempts < u32::MAX {
        claimed.attempts = claimed.attempts + 1;
    }
    claimed.last_attempt_at_ms = Some(now_ms);
    claimed.next_attempt_at_ms = None;
    claimed.lease_owner = Some(owner.to_owned());
    claimed.lease_until_ms = Some(after(now_ms, LEASE_MS));
    if claimed.fencing_token < i64::MAX {
        claimed.fencing_token = claimed.fencing_token + 1;
    }
    let number = signed_decimal_text(claimed.fencing_token);
    let action = join2("claim-", number.as_str());
    let context = state_context(envelope, action.as_str());
    let batch = change_state(envelope.request_id.as_str(), current, &claimed, &context);
    ClaimStep::Claim { claimed, batch }
}

/// The receipt of the archive.
#[derive(Debug)]
pub struct ArchiveIngestReceipt {
    pub schema: String,
    pub request_id: String,
    pub idempotency_key: String,
    pub request_digest_sha256: String,
    pub entitlement_snapshot_ref: String,
    pub archive_ref: String,
    pub record_digest_sha256: String,
    /// The place in an ordered archive, where the archive has one.
    pub archive_cursor: Option<i64>,
}

/// The record that the archive keeps of an envelope.
pub open spec fn archive_record_tree(e: EnvelopeView, entitlement_snapshot_ref: Seq<char>) -> JsonTree {
    JsonTree::Object(
        map![
            "schema"@ => JsonTree::Text(CLOUD_ARCHIVE_RECORD_SCHEMA@),
            "tenantId"@ => JsonTree::Text(e.tenant_id),
            "workspaceId"@ => JsonTree::Text(e.workspace_id),
            "toolName"@ => JsonTree::Text(e.tool_name),
            "requestId"@ => JsonTree::Text(e.request_id),
            "requestDigestSha256"@ => JsonTree::Text(e.request_digest_sha256),
            "entitlementSnapshotRef"@ => JsonTree::Text(entitlement_snapshot_ref),
            "occurredAtMs"@ => JsonTree::Int(e.occurred_at_ms),
            "redactedPayload"@ => e.payload
        ],
    )
}

/// The digest of the record that the archive keeps of an envelope. The envelope holds
/// no sensitive key, so the redacted payload of the archive is the payload itself.
pub fn cloud_archive_record_digest(
    envelope: &ArchiveEvidenceEnvelope,
    entitlement_snapshot_ref: &str,
) -> (r: Option<String>)
    ensures
        text::option_text(r) == envelope::canonical_sum(
            archive_record_tree(envelope@, entitlement_snapshot_ref@),
        ),
{
    let record = Json::object(
        JsonMap::new().with("schema", Json::text(CLOUD_ARCHIVE_RECORD_SCHEMA)).with(
            "tenantId",
            Json::text(envelope.tenant_id.as_str()),
        ).with("workspaceId", Json::text(envelope.workspace_id.as_str())).with(
            "toolName",
            Json::text(envelope.tool_name.as_str()),
        ).with("requestId", Json::text(envelope.request_id.as_str())).with(
            "requestDigestSha256",
            Json::text(envelope.request_digest_sha256.as_str()),
        ).with("entitlementSnapshotRef", Json::text(entitlement_snapshot_ref)).with(
            "occurredAtMs",
            Json::Int(envelope.occurred_at_ms),
        ).with("redactedPayload", envelope.payload.copy()),
    );
    match canonical_form_of(&record) {
        Some(form) => Some(form.sum),
        None => None,
    }
}

/// Whether a receipt is one of the envelope, given the digest of the record that the
/// archive has to keep.
pub open spec fn receipt_agrees(
    receipt: ArchiveIngestReceipt,
    e: EnvelopeView,
    record: Option<Seq<char>>,
) -> bool {
    &&& receipt.schema@ == ARCHIVE_INGEST_SCHEMA@
    &&& receipt.request_id@ == e.request_id
    &&& receipt.idempotency_key@ == e.idempotency_key
    &&& receipt.request_digest_sha256@ == e.request_digest_sha256
    &&& envelope::identifier_is_safe(receipt.entitlement_snapshot_ref@)
    &&& envelope::identifier_is_safe(receipt.archive_ref@)
    &&& envelope::is_sha256(receipt.record_digest_sha256@)
    &&& record == Some(receipt.record_digest_sha256@)
    &&& receipt.archive_cursor matches Some(cursor) ==> cursor >= 0
}

/// Whether a receipt is one of the envelope.
pub open spec fn receipt_is_valid(receipt: ArchiveIngestReceipt, e: EnvelopeView) -> bool {
    receipt_agrees(
        receipt,
        e,
        envelope::canonical_sum(archive_record_tree(e, receipt.entitlement_snapshot_ref@)),
    )
}

/// Tests a receipt against the envelope and the digest of the record that the archive
/// has to keep.
pub fn receipt_matches_record(
    receipt: &ArchiveIngestReceipt,
    envelope: &ArchiveEvidenceEnvelope,
    record: &Option<String>,
) -> (r: bool)
    ensures
        r == receipt_agrees(*receipt, envelope@, text::option_text(*record)),
{
    let cursor: bool = match receipt.archive_cursor {
        Some(n) => n >= 0,
        None => true,
    };
    let kept: bool = match record {
        Some(expected) => same(expected.as_str(), receipt.record_digest_sha256.as_str()),
        None => false,
    };
    same(receipt.schema.as_str(), ARCHIVE_INGEST_SCHEMA) && same(
        receipt.request_id.as_str(),
        envelope.request_id.as_str(),
    ) && same(receipt.idempotency_key.as_str(), envelope.idempotency_key.as_str()) && same(
        receipt.request_digest_sha256.as_str(),
        envelope.request_digest_sha256.as_str(),
    ) && is_safe_identifier(receipt.entitlement_snapshot_ref.as_str()) && is_safe_identifier(
        receipt.archive_ref.as_str(),
    ) && valid_sha256(receipt.record_digest_sha256.as_str()) && kept && cursor
}

/// Tests whether a receipt is one of the envelope.
pub fn receipt_matches(receipt: &ArchiveIngestReceipt, envelope: &ArchiveEvidenceEnvelope) -> (r: bool)
    ensures
        r == receipt_is_valid(*receipt, envelope@),
{
    let record = cloud_archive_record_digest(envelope, receipt.entitlement_snapshot_ref.as_str());
    receipt_matches_record(receipt, envelope, &record)
}

/// How a transport failed.
#[derive(Debug)]
pub struct ArchiveTransportFailure {
    pub code: String,
    pub retryable: bool,
}

impl ArchiveTransportFailure {
    /// A failure with a code that is safe to keep.
    pub fn new(code: &str, retryable: bool) -> (r: ArchiveTransportFailure)
        ensures
            r.code@ == envelope::safe_code(code@),
            r.retryable == retryable,
    {
        ArchiveTransportFailure { code: safe_error_code(code), retryable }
    }
}

/// What an answer of the archive amounts to.
#[derive(Debug)]
pub enum IngestVerdict {
    Acknowledged(ArchiveIngestReceipt),
    Failed(ArchiveTransportFailure),
}

/// Whether a verdict is the one on an answer.
pub open spec fn verdict_is_on(
    r: IngestVerdict,
    answer: Result<ArchiveIngestReceipt, ArchiveTransportFailure>,
    e: EnvelopeView,
) -> bool {
    match answer {
        Ok(receipt) => if receipt_is_valid(receipt, e) {
            r matches IngestVerdict::Acknowledged(given) && given == receipt
        } else {
            r matches IngestVerdict::Failed(f) && !f.retryable && f.code@
                == "archive_ack_integrity_mismatch"@
        },
        Err(failure) => r matches IngestVerdict::Failed(f) && f == failure,
    }
}

/// Judges an answer of the archive: a receipt that is not one of the envelope is a
/// failure that an operator has to look at.
pub fn judge_answer(
    answer: Result<ArchiveIngestReceipt, ArchiveTransportFailure>,
    envelope: &ArchiveEvidenceEnvelope,
) -> (r: IngestVerdict)
    ensures
        verdict_is_on(r, answer, envelope@),
{
    match answer {
        Ok(receipt) => if receipt_matches(&receipt, envelope) {
            IngestVerdict::Acknowledged(receipt)
        } else {
            IngestVerdict::Failed(
                ArchiveTransportFailure {
                    code: "archive_ack_integrity_mismatch".to_owned(),
                    retryable: false,
                },
            )
        },
        Err(failure) => IngestVerdict::Failed(failure),
    }
}

/// The descriptor of a transport to the archive. It is local until an adapter brings the
/// configuration of a cloud.
pub fn archive_transport_descriptor(adapter_id: &str) -> (r: PortDescriptor)
    ensures
        r@ == (ports::DescriptorView {
            kind: PortKind::Outbox,
            adapter_id: adapter_id@,
            profiles: seq!["local"@, "self-hosted"@],
            capabilities: seq![
                "archive.ingest.redacted-evidence"@,
                "archive.idempotent-replay"@,
                "archive.integrity.sha256-jcs"@,
            ],
            failure_mode: Some(FailureMode::LocalOnly),
            configuration_schema: Some(
                JsonTree::Object(
                    map![
                        "type"@ => JsonTree::Text("object"@),
                        "additionalProperties"@ => JsonTree::Bool(false),
                    ],
                ),
            ),
            redaction_rules: seq![
                "credential-free"@,
                "redacted-evidence-only"@,
                "no-raw-transport-errors"@,
            ],
        }),
{
    let schema = JsonMap::new().with("type", Json::text("object")).with(
        "additionalProperties",
        Json::Bool(false),
    );
    proof {
        reveal_strlit("type");
        reveal_strlit("additionalProperties");
        assert("type"@.len() != "additionalProperties"@.len());
    }
    let plain = PortDescriptor::new(PortKind::Outbox, adapter_id).for_profile("local").for_profile(
        "self-hosted",
    ).with_capability("archive.ingest.redacted-evidence").with_capability(
        "archive.idempotent-replay",
    ).with_capability("archive.integrity.sha256-jcs").with_redaction_rule(
        "credential-free",
    ).with_redaction_rule("redacted-evidence-only").with_redaction_rule("no-raw-transport-errors");
    let r = PortDescriptor {
        failure_mode: Some(FailureMode::LocalOnly),
        configuration_schema: Some(Json::Object(schema)),
        ..plain
    };
    assert(r@.configuration_schema->Some_0->Object_0 =~= map![
        "type"@ => JsonTree::Text("object"@),
        "additionalProperties"@ => JsonTree::Bool(false),
    ]);
    assert(r@.profiles =~= seq!["local"@, "self-hosted"@]);
    assert(r@.capabilities =~= seq![
        "archive.ingest.redacted-evidence"@,
        "archive.idempotent-replay"@,
        "archive.integrity.sha256-jcs"@,
    ]);
    assert(r@.redaction_rules =~= seq![
        "credential-free"@,
        "redacted-evidence-only"@,
        "no-raw-transport-errors"@,
    ]);
    r
}

/// The archive, as the outbox reaches it. It keeps the identifiers of a request as durable
/// keys, and answers an exact repetition with the same receipt.
pub trait ArchiveTransportPort {
    fn ingest(&self, request: &ArchiveIngestRequest) -> Result<
        ArchiveIngestReceipt,
        ArchiveTransportFailure,
    >;
}

/// The state of evidence that the archive has acknowledged.
pub open spec fn published_view(s: StatusView, now_ms: i64, receipt: ArchiveIngestReceipt) -> StatusView {
    StatusView {
        state: "published"@,
        next_attempt_at_ms: None,
        last_error_code: None,
        published_at_ms: Some(now_ms),
        entitlement_snapshot_ref: Some(receipt.entitlement_snapshot_ref@),
        archive_ref: Some(receipt.archive_ref@),
        record_digest_sha256: Some(receipt.record_digest_sha256@),
        acknowledged_cursor: receipt.archive_cursor,
        lease_owner: None,
        lease_until_ms: None,
        ..s
    }
}

/// The write that marks claimed evidence as published.
pub fn mark_published(
    envelope: &ArchiveEvidenceEnvelope,
    claimed: &ArchiveEvidenceSyncStatus,
    now_ms: i64,
    receipt: &ArchiveIngestReceipt,
) -> (r: StorageBatch)
    ensures
        r@ == state_batch(
            envelope@.request_id,
            claimed@,
            published_view(claimed@, now_ms, *receipt),
            state_key(
                envelope@.request_id,
                "published-"@ + text::signed_decimal(claimed@.fencing_token),
            ),
        ),
{
    let mut published = claimed.copy();
    published.state = "published".to_owned();
    published.next_attempt_at_ms = None;
    published.last_error_code = None;
    published.published_at_ms = Some(now_ms);
    published.entitlement_snapshot_ref = Some(receipt.entitlement_snapshot_ref.clone());
    published.archive_ref = Some(receipt.archive_ref.clone());
    published.record_digest_sha256 = Some(receipt.record_digest_sha256.clone());
    published.acknowledged_cursor = receipt.archive_cursor;
    published.lease_owner = None;
    published.lease_until_ms = None;
    let number = signed_decimal_text(claimed.fencing_token);
    let action = join2("published-", number.as_str());
    let context = state_context(envelope, action.as_str());
    change_state(envelope.request_id.as_str(), claimed, &published, &context)
}

/// How long to wait after so many attempts: twice as long each time, up to a minute.
pub open spec fn retry_delay(attempts: int) -> int {
    if attempts <= 1 {
        1_000
    } else if attempts == 2 {
        2_000
    } else if attempts == 3 {
        4_000
    } else if attempts == 4 {
        8_000
    } else if attempts == 5 {
        16_000
    } else if attempts == 6 {
        32_000
    } else {
        60_000
    }
}

/// Computes how long to wait after so many attempts.
pub fn retry_delay_ms(attempts: u32) -> (r: i64)
    ensures
        r == retry_delay(attempts as int),
{
    let earlier: u32 = if attempts == 0 {
        0
    } else {
        attempts - 1
    };
    let mut delay: i64 = 1_000;
    let mut i: u32 = 0;
    let most: u32 = if earlier < 6 {
        earlier
    } else {
        6
    };
    while i < most
        invariant
            i <= most <= 6,
            i == 0 ==> delay == 1_000,
            i == 1 ==> delay == 2_000,
            i == 2 ==> delay == 4_000,
            i == 3 ==> delay == 8_000,
            i == 4 ==> delay == 16_000,
            i == 5 ==> delay == 32_000,
            i == 6 ==> delay == 64_000,
        decreases most - i,
    {
        delay = delay * 2;
        i += 1;
    }
    if delay < 60_000 {
        delay
    } else {
        60_000
    }
}

/// The state of evidence that could not be delivered.
pub open spec fn failed_view(s: StatusView, now_ms: i64, failure: ArchiveTransportFailure) -> StatusView {
    StatusView {
        state: if failure.retryable {
            "unavailable"@
        } else {
            "reconciliation_required"@
        },
        next_attempt_at_ms: if failure.retryable {
            Some(later(now_ms, retry_delay(s.attempts)))
        } else {
            None
        },
        last_error_code: Some(failure.code@),
        lease_owner: None,
        lease_until_ms: None,
        ..s
    }
}

/// The write that marks claimed evidence as not delivered.
pub fn mark_failure(
    envelope: &ArchiveEvidenceEnvelope,
    claimed: &ArchiveEvidenceSyncStatus,
    now_ms: i64,
    failure: &ArchiveTransportFailure,
) -> (r: StorageBatch)
    ensures
        r@ == state_batch(
            envelope@.request_id,
            claimed@,
            failed_view(claimed@, now_ms, *failure),
            state_key(
                envelope@.request_id,
                "failed-"@ + text::signed_decimal(claimed@.fencing_token),
            ),
        ),
{
    let mut replacement = claimed.copy();
    if failure.retryable {
        replacement.state = "unavailable".to_owned();
        replacement.next_attempt_at_ms = Some(after(now_ms, retry_delay_ms(claimed.attempts)));
    } else {
        replacement.state = "reconciliation_required".to_owned();
        replacement.next_attempt_at_ms = None;
    }
    replacement.last_error_code = Some(failure.code.clone());
    replacement.lease_owner = None;
    replacement.lease_until_ms = None;
    let number = signed_decimal_text(claimed.fencing_token);
    let action = join2("failed-", number.as_str());
    let context = state_context(envelope, action.as_str());
    change_state(envelope.request_id.as_str(), claimed, &replacement, &context)
}

/// The state of evidence that is asked for again.
pub open spec fn requeued_view(s: StatusView, now_ms: i64) -> StatusView {
    StatusView {
        state: "pending"@,
        next_attempt_at_ms: Some(now_ms),
        last_error_code: None,
        lease_owner: None,
        lease_until_ms: None,
        ..s
    }
}

/// Published evidence is never tried again.
pub proof fn published_is_never_due(s: StatusView, now_ms: i64, receipt: ArchiveIngestReceipt, at_ms: i64)
    ensures
        !published_view(s, now_ms, receipt).due(at_ms),
{
}

/// Evidence that an operator has to look at is not tried again until it is asked for.
pub proof fn reconciliation_waits_for_operator(
    s: StatusView,
    now_ms: i64,
    failure: ArchiveTransportFailure,
    at_ms: i64,
)
    requires
        !failure.retryable,
    ensures
        !failed_view(s, now_ms, failure).due(at_ms),
        requeued_view(failed_view(s, now_ms, failure), at_ms).due(at_ms),
{
    reveal_strlit("pending");
    reveal_strlit("published");
    reveal_strlit("reconciliation_required");
    reveal_strlit("leased");
    assert("pending"@.len() == 7);
    assert("published"@.len() == 9);
    assert("reconciliation_required"@.len() == 23);
    assert("leased"@.len() == 6);
}

/// While a worker holds a claim, no other worker can claim the evidence.
pub proof fn claim_is_exclusive(s: StatusView, owner: Seq<char>, now_ms: i64, at_ms: i64)
    requires
        at_ms < later(now_ms, LEASE_MS as int),
    ensures
        !claimed_view(s, owner, now_ms).due(at_ms),
{
}

/// A claim that its worker has abandoned can be claimed again once it has run out.
pub proof fn abandoned_claim_is_due_again(s: StatusView, owner: Seq<char>, now_ms: i64, at_ms: i64)
    requires
        later(now_ms, LEASE_MS as int) <= at_ms,
    ensures
        claimed_view(s, owner, now_ms).due(at_ms),
{
    reveal_strlit("published");
    reveal_strlit("reconciliation_required");
    reveal_strlit("leased");
    assert("published"@.len() == 9);
    assert("reconciliation_required"@.len() == 23);
    assert("leased"@.len() == 6);
}

/// A claim has a fencing token that no earlier claim had.
pub proof fn claims_are_fenced(s: StatusView, owner: Seq<char>, now_ms: i64)
    requires
        s.fencing_token < i64::MAX,
    ensures
        claimed_view(s, owner, now_ms).fencing_token > s.fencing_token,
{
}

/// The wait after a failure never shrinks with the number of attempts and is never
/// more than a minute.
pub proof fn retry_delay_grows(a: int, b: int)
    requires
        a <= b,
    ensures
        1_000 <= retry_delay(a) <= retry_delay(b) <= 60_000,
{
}

} // verus!
