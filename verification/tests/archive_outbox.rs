use std::collections::BTreeMap;

use tradeassembly_runtime::ai::clean_json_content;
use tradeassembly_runtime::archive_outbox::enqueue_pass::{
    EnqueueStep, OutboxAction, OutboxEvent, RequeueCase, RequeueStep,
};
use tradeassembly_runtime::archive_outbox::envelope::{
    canonical_form_of, contains_sensitive_key, decode_envelope, idempotency_mapping,
    is_safe_identifier, safe_error_code, valid_sha256, ArchiveEvidenceEnvelope,
    ArchiveEvidenceInput, ArchiveEvidenceKind, ArchiveIngestRequest, ArchiveOutboxError,
};
use tradeassembly_runtime::archive_outbox::state::{
    claim_due, cloud_archive_record_digest, judge_answer, load_or_repair_state, mark_failure,
    mark_published, receipt_matches, retry_delay_ms, ArchiveEvidenceSyncStatus,
    ArchiveIngestReceipt, ArchiveTransportFailure, ArchiveTransportPort, ClaimStep, IngestVerdict,
    STATES_NS,
};
use tradeassembly_runtime::archive_outbox::store::{
    plan_enqueue, ArchiveEnqueueReceipt, ArchiveEvidenceOutbox, ArchiveEvidenceQuery,
    LoadedEvidence, IDEMPOTENCY_NS, RECORDS_NS,
};
use tradeassembly_runtime::archive_outbox::sync::{
    after_status_write, check_sync, item_outcome, max_cursor, read_scan_cursor, settle_evidence,
    store_scan_cursor, store_sync_status, ArchiveSyncReport, ArchiveSyncRun, ItemOutcome,
    StatusStep, STATUS_ATTEMPTS, SYNC_CURSOR_NS, SYNC_STATUS_KEY, SYNC_STATUS_NS,
};
use tradeassembly_runtime::archive_outbox::sync_pass::{
    SyncAction, SyncCase, SyncEvent, SyncStep,
};
use tradeassembly_runtime::json::Json;
use tradeassembly_runtime::ports::{
    AuthorityContext, SideEffectContext, StorageBatch, StorageWrite, Stored, WriteAuthority,
};

fn parse(text: &str) -> Json {
    Json::Object(clean_json_content(text).expect("valid text"))
}

fn input(request_id: &str) -> ArchiveEvidenceInput {
    ArchiveEvidenceInput {
        tenant_id: "tenant".to_string(),
        workspace_id: "workspace".to_string(),
        tool_name: "archive".to_string(),
        request_id: request_id.to_string(),
        evidence_kind: ArchiveEvidenceKind::Event,
        source: "source".to_string(),
        aggregate_id: "aggregate".to_string(),
        occurred_at_ms: 1_000,
        payload: parse(r#"{"fact": 1}"#),
        context: SideEffectContext {
            authority: AuthorityContext {
                actor: "local".to_string(),
                surface: "cli".to_string(),
                account_mode: "paper".to_string(),
            },
            idempotency_key: format!("key-{request_id}"),
        },
        authority: parse(r#"{"actor": "local"}"#),
    }
}

fn envelope(request_id: &str) -> ArchiveEvidenceEnvelope {
    plan_enqueue(&input(request_id))
        .expect("a plan")
        .receipt
        .evidence
}

fn receipt(e: &ArchiveEvidenceEnvelope) -> ArchiveIngestReceipt {
    ArchiveIngestReceipt {
        schema: e.schema.clone(),
        request_id: e.request_id.clone(),
        idempotency_key: e.idempotency_key.clone(),
        request_digest_sha256: e.request_digest_sha256.clone(),
        entitlement_snapshot_ref: "entitlement".to_string(),
        archive_ref: "archive".to_string(),
        record_digest_sha256: cloud_archive_record_digest(e, "entitlement").expect("a digest"),
        archive_cursor: Some(7),
    }
}

fn claimed(e: &ArchiveEvidenceEnvelope) -> ArchiveEvidenceSyncStatus {
    match claim_due(&ArchiveEvidenceSyncStatus::pending(1_000), e, "owner", 2_000) {
        ClaimStep::Claim { claimed, .. } => claimed,
        ClaimStep::NotDue => panic!("not due"),
    }
}

fn written_state(batch: &StorageBatch) -> &Json {
    &batch.writes[0].value
}

#[test]
fn evidence_is_sealed_when_it_is_queued() {
    let plan = plan_enqueue(&input("r1")).expect("a plan");
    assert!(!plan.receipt.duplicate);
    let e = plan.receipt.evidence;
    assert!(e.verify_integrity().is_ok());
    assert!(valid_sha256(&e.payload_sha256));
    assert!(e.ingest_request().verify().is_ok());
    assert!(e.equals(&e.copy()));
    let form = canonical_form_of(&e.payload).expect("a form");
    assert_eq!(form.sum, e.payload_sha256);
    assert!(idempotency_mapping(&e).field_is("requestId", "r1"));
}

#[test]
fn canonical_forms_sort_their_members() {
    let form = canonical_form_of(&parse(r#"{"b": "x", "a": 1}"#)).expect("a form");
    assert_eq!(form.len, 15);
    assert_eq!(
        form.sum,
        "ecf9e98ec0641e23113ff3ce8bdc78d0ddd249886517fd4a7f68cc83d4e65667"
    );
}

#[test]
fn evidence_that_was_changed_is_not_intact() {
    let mut changed = envelope("r1");
    changed.occurred_at_ms = 1_001;
    assert_eq!(
        changed.verify_integrity(),
        Err(ArchiveOutboxError::IntegrityMismatch)
    );
    let mut swapped = envelope("r1");
    swapped.payload = parse(r#"{"fact": 2}"#);
    assert!(swapped.verify_integrity().is_err());
    assert!(decode_envelope(Stored::Malformed).is_err());
}

#[test]
fn faults_of_an_input_have_their_codes() {
    let refuse = |change: fn(&mut ArchiveEvidenceInput)| {
        let mut asked = input("r1");
        change(&mut asked);
        match ArchiveEvidenceOutbox::begin_enqueue(&asked) {
            EnqueueStep::End(Err(e)) => e,
            _ => panic!("accepted"),
        }
    };
    assert_eq!(
        refuse(|i| i.request_id = " ".to_string()),
        ArchiveOutboxError::RequestIdRequired
    );
    assert_eq!(
        refuse(|i| i.source = "".to_string()),
        ArchiveOutboxError::SourceRequired
    );
    assert_eq!(
        refuse(|i| i.aggregate_id = "".to_string()),
        ArchiveOutboxError::AggregateIdRequired
    );
    assert_eq!(
        refuse(|i| i.tenant_id = "no space".to_string()),
        ArchiveOutboxError::InvalidIdentifier
    );
    assert_eq!(
        refuse(|i| i.occurred_at_ms = 0),
        ArchiveOutboxError::InvalidOccurredAt
    );
    assert_eq!(
        refuse(|i| i.payload = Json::Int(1)),
        ArchiveOutboxError::InvalidPayload
    );
    assert_eq!(
        refuse(|i| i.payload = parse(r#"{"deep": {"apiKey": "x"}}"#)),
        ArchiveOutboxError::SensitivePayload
    );
    assert_eq!(
        refuse(|i| i.payload = Json::Object(
            clean_json_content(&format!("{{\"x\": \"{}\"}}", "y".repeat(70_000))).expect("text")
        )),
        ArchiveOutboxError::PayloadTooLarge
    );
    assert!(contains_sensitive_key(&parse(r#"{"Access-Token": 1}"#)));
    assert!(is_safe_identifier("a-b_c.d:e"));
    assert!(!is_safe_identifier("a b"));
}

#[test]
fn every_error_has_a_code() {
    for error in [
        ArchiveOutboxError::RequestIdRequired,
        ArchiveOutboxError::InvalidEnvelope,
        ArchiveOutboxError::IdempotencyConflict,
        ArchiveOutboxError::RequestIdConflict,
        ArchiveOutboxError::StorageUnavailable,
        ArchiveOutboxError::StorageInconsistent,
        ArchiveOutboxError::InvalidSyncOwner,
        ArchiveOutboxError::InvalidLimit,
    ] {
        assert!(error.code().starts_with("archive_"));
    }
    assert_eq!(safe_error_code("transport_down"), "transport_down");
    assert_ne!(safe_error_code("contains secret text!"), "contains secret text!");
}

#[test]
fn a_claim_is_exclusive_until_it_ends() {
    let e = envelope("r1");
    let held = claimed(&e);
    assert_eq!(held.attempts, 1);
    assert_eq!(held.fencing_token, 1);
    assert_eq!(held.lease_until_ms, Some(32_000));
    assert!(!held.due(31_999));
    assert!(held.due(32_000));
    assert!(matches!(
        claim_due(&held, &e, "other", 31_999),
        ClaimStep::NotDue
    ));
    match claim_due(&held, &e, "other", 32_000) {
        ClaimStep::Claim { claimed, .. } => assert_eq!(claimed.fencing_token, 2),
        ClaimStep::NotDue => panic!("not due"),
    }
}

#[test]
fn answers_are_judged_by_their_receipts() {
    let e = envelope("r1");
    assert!(receipt_matches(&receipt(&e), &e));
    assert!(matches!(
        judge_answer(Ok(receipt(&e)), &e),
        IngestVerdict::Acknowledged(_)
    ));
    let mut forged = receipt(&e);
    forged.record_digest_sha256 = "0".repeat(64);
    match judge_answer(Ok(forged), &e) {
        IngestVerdict::Failed(failure) => assert!(!failure.retryable),
        IngestVerdict::Acknowledged(_) => panic!("accepted"),
    }
    let published = mark_published(&e, &claimed(&e), 3_000, &receipt(&e));
    assert!(written_state(&published).field_is("state", "published"));
    assert_eq!(written_state(&published).i64_field("acknowledgedCursor"), Some(7));
    let down = ArchiveTransportFailure::new("transport_down", true);
    let failed = mark_failure(&e, &claimed(&e), 3_000, &down);
    assert_eq!(
        written_state(&failed).i64_field("nextAttemptAtMs"),
        Some(3_000 + retry_delay_ms(1))
    );
    let refused = ArchiveTransportFailure::new("refused", false);
    let waits = mark_failure(&e, &claimed(&e), 3_000, &refused);
    assert!(written_state(&waits).field_is("state", "reconciliation_required"));
}

/// An archive that acknowledges one request and refuses the others.
struct Archive {
    known: ArchiveEvidenceEnvelope,
}

impl ArchiveTransportPort for Archive {
    fn ingest(
        &self,
        request: &ArchiveIngestRequest,
    ) -> Result<ArchiveIngestReceipt, ArchiveTransportFailure> {
        if request.request_id == self.known.request_id
            && request.payload_sha256 == self.known.payload_sha256
        {
            Ok(receipt(&self.known))
        } else {
            Err(ArchiveTransportFailure::new("refused", false))
        }
    }
}

#[test]
fn claimed_evidence_is_settled_by_the_answer() {
    let e = envelope("r1");
    let acknowledged = || IngestVerdict::Acknowledged(receipt(&e));
    let settled = settle_evidence(&e, &claimed(&e), 3_000, &acknowledged());
    assert!(written_state(&settled).field_is("state", "published"));
    assert!(matches!(item_outcome(acknowledged(), true), ItemOutcome::Published(Some(7))));
    assert!(matches!(item_outcome(acknowledged(), false), ItemOutcome::LeaseLost));
    let down = || IngestVerdict::Failed(ArchiveTransportFailure::new("transport_down", true));
    let settled = settle_evidence(&e, &claimed(&e), 3_000, &down());
    assert!(written_state(&settled).field_is("state", "unavailable"));
    assert!(matches!(item_outcome(down(), true), ItemOutcome::Failed(f) if f.retryable));
}

#[test]
fn waits_double_up_to_a_minute() {
    let waits: Vec<i64> = (0..9).map(retry_delay_ms).collect();
    assert_eq!(
        waits,
        vec![1_000, 1_000, 2_000, 4_000, 8_000, 16_000, 32_000, 60_000, 60_000]
    );
}

#[test]
fn a_lost_state_is_repaired() {
    let e = envelope("r1");
    let loaded = load_or_repair_state(&Stored::Absent, &e).expect("a state");
    assert!(loaded.repair.is_some());
    assert_eq!(loaded.status.state, "pending");
    assert!(load_or_repair_state(&Stored::Malformed, &e).is_err());
}

fn text(value: &Json, key: &str) -> String {
    value.text_field(key).expect("a text")
}

fn read_envelope(value: &Json) -> ArchiveEvidenceEnvelope {
    ArchiveEvidenceEnvelope {
        schema: text(value, "schema"),
        tenant_id: text(value, "tenantId"),
        workspace_id: text(value, "workspaceId"),
        tool_name: text(value, "toolName"),
        request_id: text(value, "requestId"),
        idempotency_key: text(value, "idempotencyKey"),
        payload: value.field("payload").expect("a payload").copy(),
        payload_sha256: text(value, "payloadSha256"),
        occurred_at_ms: value.i64_field("occurredAtMs").expect("a time"),
        request_digest_sha256: text(value, "requestDigestSha256"),
    }
}

fn read_status(value: &Json) -> ArchiveEvidenceSyncStatus {
    ArchiveEvidenceSyncStatus {
        state: text(value, "state"),
        attempts: value.i64_field("attempts").expect("a count") as u32,
        next_attempt_at_ms: value.i64_field("nextAttemptAtMs"),
        last_attempt_at_ms: value.i64_field("lastAttemptAtMs"),
        last_error_code: value.text_field("lastErrorCode"),
        published_at_ms: value.i64_field("publishedAtMs"),
        entitlement_snapshot_ref: value.text_field("entitlementSnapshotRef"),
        archive_ref: value.text_field("archiveRef"),
        record_digest_sha256: value.text_field("recordDigestSha256"),
        acknowledged_cursor: value.i64_field("acknowledgedCursor"),
        lease_owner: value.text_field("leaseOwner"),
        lease_until_ms: value.i64_field("leaseUntilMs"),
        fencing_token: value.i64_field("fencingToken").expect("a token"),
    }
}

fn read<T>(value: Option<Json>, reader: fn(&Json) -> T) -> Stored<T> {
    match value {
        Some(value) => Stored::Present(reader(&value)),
        None => Stored::Absent,
    }
}

/// Storage in memory, of which the action with a number fails, and which tells what was
/// written under which authority.
struct Shelf {
    records: BTreeMap<(String, String), Json>,
    broken: Option<usize>,
    asked: usize,
    log: Vec<String>,
}

impl Shelf {
    fn new() -> Shelf {
        Shelf { records: BTreeMap::new(), broken: None, asked: 0, log: Vec::new() }
    }

    fn get(&self, namespace: &str, key: &str) -> Option<Json> {
        self.records
            .get(&(namespace.to_string(), key.to_string()))
            .map(Json::copy)
    }

    fn put(&mut self, namespace: &str, key: &str, value: Json) {
        self.records
            .insert((namespace.to_string(), key.to_string()), value);
    }

    fn remove(&mut self, namespace: &str, key: &str) {
        self.records
            .remove(&(namespace.to_string(), key.to_string()));
    }

    fn state(&self, request_id: &str) -> ArchiveEvidenceSyncStatus {
        read_status(&self.get(STATES_NS, request_id).expect("a state"))
    }

    fn note(&mut self, write: &StorageWrite) {
        let actor = match &write.context.authority {
            WriteAuthority::LocalCli => "cli".to_string(),
            WriteAuthority::Given(authority) => authority.actor.clone(),
        };
        self.log.push(format!("{actor} {}", write.context.idempotency_key));
    }

    fn write(&mut self, batch: StorageBatch) -> bool {
        let met = batch.expectations.iter().all(|expected| {
            match (self.get(expected.namespace, &expected.key), &expected.value) {
                (None, None) => true,
                (Some(found), Some(value)) => found.equals(value),
                _ => false,
            }
        });
        if met {
            for write in batch.writes {
                self.note(&write);
                self.put(write.namespace, &write.key, write.value);
            }
        }
        met
    }

    fn fails(&mut self) -> bool {
        self.asked += 1;
        self.broken == Some(self.asked - 1)
    }

    fn perform(&mut self, action: OutboxAction) -> OutboxEvent {
        if self.fails() {
            return OutboxEvent::Failed;
        }
        match action {
            OutboxAction::Write(batch) => OutboxEvent::Written(self.write(batch)),
            OutboxAction::PutIfAbsent(batch) => {
                self.write(batch);
                OutboxEvent::Kept
            }
            OutboxAction::LoadMapping { idempotency_key } => {
                OutboxEvent::Mapping(self.get(IDEMPOTENCY_NS, &idempotency_key))
            }
            OutboxAction::LoadEnvelope { request_id } => {
                OutboxEvent::Envelope(read(self.get(RECORDS_NS, &request_id), read_envelope))
            }
            OutboxAction::LoadState { request_id } => {
                OutboxEvent::State(read(self.get(STATES_NS, &request_id), read_status))
            }
        }
    }

    fn enqueue(
        &mut self,
        input: &ArchiveEvidenceInput,
    ) -> Result<ArchiveEnqueueReceipt, ArchiveOutboxError> {
        self.asked = 0;
        let mut step = ArchiveEvidenceOutbox::begin_enqueue(input);
        loop {
            match step {
                EnqueueStep::End(result) => return result,
                EnqueueStep::Ask { stage, action } => {
                    let event = self.perform(action);
                    step = ArchiveEvidenceOutbox::enqueue(&input.context, stage, event);
                }
            }
        }
    }

    fn requeue(
        &mut self,
        request_id: &str,
        now_ms: i64,
    ) -> Result<ArchiveEvidenceSyncStatus, ArchiveOutboxError> {
        self.asked = 0;
        let case = RequeueCase {
            request_id: request_id.to_string(),
            now_ms,
            context: SideEffectContext {
                authority: AuthorityContext {
                    actor: "operator".to_string(),
                    surface: "cli".to_string(),
                    account_mode: "paper".to_string(),
                },
                idempotency_key: "again".to_string(),
            },
        };
        let mut step = ArchiveEvidenceOutbox::begin_requeue(&case);
        loop {
            match step {
                RequeueStep::End(result) => return result,
                RequeueStep::Ask { stage, action } => {
                    let event = self.perform(action);
                    step = ArchiveEvidenceOutbox::requeue(&case, stage, event);
                }
            }
        }
    }

    fn perform_sync(
        &mut self,
        archive: &impl ArchiveTransportPort,
        action: SyncAction,
    ) -> SyncEvent {
        if self.fails() {
            return SyncEvent::Failed;
        }
        match action {
            SyncAction::LoadCursor { owner } => {
                SyncEvent::Record(self.get(SYNC_CURSOR_NS, &owner))
            }
            SyncAction::ListPage { after, limit } => {
                let page = self
                    .records
                    .iter()
                    .filter(|((namespace, key), _)| {
                        namespace == RECORDS_NS && after.as_ref().map_or(true, |last| key > last)
                    })
                    .map(|((_, key), value)| (key.clone(), Stored::Present(read_envelope(value))))
                    .take(limit)
                    .collect();
                SyncEvent::Page(page)
            }
            SyncAction::LoadStatus => {
                SyncEvent::Record(self.get(SYNC_STATUS_NS, SYNC_STATUS_KEY))
            }
            SyncAction::LoadState { request_id } => {
                SyncEvent::State(read(self.get(STATES_NS, &request_id), read_status))
            }
            SyncAction::PutIfAbsent(batch) => {
                self.write(batch);
                SyncEvent::Kept
            }
            SyncAction::Change(batch) | SyncAction::PutFirst(batch) => {
                SyncEvent::Written(self.write(batch))
            }
            SyncAction::Put(batch) => {
                self.write(batch);
                SyncEvent::Kept
            }
            SyncAction::Ingest(request) => {
                self.log.push(format!("sent {}", request.request_id));
                SyncEvent::Answer(archive.ingest(&request))
            }
        }
    }

    fn sync(
        &mut self,
        archive: &impl ArchiveTransportPort,
        now_ms: i64,
        limit: usize,
    ) -> Result<ArchiveSyncReport, ArchiveOutboxError> {
        self.asked = 0;
        let case = SyncCase { owner: "owner".to_string(), now_ms, limit };
        let mut step = ArchiveEvidenceOutbox::begin_sync(&case);
        loop {
            match step {
                SyncStep::End(result) => return result,
                SyncStep::Ask { stage, action } => {
                    let event = self.perform_sync(archive, action);
                    step = ArchiveEvidenceOutbox::sync(&case, stage, event);
                }
            }
        }
    }
}

#[test]
fn a_repeated_request_is_answered_from_the_record() {
    let mut shelf = Shelf::new();
    let first = shelf.enqueue(&input("r1")).expect("a receipt");
    assert!(!first.duplicate);
    assert_eq!(first.sync.state, "pending");
    assert_eq!(shelf.log, vec!["local key-r1"; 3]);
    let kept = format!("{:?}", shelf.records);
    let again = shelf.enqueue(&input("r1")).expect("a receipt");
    assert!(again.duplicate);
    assert!(again.evidence.equals(&first.evidence));
    assert_eq!(again.sync.state, "pending");
    assert_eq!(format!("{:?}", shelf.records), kept);

    shelf.remove(STATES_NS, "r1");
    let repaired = shelf.enqueue(&input("r1")).expect("a receipt");
    assert!(repaired.duplicate);
    assert_eq!(shelf.state("r1").state, "pending");
    assert_eq!(format!("{:?}", shelf.records), kept);
    assert_eq!(shelf.log.len(), 4);
    assert_eq!(shelf.log[3], "local key-r1");
}

#[test]
fn evidence_that_is_not_the_same_is_a_conflict() {
    let mut shelf = Shelf::new();
    shelf.enqueue(&input("r1")).expect("a receipt");
    let mut other_key = input("r1");
    other_key.context.idempotency_key = "another".to_string();
    assert_eq!(
        shelf.enqueue(&other_key).err(),
        Some(ArchiveOutboxError::StorageInconsistent)
    );
    let mut other_request = input("r2");
    other_request.context.idempotency_key = "key-r1".to_string();
    assert_eq!(
        shelf.enqueue(&other_request).err(),
        Some(ArchiveOutboxError::IdempotencyConflict)
    );
    shelf.put(RECORDS_NS, "r1", envelope("r3").value());
    assert_eq!(
        shelf.enqueue(&input("r1")).err(),
        Some(ArchiveOutboxError::RequestIdConflict)
    );
    for broken in 0..4 {
        let mut shelf = Shelf::new();
        shelf.enqueue(&input("r1")).expect("a receipt");
        shelf.broken = Some(broken);
        assert_eq!(
            shelf.enqueue(&input("r1")).err(),
            Some(ArchiveOutboxError::StorageUnavailable)
        );
    }
}

#[test]
fn only_what_waits_for_an_operator_is_requeued() {
    let mut shelf = Shelf::new();
    shelf.enqueue(&input("r1")).expect("a receipt");
    let mut waiting = claimed(&envelope("r1"));
    waiting.state = "reconciliation_required".to_string();
    waiting.lease_owner = None;
    waiting.lease_until_ms = None;
    shelf.put(STATES_NS, "r1", waiting.value());
    let changed = shelf.requeue("r1", 9_000).expect("a state");
    assert_eq!(changed.state, "pending");
    assert_eq!(changed.next_attempt_at_ms, Some(9_000));
    assert_eq!(shelf.state("r1").state, "pending");
    assert_eq!(shelf.log.last().expect("a write"), "operator again");

    let mut published = claimed(&envelope("r1"));
    published.state = "published".to_string();
    shelf.put(STATES_NS, "r1", published.value());
    let writes = shelf.log.len();
    assert_eq!(shelf.requeue("r1", 9_000).expect("a state").state, "published");
    shelf.put(STATES_NS, "r1", claimed(&envelope("r1")).value());
    assert_eq!(shelf.requeue("r1", 9_000).expect("a state").state, "leased");
    assert_eq!(shelf.log.len(), writes);

    shelf.remove(STATES_NS, "r1");
    assert_eq!(shelf.requeue("r1", 9_000).expect("a state").state, "pending");
    assert_eq!(shelf.log[writes], "archive-outbox archive-evidence:r1:repair");
    assert_eq!(shelf.log[writes + 1], "operator again");

    assert_eq!(
        shelf.requeue("no name", 9_000).err(),
        Some(ArchiveOutboxError::InvalidIdentifier)
    );
    assert_eq!(
        shelf.requeue("r1", 0).err(),
        Some(ArchiveOutboxError::InvalidOccurredAt)
    );
    assert_eq!(
        shelf.requeue("r9", 9_000).err(),
        Some(ArchiveOutboxError::StorageInconsistent)
    );
}

#[test]
fn a_requeue_that_comes_late_gives_the_state_of_the_other() {
    let case = RequeueCase {
        request_id: "r1".to_string(),
        now_ms: 9_000,
        context: input("r1").context,
    };
    let ask = |step: RequeueStep| match step {
        RequeueStep::Ask { stage, action } => (stage, action),
        RequeueStep::End(result) => panic!("{result:?}"),
    };
    let (stage, _) = ask(ArchiveEvidenceOutbox::begin_requeue(&case));
    let found = OutboxEvent::Envelope(Stored::Present(envelope("r1")));
    let (stage, _) = ask(ArchiveEvidenceOutbox::requeue(&case, stage, found));
    let pending = OutboxEvent::State(Stored::Present(ArchiveEvidenceSyncStatus::pending(1_000)));
    let (stage, action) = ask(ArchiveEvidenceOutbox::requeue(&case, stage, pending));
    assert!(matches!(action, OutboxAction::Write(_)));
    let (stage, action) =
        ask(ArchiveEvidenceOutbox::requeue(&case, stage, OutboxEvent::Written(false)));
    assert!(matches!(action, OutboxAction::LoadState { request_id } if request_id == "r1"));
    let held = OutboxEvent::State(Stored::Present(claimed(&envelope("r1"))));
    match ArchiveEvidenceOutbox::requeue(&case, stage, held) {
        RequeueStep::End(Ok(status)) => assert_eq!(status.state, "leased"),
        other => panic!("{other:?}"),
    }
}

#[test]
fn a_pass_claims_sends_settles_and_reports() {
    let archive = Archive { known: envelope("r1") };
    let mut shelf = Shelf::new();
    for name in ["r1", "r2", "r3"] {
        shelf.enqueue(&input(name)).expect("a receipt");
    }
    shelf.remove(STATES_NS, "r2");
    shelf.put(STATES_NS, "r3", claimed(&envelope("r3")).value());
    shelf.log.clear();
    let report = shelf.sync(&archive, 5_000, 10).expect("a report");
    assert_eq!(
        shelf.log,
        vec![
            "archive-outbox archive-evidence:r1:claim-1",
            "sent r1",
            "archive-outbox archive-evidence:r1:published-1",
            "archive-outbox archive-evidence:r2:repair",
            "archive-outbox archive-evidence:r2:claim-1",
            "sent r2",
            "archive-outbox archive-evidence:r2:failed-1",
            "archive-sync:owner archive-sync-cursor:owner:5000",
            "archive-sync:owner archive-sync-report:owner:5000",
        ]
    );
    assert_eq!(report.scanned, 3);
    assert_eq!(report.attempted, 2);
    assert_eq!(report.published, 1);
    assert_eq!(report.reconciliation_required, 1);
    assert_eq!(report.skipped, 1);
    assert_eq!(report.acknowledged_cursor, Some(7));
    assert_eq!(shelf.state("r1").state, "published");
    assert_eq!(shelf.state("r1").acknowledged_cursor, Some(7));
    assert_eq!(shelf.state("r2").state, "reconciliation_required");
    assert_eq!(shelf.state("r3").state, "leased");
    let kept = shelf.get(SYNC_STATUS_NS, SYNC_STATUS_KEY).expect("a record");
    assert_eq!(kept.i64_field("acknowledgedCursor"), Some(7));
    assert_eq!(kept.i64_field("lastSyncAtMs"), Some(5_000));

    shelf.log.clear();
    let again = shelf.sync(&archive, 6_000, 10).expect("a report");
    assert_eq!(again.attempted, 0);
    assert_eq!(again.skipped, 3);
    assert_eq!(again.acknowledged_cursor, Some(7));
    assert_eq!(shelf.log.len(), 2);
}

#[test]
fn a_pass_goes_on_where_the_last_one_stopped() {
    let archive = Archive { known: envelope("none") };
    let mut shelf = Shelf::new();
    for name in ["r1", "r2", "r3"] {
        shelf.enqueue(&input(name)).expect("a receipt");
    }
    let first = shelf.sync(&archive, 5_000, 2).expect("a report");
    assert_eq!(first.next_scan_after_request_id, Some("r2".to_string()));
    shelf.log.clear();
    let rest = shelf.sync(&archive, 6_000, 2).expect("a report");
    assert_eq!(shelf.log[1], "sent r3");
    assert_eq!(rest.attempted, 1);
    assert_eq!(rest.next_scan_after_request_id, None);
}

#[test]
fn a_pass_that_storage_fails_sends_nothing_unclaimed() {
    let archive = Archive { known: envelope("r1") };
    for broken in 0..9 {
        let mut shelf = Shelf::new();
        shelf.enqueue(&input("r1")).expect("a receipt");
        shelf.log.clear();
        shelf.broken = Some(broken);
        let outcome = shelf.sync(&archive, 5_000, 10);
        let sent = shelf.log.iter().position(|line| line == "sent r1");
        let claim = shelf
            .log
            .iter()
            .position(|line| line == "archive-outbox archive-evidence:r1:claim-1");
        match sent {
            None => assert!(broken <= 5),
            Some(at) => assert!(claim.expect("a claim") < at),
        }
        assert_eq!(
            outcome.err(),
            Some(ArchiveOutboxError::StorageUnavailable),
            "{broken}"
        );
    }
    let unsafe_owner = SyncCase { owner: "no owner".to_string(), now_ms: 1, limit: 1 };
    assert!(matches!(
        ArchiveEvidenceOutbox::begin_sync(&unsafe_owner),
        SyncStep::End(Err(ArchiveOutboxError::InvalidSyncOwner))
    ));
    let early = SyncCase { owner: "owner".to_string(), now_ms: 0, limit: 1 };
    assert!(matches!(
        ArchiveEvidenceOutbox::begin_sync(&early),
        SyncStep::End(Err(ArchiveOutboxError::InvalidOccurredAt))
    ));
    let idle = SyncCase { owner: "owner".to_string(), now_ms: 1, limit: 0 };
    assert!(matches!(
        ArchiveEvidenceOutbox::begin_sync(&idle),
        SyncStep::End(Err(ArchiveOutboxError::InvalidLimit))
    ));
}

#[test]
fn a_report_is_tried_as_often_as_another_gets_in_its_way() {
    let archive = Archive { known: envelope("r1") };
    let mut shelf = Shelf::new();
    let case = SyncCase { owner: "owner".to_string(), now_ms: 5_000, limit: 1 };
    let mut step = ArchiveEvidenceOutbox::begin_sync(&case);
    let mut tries = 0;
    let result = loop {
        match step {
            SyncStep::End(result) => break result,
            SyncStep::Ask { stage, action } => {
                let event = match action {
                    SyncAction::PutFirst(_) => {
                        tries += 1;
                        SyncEvent::Written(false)
                    }
                    other => shelf.perform_sync(&archive, other),
                };
                step = ArchiveEvidenceOutbox::sync(&case, stage, event);
            }
        }
    };
    assert_eq!(tries, 4);
    assert_eq!(result.err(), Some(ArchiveOutboxError::StorageUnavailable));
}

#[test]
fn errors_are_told_apart_by_their_codes() {
    let mut codes: Vec<&str> = [
        ArchiveOutboxError::RequestIdRequired,
        ArchiveOutboxError::SourceRequired,
        ArchiveOutboxError::AggregateIdRequired,
        ArchiveOutboxError::InvalidIdentifier,
        ArchiveOutboxError::InvalidOccurredAt,
        ArchiveOutboxError::InvalidPayload,
        ArchiveOutboxError::PayloadTooLarge,
        ArchiveOutboxError::SensitivePayload,
        ArchiveOutboxError::InvalidEnvelope,
        ArchiveOutboxError::IntegrityMismatch,
        ArchiveOutboxError::IdempotencyConflict,
        ArchiveOutboxError::RequestIdConflict,
        ArchiveOutboxError::StorageUnavailable,
        ArchiveOutboxError::StorageInconsistent,
        ArchiveOutboxError::InvalidSyncOwner,
        ArchiveOutboxError::InvalidLimit,
    ]
    .iter()
    .map(|error| error.code())
    .collect();
    let all = codes.len();
    codes.sort();
    codes.dedup();
    assert_eq!(codes.len(), all);
}

fn loaded(request_id: &str, state: &str) -> LoadedEvidence {
    let mut status = ArchiveEvidenceSyncStatus::pending(1_000);
    status.state = state.to_string();
    LoadedEvidence {
        envelope: Stored::Present(envelope(request_id)),
        state: Stored::Present(status),
    }
}

#[test]
fn the_outbox_counts_and_pages_its_records() {
    let outbox = ArchiveEvidenceOutbox::new(
        vec![
            loaded("r1", "pending"),
            loaded("r2", "published"),
            loaded("r3", "pending"),
        ],
        None,
    );
    let status = outbox.status().expect("a status");
    assert_eq!(status.total, 3);
    assert_eq!(status.pending, 2);
    assert_eq!(status.published, 1);
    assert_eq!(status.oldest_pending_at_ms, Some(1_000));
    let page = outbox
        .query(&ArchiveEvidenceQuery {
            tenant_id: None,
            workspace_id: None,
            after_request_id: Some("r1".to_string()),
            limit: 1,
        })
        .expect("a page");
    assert_eq!(page.records.len(), 1);
    assert_eq!(page.records[0].evidence.request_id, "r2");
    assert_eq!(page.next_after_request_id, Some("r2".to_string()));
    let none = outbox
        .query(&ArchiveEvidenceQuery {
            tenant_id: Some("other".to_string()),
            ..ArchiveEvidenceQuery::default()
        })
        .expect("a page");
    assert!(none.records.is_empty());
}

#[test]
fn following_the_pages_visits_each_record_once() {
    let names = ["r4", "r1", "r5", "r3", "r2"];
    let records = names.iter().map(|name| loaded(name, "pending")).collect();
    let outbox = ArchiveEvidenceOutbox::new(records, None);
    let mut seen: Vec<String> = Vec::new();
    let mut pages = 0;
    let mut after: Option<String> = None;
    loop {
        let page = outbox
            .query(&ArchiveEvidenceQuery {
                after_request_id: after,
                limit: 2,
                ..ArchiveEvidenceQuery::default()
            })
            .expect("a page");
        pages += 1;
        assert!(page.records.len() <= 2);
        seen.extend(page.records.iter().map(|r| r.evidence.request_id.clone()));
        match page.next_after_request_id {
            Some(last) => {
                assert_eq!(seen.last(), Some(&last));
                after = Some(last);
            }
            None => break,
        }
    }
    assert_eq!(pages, 3);
    assert_eq!(seen, vec!["r1", "r2", "r3", "r4", "r5"]);
}

#[test]
fn a_page_holds_no_more_than_the_largest_batch() {
    let records = (0..101).map(|n| loaded(&format!("r{n:03}"), "pending")).collect();
    let outbox = ArchiveEvidenceOutbox::new(records, None);
    let wide = |after: Option<String>| ArchiveEvidenceQuery {
        after_request_id: after,
        limit: 500,
        ..ArchiveEvidenceQuery::default()
    };
    let first = outbox.query(&wide(None)).expect("a page");
    assert_eq!(first.records.len(), 100);
    assert_eq!(first.next_after_request_id, Some("r099".to_string()));
    let rest = outbox
        .query(&wide(first.next_after_request_id))
        .expect("a page");
    assert_eq!(rest.records.len(), 1);
    assert_eq!(rest.records[0].evidence.request_id, "r100");
    assert_eq!(rest.next_after_request_id, None);
}

#[test]
fn a_pass_reports_what_became_of_its_records() {
    assert!(check_sync("no owner", 1, 1).is_err());
    assert!(check_sync("owner", 1, 0).is_err());
    assert_eq!(check_sync("owner", 1, 2), Ok(2));
    assert_eq!(check_sync("owner", 1, 500), Ok(50));
    let mut run = ArchiveSyncRun::begin(2, 3, None);
    assert_eq!(run.next(), Some(0));
    run.record("r1", ItemOutcome::NotClaimed);
    run.record("r2", ItemOutcome::Published(Some(4)));
    assert_eq!(run.next(), Some(2));
    run.record(
        "r3",
        ItemOutcome::Failed(ArchiveTransportFailure::new("down", true)),
    );
    assert_eq!(run.next(), None);
    let report = run.finish();
    assert_eq!(report.scanned, 3);
    assert_eq!(report.attempted, 2);
    assert_eq!(report.published, 1);
    assert_eq!(report.unavailable, 1);
    assert_eq!(report.skipped, 1);
    assert_eq!(report.acknowledged_cursor, Some(4));
    let batch = store_sync_status("owner", 5_000, &report, &None);
    assert_eq!(batch.writes.len(), 1);
    let cursor = store_scan_cursor("owner", 5_000, &Some("r3".to_string()));
    let kept = Some(cursor.writes[0].value.copy());
    assert_eq!(read_scan_cursor(&kept), Ok(Some("r3".to_string())));
    assert_eq!(max_cursor(Some(4), Some(2)), Some(4));
    assert!(matches!(after_status_write(1, true), StatusStep::Done));
    assert!(matches!(after_status_write(1, false), StatusStep::Retry));
    assert!(matches!(
        after_status_write(STATUS_ATTEMPTS, false),
        StatusStep::Failed(_)
    ));
}
