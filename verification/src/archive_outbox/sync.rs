//! One bounded pass of delivery: which evidence it looks at, what it reports and
//! where the next pass goes on.

pub mod places;

use vstd::prelude::*;

use crate::archive_outbox::envelope;
use crate::archive_outbox::envelope::{
    decode_envelope, is_safe_identifier, ArchiveEvidenceEnvelope, ArchiveOutboxError,
    EnvelopeView, ARCHIVE_INGEST_SCHEMA,
};
use crate::archive_outbox::state;
use crate::archive_outbox::state::{
    mark_failure, mark_published, optional_number, ArchiveEvidenceSyncStatus,
    ArchiveTransportFailure, IngestVerdict,
};
use crate::json;
use crate::json::{Json, JsonMap, JsonTree};
use crate::ports;
use crate::ports::{
    copy_optional, AuthorityContext, AuthorityView, BatchView, ContextView, ExpectationView,
    SideEffectContext, StorageBatch, Stored, WriteContext, WriteView,
};
use crate::text;
use crate::text::{copy_option, join2, join5, same, signed_decimal_text};

verus! {

/// The most requests of one pass.
pub const MAX_SYNC_BATCH: usize = 50;

/// The most records that one pass looks at, however many of them are due: finished
/// history cannot make a bounded retry an unbounded scan.
pub const MAX_SYNC_SCAN: usize = 50;

pub const SYNC_STATUS_NS: &'static str = "archive_evidence_sync_status_v1";

pub const SYNC_STATUS_KEY: &'static str = "latest";

pub const SYNC_CURSOR_NS: &'static str = "archive_evidence_sync_cursors_v1";

/// How often the write of the report is tried.
pub const STATUS_ATTEMPTS: u32 = 4;

/// What became of one piece of evidence.
#[derive(Debug)]
pub struct ArchiveSyncItem {
    pub request_id: String,
    pub outcome: String,
    pub error_code: Option<String>,
}

/// What an [`ArchiveSyncItem`] says.
#[verifier::ext_equal]
pub struct ItemView {
    pub request_id: Seq<char>,
    pub outcome: Seq<char>,
    pub error_code: Option<Seq<char>>,
}

impl View for ArchiveSyncItem {
    type V = ItemView;

    open spec fn view(&self) -> ItemView {
        ItemView {
            request_id: self.request_id@,
            outcome: self.outcome@,
            error_code: text::option_text(self.error_code),
        }
    }
}

/// What one pass did.
#[derive(Debug)]
pub struct ArchiveSyncReport {
    pub schema: String,
    /// How many records were looked at.
    pub scanned: usize,
    pub attempted: usize,
    pub published: usize,
    pub unavailable: usize,
    pub reconciliation_required: usize,
    pub skipped: usize,
    pub acknowledged_cursor: Option<i64>,
    /// Where the next pass of this worker goes on; at the first record where there is
    /// nothing here.
    pub next_scan_after_request_id: Option<String>,
    pub items: Vec<ArchiveSyncItem>,
}

/// What an [`ArchiveSyncReport`] says.
#[verifier::ext_equal]
pub struct ReportView {
    pub schema: Seq<char>,
    pub scanned: nat,
    pub attempted: nat,
    pub published: nat,
    pub unavailable: nat,
    pub reconciliation_required: nat,
    pub skipped: nat,
    pub acknowledged_cursor: Option<i64>,
    pub next_scan_after_request_id: Option<Seq<char>>,
    pub items: Seq<ItemView>,
}

impl View for ArchiveSyncReport {
    type V = ReportView;

    open spec fn view(&self) -> ReportView {
        ReportView {
            schema: self.schema@,
            scanned: self.scanned as nat,
            attempted: self.attempted as nat,
            published: self.published as nat,
            unavailable: self.unavailable as nat,
            reconciliation_required: self.reconciliation_required as nat,
            skipped: self.skipped as nat,
            acknowledged_cursor: self.acknowledged_cursor,
            next_scan_after_request_id: text::option_text(self.next_scan_after_request_id),
            items: Seq::new(self.items@.len(), |i: int| self.items@[i]@),
        }
    }
}

/// The later of two places in the archive.
pub open spec fn later_cursor(current: Option<i64>, candidate: Option<i64>) -> Option<i64> {
    match (current, candidate) {
        (Some(a), Some(b)) => if a < b {
            Some(b)
        } else {
            Some(a)
        },
        (Some(a), None) => Some(a),
        (None, other) => other,
    }
}

/// The later of two places in the archive.
pub fn max_cursor(current: Option<i64>, candidate: Option<i64>) -> (r: Option<i64>)
    ensures
        r == later_cursor(current, candidate),
{
    match (current, candidate) {
        (Some(a), Some(b)) => if a < b {
            Some(b)
        } else {
            Some(a)
        },
        (Some(a), None) => Some(a),
        (None, other) => other,
    }
}

/// Checks what a pass is asked for, and bounds its requests.
pub fn check_sync(owner: &str, now_ms: i64, limit: usize) -> (r: Result<usize, ArchiveOutboxError>)
    ensures
        r == (if !envelope::identifier_is_safe(owner@) {
            Err::<usize, ArchiveOutboxError>(ArchiveOutboxError::InvalidSyncOwner)
        } else if now_ms <= 0 {
            Err(ArchiveOutboxError::InvalidOccurredAt)
        } else if limit == 0 {
            Err(ArchiveOutboxError::InvalidLimit)
        } else if limit < MAX_SYNC_BATCH {
            Ok(limit)
        } else {
            Ok(MAX_SYNC_BATCH)
        }),
{
    if !is_safe_identifier(owner) {
        return Err(ArchiveOutboxError::InvalidSyncOwner);
    }
    if now_ms <= 0 {
        return Err(ArchiveOutboxError::InvalidOccurredAt);
    }
    if limit == 0 {
        return Err(ArchiveOutboxError::InvalidLimit);
    }
    if limit < MAX_SYNC_BATCH {
        Ok(limit)
    } else {
        Ok(MAX_SYNC_BATCH)
    }
}

/// Where the last pass of a worker left off, as its record says.
pub open spec fn cursor_of(record: Option<JsonTree>) -> Result<Option<Seq<char>>, ArchiveOutboxError> {
    match record {
        None => Ok(None),
        Some(tree) => match json::member(tree, "afterRequestId"@) {
            None => Ok(None),
            Some(JsonTree::Null) => Ok(None),
            Some(JsonTree::Text(id)) => if envelope::identifier_is_safe(id) {
                Ok(Some(id))
            } else {
                Err(ArchiveOutboxError::StorageInconsistent)
            },
            Some(_) => Err(ArchiveOutboxError::StorageInconsistent),
        },
    }
}

/// Reads where the last pass of a worker left off.
pub fn read_scan_cursor(record: &Option<Json>) -> (r: Result<Option<String>, ArchiveOutboxError>)
    ensures
        match (r, cursor_of(ports::option_tree(*record))) {
            (Ok(id), Ok(shown)) => text::option_text(id) == shown,
            (Err(e), Err(error)) => e == error,
            _ => false,
        },
{
    match record {
        None => Ok(None),
        Some(value) => match value.field("afterRequestId") {
            None => Ok(None),
            Some(Json::Null) => Ok(None),
            Some(Json::Text(id)) => if is_safe_identifier(id.as_str()) {
                Ok(Some(id.clone()))
            } else {
                Err(ArchiveOutboxError::StorageInconsistent)
            },
            Some(_) => Err(ArchiveOutboxError::StorageInconsistent),
        },
    }
}

/// The place that the archive has acknowledged, as the record of the passes says.
pub open spec fn acknowledged(record: Option<JsonTree>) -> Option<int> {
    match record {
        Some(tree) => json::i64_member(tree, "acknowledgedCursor"@),
        None => None,
    }
}

/// A number as a plain integer.
pub open spec fn option_int(value: Option<i64>) -> Option<int> {
    match value {
        Some(n) => Some(n as int),
        None => None,
    }
}

/// Reads a number of the record of the passes.
pub fn read_number(record: &Option<Json>, key: &str) -> (r: Option<i64>)
    ensures
        option_int(r) == (match *record {
            Some(value) => json::i64_member(value@, key@),
            None => None,
        }),
{
    match record {
        Some(value) => value.i64_field(key),
        None => None,
    }
}

/// Reads the place that the archive has acknowledged.
pub fn read_acknowledged_cursor(record: &Option<Json>) -> (r: Option<i64>)
    ensures
        option_int(r) == acknowledged(ports::option_tree(*record)),
{
    read_number(record, "acknowledgedCursor")
}

/// Why the record under a key cannot be taken, if it cannot.
pub open spec fn page_fault(key: Seq<char>, stored: Stored<ArchiveEvidenceEnvelope>) -> Option<
    ArchiveOutboxError,
> {
    match stored {
        Stored::Present(e) => match envelope::envelope_integrity(e@) {
            Ok(_) => if e@.request_id == key {
                None
            } else {
                Some(ArchiveOutboxError::StorageInconsistent)
            },
            Err(error) => Some(error),
        },
        _ => Some(ArchiveOutboxError::StorageInconsistent),
    }
}

/// Takes the record under a key.
pub fn page_envelope(key: &str, stored: Stored<ArchiveEvidenceEnvelope>) -> (r: Result<
    ArchiveEvidenceEnvelope,
    ArchiveOutboxError,
>)
    ensures
        match page_fault(key@, stored) {
            None => stored matches Stored::Present(e) && r == Ok::<
                ArchiveEvidenceEnvelope,
                ArchiveOutboxError,
            >(e),
            Some(error) => r == Err::<ArchiveEvidenceEnvelope, ArchiveOutboxError>(error),
        },
{
    match decode_envelope(stored) {
        Ok(e) => if same(e.request_id.as_str(), key) {
            Ok(e)
        } else {
            Err(ArchiveOutboxError::StorageInconsistent)
        },
        Err(error) => Err(error),
    }
}

/// What became of one record that a pass looked at.
#[derive(Debug)]
pub enum ItemOutcome {
    /// It was not due, or another worker was faster.
    NotClaimed,
    /// The archive has it, at this place where it has places.
    Published(Option<i64>),
    /// The archive has it, but the claim was lost before that was written down.
    LeaseLost,
    /// It could not be delivered.
    Failed(ArchiveTransportFailure),
}

/// The write that settles claimed evidence by what the archive said.
pub open spec fn settling_batch(
    e: EnvelopeView,
    claimed: state::StatusView,
    now_ms: i64,
    verdict: IngestVerdict,
) -> BatchView {
    match verdict {
        IngestVerdict::Acknowledged(receipt) => state::state_batch(
            e.request_id,
            claimed,
            state::published_view(claimed, now_ms, receipt),
            state::state_key(
                e.request_id,
                "published-"@ + text::signed_decimal(claimed.fencing_token),
            ),
        ),
        IngestVerdict::Failed(failure) => state::state_batch(
            e.request_id,
            claimed,
            state::failed_view(claimed, now_ms, failure),
            state::state_key(
                e.request_id,
                "failed-"@ + text::signed_decimal(claimed.fencing_token),
            ),
        ),
    }
}

/// What becomes of claimed evidence by what the archive said, and by whether the write that
/// settles it went through.
pub open spec fn outcome_of(verdict: IngestVerdict, updated: bool) -> ItemOutcome {
    match verdict {
        IngestVerdict::Acknowledged(receipt) => if updated {
            ItemOutcome::Published(receipt.archive_cursor)
        } else {
            ItemOutcome::LeaseLost
        },
        IngestVerdict::Failed(failure) => ItemOutcome::Failed(failure),
    }
}

/// The write that settles claimed evidence by what the archive said.
pub fn settle_evidence(
    envelope: &ArchiveEvidenceEnvelope,
    claimed: &ArchiveEvidenceSyncStatus,
    now_ms: i64,
    verdict: &IngestVerdict,
) -> (r: StorageBatch)
    ensures
        r@ == settling_batch(envelope@, claimed@, now_ms, *verdict),
{
    match verdict {
        IngestVerdict::Acknowledged(receipt) => mark_published(envelope, claimed, now_ms, receipt),
        IngestVerdict::Failed(failure) => mark_failure(envelope, claimed, now_ms, failure),
    }
}

/// Tells what became of claimed evidence: by what the archive said, and by whether the
/// write that settles it went through.
pub fn item_outcome(verdict: IngestVerdict, updated: bool) -> (r: ItemOutcome)
    ensures
        r == outcome_of(verdict, updated),
{
    match verdict {
        IngestVerdict::Acknowledged(receipt) => if updated {
            ItemOutcome::Published(receipt.archive_cursor)
        } else {
            ItemOutcome::LeaseLost
        },
        IngestVerdict::Failed(failure) => ItemOutcome::Failed(failure),
    }
}

/// The report of a pass that has looked at nothing yet.
pub open spec fn empty_report(acknowledged_cursor: Option<i64>) -> ReportView {
    ReportView {
        schema: ARCHIVE_INGEST_SCHEMA@,
        scanned: 0,
        attempted: 0,
        published: 0,
        unavailable: 0,
        reconciliation_required: 0,
        skipped: 0,
        acknowledged_cursor,
        next_scan_after_request_id: None,
        items: Seq::empty(),
    }
}

/// The report with one more record.
pub open spec fn reported(r: ReportView, request_id: Seq<char>, outcome: ItemOutcome) -> ReportView {
    match outcome {
        ItemOutcome::NotClaimed => ReportView {
            scanned: r.scanned + 1,
            skipped: r.skipped + 1,
            ..r
        },
        ItemOutcome::Published(cursor) => ReportView {
            scanned: r.scanned + 1,
            attempted: r.attempted + 1,
            published: r.published + 1,
            acknowledged_cursor: later_cursor(r.acknowledged_cursor, cursor),
            items: r.items.push(
                ItemView { request_id, outcome: "published"@, error_code: None },
            ),
            ..r
        },
        ItemOutcome::LeaseLost => ReportView {
            scanned: r.scanned + 1,
            attempted: r.attempted + 1,
            skipped: r.skipped + 1,
            items: r.items.push(
                ItemView { request_id, outcome: "lease_lost"@, error_code: None },
            ),
            ..r
        },
        ItemOutcome::Failed(failure) => if failure.retryable {
            ReportView {
                scanned: r.scanned + 1,
                attempted: r.attempted + 1,
                unavailable: r.unavailable + 1,
                items: r.items.push(
                    ItemView {
                        request_id,
                        outcome: "unavailable"@,
                        error_code: Some(failure.code@),
                    },
                ),
                ..r
            }
        } else {
            ReportView {
                scanned: r.scanned + 1,
                attempted: r.attempted + 1,
                reconciliation_required: r.reconciliation_required + 1,
                items: r.items.push(
                    ItemView {
                        request_id,
                        outcome: "reconciliation_required"@,
                        error_code: Some(failure.code@),
                    },
                ),
                ..r
            }
        },
    }
}

/// One pass of delivery: what it may still look at and what it has done.
#[derive(Debug)]
pub struct ArchiveSyncRun {
    limit: usize,
    candidates: usize,
    has_more: bool,
    report: ArchiveSyncReport,
    last_scanned: Option<String>,
}

/// What an [`ArchiveSyncRun`] is.
#[verifier::ext_equal]
pub struct SyncRunView {
    /// The most requests of the pass.
    pub limit: nat,
    /// How many records the pass may look at.
    pub candidates: nat,
    /// Whether there are records after those.
    pub has_more: bool,
    pub report: ReportView,
    pub last_scanned: Option<Seq<char>>,
}

impl View for ArchiveSyncRun {
    type V = SyncRunView;

    closed spec fn view(&self) -> SyncRunView {
        SyncRunView {
            limit: self.limit as nat,
            candidates: self.candidates as nat,
            has_more: self.has_more,
            report: self.report@,
            last_scanned: text::option_text(self.last_scanned),
        }
    }
}

impl SyncRunView {
    /// Whether the pass looks at another record.
    pub open spec fn goes_on(self) -> bool {
        self.report.attempted < self.limit && self.report.scanned < self.candidates
    }

    /// What holds of every pass, however far it has come.
    pub open spec fn sound(self) -> bool {
        &&& self.limit <= MAX_SYNC_BATCH
        &&& self.candidates <= MAX_SYNC_SCAN
        &&& self.report.attempted <= self.limit
        &&& self.report.scanned <= self.candidates
        &&& self.report.attempted == self.report.items.len()
        &&& self.report.attempted <= self.report.scanned
        &&& self.report.scanned == self.report.published + self.report.unavailable
            + self.report.reconciliation_required + self.report.skipped
        &&& self.last_scanned is Some <==> self.report.scanned > 0
    }

    /// The pass after it has looked at one more record.
    pub open spec fn step(self, request_id: Seq<char>, outcome: ItemOutcome) -> SyncRunView {
        SyncRunView {
            report: reported(self.report, request_id, outcome),
            last_scanned: Some(request_id),
            ..self
        }
    }

    /// The report of a pass that is over: it goes on after the last record that it
    /// looked at, where there is another one after that.
    pub open spec fn finished(self) -> ReportView {
        ReportView {
            next_scan_after_request_id: if self.report.scanned < self.candidates || self.has_more {
                self.last_scanned
            } else {
                None
            },
            ..self.report
        }
    }
}

/// The pass that begins with a page of so many records.
pub open spec fn begun(limit: nat, page_len: nat, acknowledged_cursor: Option<i64>) -> SyncRunView {
    SyncRunView {
        limit,
        candidates: if page_len > MAX_SYNC_SCAN {
            MAX_SYNC_SCAN as nat
        } else {
            page_len
        },
        has_more: page_len > MAX_SYNC_SCAN,
        report: empty_report(acknowledged_cursor),
        last_scanned: None,
    }
}

impl ArchiveSyncRun {
    /// Begins a pass with a page of so many records, one more than it may look at where
    /// there are as many.
    pub fn begin(limit: usize, page_len: usize, acknowledged_cursor: Option<i64>) -> (r: ArchiveSyncRun)
        requires
            limit <= MAX_SYNC_BATCH,
        ensures
            r@ == begun(limit as nat, page_len as nat, acknowledged_cursor),
            r@.sound(),
    {
        let has_more: bool = page_len > MAX_SYNC_SCAN;
        let candidates: usize = if has_more {
            MAX_SYNC_SCAN
        } else {
            page_len
        };
        let report = ArchiveSyncReport {
            schema: ARCHIVE_INGEST_SCHEMA.to_owned(),
            scanned: 0,
            attempted: 0,
            published: 0,
            unavailable: 0,
            reconciliation_required: 0,
            skipped: 0,
            acknowledged_cursor,
            next_scan_after_request_id: None,
            items: Vec::new(),
        };
        assert(report@.items =~= Seq::empty());
        ArchiveSyncRun { limit, candidates, has_more, report, last_scanned: None }
    }

    /// Whether the pass looks at another record, and at which of its page.
    pub fn next(&self) -> (r: Option<usize>)
        ensures
            r == (if self@.goes_on() {
                Some(self@.report.scanned as usize)
            } else {
                None
            }),
    {
        if self.report.attempted < self.limit && self.report.scanned < self.candidates {
            Some(self.report.scanned)
        } else {
            None
        }
    }

    /// Takes down what became of the record that the pass looked at.
    pub fn record(&mut self, request_id: &str, outcome: ItemOutcome)
        requires
            old(self)@.sound(),
            old(self)@.goes_on(),
        ensures
            final(self)@ == old(self)@.step(request_id@, outcome),
            final(self)@.sound(),
    {
        let ghost before = self@;
        self.report.scanned = self.report.scanned + 1;
        self.last_scanned = Some(request_id.to_owned());
        match outcome {
            ItemOutcome::NotClaimed => {
                self.report.skipped = self.report.skipped + 1;
                assert(self@.report.items =~= before.report.items);
            },
            ItemOutcome::Published(cursor) => {
                self.report.attempted = self.report.attempted + 1;
                self.report.published = self.report.published + 1;
                self.report.acknowledged_cursor = max_cursor(self.report.acknowledged_cursor, cursor);
                self.put(request_id, "published", None);
            },
            ItemOutcome::LeaseLost => {
                self.report.attempted = self.report.attempted + 1;
                self.report.skipped = self.report.skipped + 1;
                self.put(request_id, "lease_lost", None);
            },
            ItemOutcome::Failed(failure) => {
                self.report.attempted = self.report.attempted + 1;
                if failure.retryable {
                    self.report.unavailable = self.report.unavailable + 1;
                    self.put(request_id, "unavailable", Some(failure.code));
                } else {
                    self.report.reconciliation_required = self.report.reconciliation_required + 1;
                    self.put(request_id, "reconciliation_required", Some(failure.code));
                }
            },
        }
    }

    fn put(&mut self, request_id: &str, outcome: &str, error_code: Option<String>)
        ensures
            final(self)@ == (SyncRunView {
                report: ReportView {
                    items: old(self)@.report.items.push(
                        ItemView {
                            request_id: request_id@,
                            outcome: outcome@,
                            error_code: text::option_text(error_code),
                        },
                    ),
                    ..old(self)@.report
                },
                ..old(self)@
            }),
    {
        let ghost before = self@.report.items;
        let item = ArchiveSyncItem {
            request_id: request_id.to_owned(),
            outcome: outcome.to_owned(),
            error_code,
        };
        self.report.items.push(item);
        assert(self@.report.items =~= before.push(item@));
    }

    /// Ends the pass.
    pub fn finish(self) -> (r: ArchiveSyncReport)
        requires
            self@.sound(),
        ensures
            r@ == self@.finished(),
    {
        let ghost shown = self@;
        let mut report = self.report;
        if report.scanned < self.candidates || self.has_more {
            report.next_scan_after_request_id = self.last_scanned;
        } else {
            report.next_scan_after_request_id = None;
        }
        assert(report@.items =~= shown.report.items);
        report
    }
}

/// The context under which a pass writes.
pub fn sync_context(owner: &str, now_ms: i64, action: &str) -> (r: SideEffectContext)
    ensures
        ports::context_of(r) == sync_key(owner@, now_ms as int, action@),
{
    let number = signed_decimal_text(now_ms);
    let head = join2("archive-sync-", action);
    SideEffectContext {
        authority: AuthorityContext {
            actor: join2("archive-sync:", owner),
            surface: "archive-sync".to_owned(),
            account_mode: "local".to_owned(),
        },
        idempotency_key: join5(head.as_str(), ":", owner, ":", number.as_str()),
    }
}

/// The context under which a pass writes: the authority of its worker.
pub open spec fn sync_key(owner: Seq<char>, now_ms: int, action: Seq<char>) -> ContextView {
    ContextView {
        authority: AuthorityView::Given {
            actor: "archive-sync:"@ + owner,
            surface: "archive-sync"@,
            account_mode: "local"@,
        },
        idempotency_key: "archive-sync-"@ + action + ":"@ + owner + ":"@ + text::signed_decimal(
            now_ms,
        ),
    }
}

/// The record of where the passes of a worker left off.
pub open spec fn cursor_tree(owner: Seq<char>, now_ms: int, after: Option<Seq<char>>) -> JsonTree {
    JsonTree::Object(
        map![
            "schema"@ => JsonTree::Text(ARCHIVE_INGEST_SCHEMA@),
            "owner"@ => JsonTree::Text(owner),
            "afterRequestId"@ => json::text_or_null(after),
            "updatedAtMs"@ => JsonTree::Int(now_ms)
        ],
    )
}

/// The write of where a pass left off.
pub open spec fn cursor_batch(owner: Seq<char>, now_ms: int, after: Option<Seq<char>>) -> BatchView {
    BatchView {
        writes: seq![
            WriteView {
                namespace: SYNC_CURSOR_NS@,
                key: owner,
                value: cursor_tree(owner, now_ms, after),
                context: sync_key(owner, now_ms, "cursor"@),
            },
        ],
        expectations: seq![],
    }
}

/// The write of where a pass left off.
pub fn store_scan_cursor(owner: &str, now_ms: i64, after_request_id: &Option<String>) -> (r: StorageBatch)
    ensures
        r@ == cursor_batch(owner@, now_ms as int, text::option_text(*after_request_id)),
{
    let context = sync_context(owner, now_ms, "cursor");
    let record = Json::object(
        JsonMap::new().with("schema", Json::text(ARCHIVE_INGEST_SCHEMA)).with(
            "owner",
            Json::text(owner),
        ).with("afterRequestId", Json::optional_text(after_request_id)).with(
            "updatedAtMs",
            Json::Int(now_ms),
        ),
    );
    StorageBatch::new().write(SYNC_CURSOR_NS, owner, record, &WriteContext::of(&context))
}

/// The record of the passes after one more.
pub open spec fn sync_status_tree(
    owner: Seq<char>,
    now_ms: int,
    report: ReportView,
    current: Option<JsonTree>,
) -> JsonTree {
    JsonTree::Object(
        map![
            "schema"@ => JsonTree::Text(ARCHIVE_INGEST_SCHEMA@),
            "lastSyncAtMs"@ => JsonTree::Int(now_ms),
            "owner"@ => JsonTree::Text(owner),
            "scanned"@ => JsonTree::Int(report.scanned as int),
            "attempted"@ => JsonTree::Int(report.attempted as int),
            "published"@ => JsonTree::Int(report.published as int),
            "unavailable"@ => JsonTree::Int(report.unavailable as int),
            "reconciliationRequired"@ => JsonTree::Int(report.reconciliation_required as int),
            "skipped"@ => JsonTree::Int(report.skipped as int),
            "acknowledgedCursor"@ => merged_cursor(current, report.acknowledged_cursor),
            "nextScanAfterRequestId"@ => json::text_or_null(report.next_scan_after_request_id)
        ],
    )
}

/// The later of the place that the record names and that of the report.
pub open spec fn merged_cursor(current: Option<JsonTree>, candidate: Option<i64>) -> JsonTree {
    match (acknowledged(current), candidate) {
        (Some(a), Some(b)) => if a < b {
            JsonTree::Int(b as int)
        } else {
            JsonTree::Int(a)
        },
        (Some(a), None) => JsonTree::Int(a),
        (None, other) => state::number_or_null(other),
    }
}

/// The write of the report of a pass over the record of the passes, if that has not changed.
pub open spec fn report_batch(
    owner: Seq<char>,
    now_ms: int,
    report: ReportView,
    current: Option<JsonTree>,
) -> BatchView {
    BatchView {
        writes: seq![
            WriteView {
                namespace: SYNC_STATUS_NS@,
                key: SYNC_STATUS_KEY@,
                value: sync_status_tree(owner, now_ms, report, current),
                context: sync_key(owner, now_ms, "report"@),
            },
        ],
        expectations: seq![
            ExpectationView {
                namespace: SYNC_STATUS_NS@,
                key: SYNC_STATUS_KEY@,
                value: current,
            },
        ],
    }
}

/// The write of the report of a pass over the record of the passes, if that has not
/// changed. A slower worker cannot take back a later acknowledgement.
pub fn store_sync_status(
    owner: &str,
    now_ms: i64,
    report: &ArchiveSyncReport,
    current: &Option<Json>,
) -> (r: StorageBatch)
    ensures
        r@ == report_batch(owner@, now_ms as int, report@, ports::option_tree(*current)),
{
    let context = sync_context(owner, now_ms, "report");
    let cursor = max_cursor(read_acknowledged_cursor(current), report.acknowledged_cursor);
    let next = copy_option(&report.next_scan_after_request_id);
    let record = Json::object(
        JsonMap::new().with("schema", Json::text(ARCHIVE_INGEST_SCHEMA)).with(
            "lastSyncAtMs",
            Json::Int(now_ms),
        ).with("owner", Json::text(owner)).with("scanned", Json::Large(report.scanned as u64)).with(
            "attempted",
            Json::Large(report.attempted as u64),
        ).with("published", Json::Large(report.published as u64)).with(
            "unavailable",
            Json::Large(report.unavailable as u64),
        ).with("reconciliationRequired", Json::Large(report.reconciliation_required as u64)).with(
            "skipped",
            Json::Large(report.skipped as u64),
        ).with("acknowledgedCursor", optional_number(cursor)).with(
            "nextScanAfterRequestId",
            Json::optional_text(&next),
        ),
    );
    StorageBatch::new().write(
        SYNC_STATUS_NS,
        SYNC_STATUS_KEY,
        record,
        &WriteContext::of(&context),
    ).expect(SYNC_STATUS_NS, SYNC_STATUS_KEY, copy_optional(current))
}

/// What to do after so many tries at the write of the report.
#[derive(Clone, Copy, Debug, PartialEq, Eq, Structural)]
pub enum StatusStep {
    Done,
    /// Read the record again and try once more.
    Retry,
    Failed(ArchiveOutboxError),
}

/// Decides what to do after so many tries at the write of the report, the last of
/// which went through or met a record that had changed.
pub fn after_status_write(tries: u32, updated: bool) -> (r: StatusStep)
    ensures
        r == (if updated {
            StatusStep::Done
        } else if tries < STATUS_ATTEMPTS {
            StatusStep::Retry
        } else {
            StatusStep::Failed(ArchiveOutboxError::StorageUnavailable)
        }),
{
    if updated {
        StatusStep::Done
    } else if tries < STATUS_ATTEMPTS {
        StatusStep::Retry
    } else {
        StatusStep::Failed(ArchiveOutboxError::StorageUnavailable)
    }
}

/// A pass after it has looked at the given records, one after the other.
pub open spec fn run_over(start: SyncRunView, seen: Seq<(Seq<char>, ItemOutcome)>) -> SyncRunView
    decreases seen.len(),
{
    if seen.len() == 0 {
        start
    } else {
        run_over(start, seen.drop_last()).step(seen.last().0, seen.last().1)
    }
}

/// Whether a pass would have looked at each of the given records.
pub open spec fn within_bounds(start: SyncRunView, seen: Seq<(Seq<char>, ItemOutcome)>) -> bool {
    forall|n: int| 0 <= n < seen.len() ==> #[trigger] run_over(start, seen.take(n)).goes_on()
}

/// Every pass is bounded and accounts for everything it looked at: it sends no more
/// than its limit, looks at no more than a page, and each record that it looked at is
/// published, put off, left to an operator or passed over.
pub proof fn pass_is_bounded(
    limit: nat,
    page_len: nat,
    acknowledged_cursor: Option<i64>,
    seen: Seq<(Seq<char>, ItemOutcome)>,
)
    requires
        limit <= MAX_SYNC_BATCH,
        within_bounds(begun(limit, page_len, acknowledged_cursor), seen),
    ensures
        run_over(begun(limit, page_len, acknowledged_cursor), seen).sound(),
        run_over(begun(limit, page_len, acknowledged_cursor), seen).report.scanned == seen.len(),
    decreases seen.len(),
{
    let start = begun(limit, page_len, acknowledged_cursor);
    if seen.len() > 0 {
        let shorter = seen.drop_last();
        assert forall|n: int| 0 <= n < shorter.len() implies #[trigger] run_over(
            start,
            shorter.take(n),
        ).goes_on() by {
            assert(shorter.take(n) =~= seen.take(n));
        }
        pass_is_bounded(limit, page_len, acknowledged_cursor, shorter);
        assert(seen.take(seen.len() - 1) =~= shorter);
        assert(run_over(start, seen.take(seen.len() - 1)).goes_on());
        assert(run_over(start, seen) == run_over(start, shorter).step(seen.last().0, seen.last().1));
        keeps_shape(start, shorter);
    }
}

/// Looking at a record changes neither the bounds of a pass nor what is after them.
proof fn keeps_shape(start: SyncRunView, seen: Seq<(Seq<char>, ItemOutcome)>)
    ensures
        run_over(start, seen).limit == start.limit,
        run_over(start, seen).candidates == start.candidates,
        run_over(start, seen).has_more == start.has_more,
    decreases seen.len(),
{
    if seen.len() > 0 {
        keeps_shape(start, seen.drop_last());
    }
}

/// Whether one place is not before another.
pub open spec fn not_before(a: Option<i64>, b: Option<i64>) -> bool {
    match (a, b) {
        (_, None) => true,
        (None, Some(_)) => false,
        (Some(x), Some(y)) => x >= y,
    }
}

/// The place that the archive has acknowledged never falls back, whatever a pass does.
pub proof fn acknowledged_cursor_never_falls(
    start: SyncRunView,
    seen: Seq<(Seq<char>, ItemOutcome)>,
)
    ensures
        not_before(
            run_over(start, seen).report.acknowledged_cursor,
            start.report.acknowledged_cursor,
        ),
    decreases seen.len(),
{
    if seen.len() > 0 {
        acknowledged_cursor_never_falls(start, seen.drop_last());
    }
}

/// The record of the passes never falls behind what it said before, nor behind the
/// report that is written.
pub proof fn stored_cursor_never_falls(current: Option<JsonTree>, candidate: Option<i64>)
    ensures
        acknowledged(current) matches Some(a) ==> (merged_cursor(current, candidate) matches JsonTree::Int(
            n,
        ) && n >= a),
        candidate matches Some(b) ==> (merged_cursor(current, candidate) matches JsonTree::Int(n) && n
            >= b),
{
}

/// A pass leaves no record out: where records are left that it has not looked at, the
/// next pass goes on right after the last one that it did look at.
pub proof fn next_pass_goes_on(
    limit: nat,
    page_len: nat,
    acknowledged_cursor: Option<i64>,
    seen: Seq<(Seq<char>, ItemOutcome)>,
)
    requires
        0 < limit <= MAX_SYNC_BATCH,
        within_bounds(begun(limit, page_len, acknowledged_cursor), seen),
        seen.len() > 0,
    ensures
        run_over(begun(limit, page_len, acknowledged_cursor), seen).finished().next_scan_after_request_id
            == (if seen.len() < page_len {
            Some(seen.last().0)
        } else {
            None
        }),
{
    let start = begun(limit, page_len, acknowledged_cursor);
    pass_is_bounded(limit, page_len, acknowledged_cursor, seen);
    keeps_shape(start, seen);
}

} // verus!
