//! The outbox itself: evidence is put in, counted and listed.

use vstd::prelude::*;

use crate::archive_outbox::envelope;
use crate::archive_outbox::envelope::{
    envelope_from_input, idempotency_mapping, is_safe_identifier, ArchiveEvidenceEnvelope,
    ArchiveEvidenceInput, ArchiveOutboxError, EnvelopeView, ARCHIVE_INGEST_SCHEMA,
};
use crate::archive_outbox::state;
use crate::archive_outbox::state::{
    read_state_or_default, ArchiveEvidenceSyncStatus, StatusView, STATES_NS,
};
use crate::archive_outbox::sync;
use crate::archive_outbox::sync::{page_envelope, read_acknowledged_cursor, read_number};
use crate::json;
use crate::json::Json;
use crate::ports;
use crate::ports::{
    BatchView, ContextView, ExpectationView, StorageBatch, Stored, WriteContext, WriteView,
};
use crate::text;
use crate::text::{is_before, same};

verus! {

/// Where the envelopes are stored.
pub const RECORDS_NS: &'static str = "archive_evidence_records_v1";

/// Where the idempotency keys are stored.
pub const IDEMPOTENCY_NS: &'static str = "archive_evidence_idempotency_v1";

/// The most records of one answer.
pub const MAX_QUERY_BATCH: usize = 100;

/// The answer to evidence that was put in.
#[derive(Debug)]
pub struct ArchiveEnqueueReceipt {
    pub evidence: ArchiveEvidenceEnvelope,
    pub sync: ArchiveEvidenceSyncStatus,
    pub duplicate: bool,
}

/// Evidence and how far it has come.
#[derive(Debug)]
pub struct ArchiveEvidenceRecord {
    pub evidence: ArchiveEvidenceEnvelope,
    pub sync: ArchiveEvidenceSyncStatus,
}

/// Which records are asked for.
#[derive(Debug)]
pub struct ArchiveEvidenceQuery {
    pub tenant_id: Option<String>,
    pub workspace_id: Option<String>,
    pub after_request_id: Option<String>,
    pub limit: usize,
}

impl Default for ArchiveEvidenceQuery {
    fn default() -> (r: ArchiveEvidenceQuery)
        ensures
            r == (ArchiveEvidenceQuery {
                tenant_id: None,
                workspace_id: None,
                after_request_id: None,
                limit: MAX_QUERY_BATCH,
            }),
    {
        ArchiveEvidenceQuery {
            tenant_id: None,
            workspace_id: None,
            after_request_id: None,
            limit: MAX_QUERY_BATCH,
        }
    }
}

/// The records that were asked for, and where to go on.
#[derive(Debug)]
pub struct ArchiveEvidencePage {
    pub records: Vec<ArchiveEvidenceRecord>,
    pub next_after_request_id: Option<String>,
}

/// How many records are in which state.
#[derive(Debug)]
pub struct ArchiveOutboxStatus {
    pub schema: String,
    pub total: usize,
    pub pending: usize,
    pub leased: usize,
    pub published: usize,
    pub unavailable: usize,
    pub reconciliation_required: usize,
    pub oldest_pending_at_ms: Option<i64>,
    pub last_sync_at_ms: Option<i64>,
    pub acknowledged_cursor: Option<i64>,
}

/// One record of the outbox, as it was read.
#[derive(Debug)]
pub struct LoadedEvidence {
    pub envelope: Stored<ArchiveEvidenceEnvelope>,
    pub state: Stored<ArchiveEvidenceSyncStatus>,
}

/// The outbox, as storage holds it.
#[derive(Debug)]
pub struct ArchiveEvidenceOutbox {
    records: Vec<LoadedEvidence>,
    sync_status: Option<Json>,
}

/// The writes that put evidence in: the envelope, its idempotency key and its first
/// state, none of which may be there.
pub open spec fn enqueue_batch(e: EnvelopeView, occurred_at_ms: i64, context: ContextView) -> BatchView {
    BatchView {
        writes: seq![
            WriteView {
                namespace: RECORDS_NS@,
                key: e.request_id,
                value: envelope::envelope_tree(e),
                context,
            },
            WriteView {
                namespace: IDEMPOTENCY_NS@,
                key: e.idempotency_key,
                value: envelope::mapping_tree(e),
                context,
            },
            WriteView {
                namespace: STATES_NS@,
                key: e.request_id,
                value: state::status_tree(state::pending_view(occurred_at_ms)),
                context,
            },
        ],
        expectations: seq![
            ExpectationView { namespace: RECORDS_NS@, key: e.request_id, value: None },
            ExpectationView { namespace: IDEMPOTENCY_NS@, key: e.idempotency_key, value: None },
            ExpectationView { namespace: STATES_NS@, key: e.request_id, value: None },
        ],
    }
}

/// What evidence that is put in asks for: once the writes are through, the receipt is
/// the answer.
#[derive(Debug)]
pub struct EnqueuePlan {
    pub receipt: ArchiveEnqueueReceipt,
    pub batch: StorageBatch,
}

/// The first fault of a page, if there is one.
pub open spec fn first_page_fault(page: Seq<(String, Stored<ArchiveEvidenceEnvelope>)>) -> Option<
    ArchiveOutboxError,
>
    decreases page.len(),
{
    if page.len() == 0 {
        None
    } else {
        match first_page_fault(page.drop_last()) {
            Some(error) => Some(error),
            None => sync::page_fault(page.last().0@, page.last().1),
        }
    }
}

/// The envelopes of a page.
pub open spec fn page_views(page: Seq<(String, Stored<ArchiveEvidenceEnvelope>)>) -> Seq<EnvelopeView> {
    Seq::new(page.len(), |i: int| page[i].1->Present_0@)
}

/// What a list of envelopes says.
pub open spec fn envelope_views(list: Seq<ArchiveEvidenceEnvelope>) -> Seq<EnvelopeView> {
    Seq::new(list.len(), |i: int| list[i]@)
}

impl ArchiveEvidenceOutbox {
    /// The records of the outbox.
    pub closed spec fn records(&self) -> Seq<LoadedEvidence> {
        self.records@
    }

    /// The record of the passes of delivery.
    pub closed spec fn sync_record(&self) -> Option<Json> {
        self.sync_status
    }

    /// The outbox that storage holds.
    pub fn new(records: Vec<LoadedEvidence>, sync_status: Option<Json>) -> (r: ArchiveEvidenceOutbox)
        ensures
            r.records() == records@,
            r.sync_record() == sync_status,
    {
        ArchiveEvidenceOutbox { records, sync_status }
    }
}

/// Plans the writes that put redacted evidence in, and the receipt of it.
pub fn plan_enqueue(input: &ArchiveEvidenceInput) -> (r: Result<EnqueuePlan, ArchiveOutboxError>)
    ensures
        match (r, envelope::envelope_of(*input)) {
            (Ok(plan), Ok(e)) => plan.receipt.evidence@ == e && plan.receipt.sync@
                == state::pending_view(input.occurred_at_ms) && !plan.receipt.duplicate
                && plan.batch@ == enqueue_batch(
                e,
                input.occurred_at_ms,
                ports::context_of(input.context),
            ),
            (Err(e), Err(error)) => e == error,
            _ => false,
        },
{
    let evidence = match envelope_from_input(input) {
        Ok(e) => e,
        Err(e) => {
            return Err(e);
        },
    };
    let sync = ArchiveEvidenceSyncStatus::pending(evidence.occurred_at_ms);
    let context = &WriteContext::of(&input.context);
    let request_id: &str = evidence.request_id.as_str();
    let key: &str = evidence.idempotency_key.as_str();
    let batch = StorageBatch::new().write(RECORDS_NS, request_id, evidence.value(), context).write(
        IDEMPOTENCY_NS,
        key,
        idempotency_mapping(&evidence),
        context,
    ).write(STATES_NS, request_id, sync.value(), context).expect(RECORDS_NS, request_id, None).expect(
        IDEMPOTENCY_NS,
        key,
        None,
    ).expect(STATES_NS, request_id, None);
    Ok(
        EnqueuePlan {
            receipt: ArchiveEnqueueReceipt { evidence, sync, duplicate: false },
            batch,
        },
    )
}

/// Takes the records of a page.
pub fn page_envelopes(page: Vec<(String, Stored<ArchiveEvidenceEnvelope>)>) -> (r: Result<
    Vec<ArchiveEvidenceEnvelope>,
    ArchiveOutboxError,
>)
    ensures
        match first_page_fault(page@) {
            Some(error) => r matches Err(e) && e == error,
            None => r matches Ok(list) && envelope_views(list@) == page_views(page@),
        },
{
    let mut rest = page;
    let ghost whole = rest@;
    let mut out: Vec<ArchiveEvidenceEnvelope> = Vec::new();
    let n: usize = rest.len();
    let mut i: usize = 0;
    assert(whole.take(0) =~= Seq::empty());
    assert(whole.skip(0) =~= whole);
    while i < n
        invariant
            i <= n == whole.len(),
            whole == page@,
            rest@ == whole.skip(i as int),
            first_page_fault(whole.take(i as int)) is None,
            envelope_views(out@) == page_views(whole.take(i as int)),
        decreases n - i,
    {
        let (key, stored) = rest.remove(0);
        proof {
            assert(whole.skip(i as int)[0] == whole[i as int]);
            assert(rest@ =~= whole.skip(i + 1));
            assert(whole.take(i + 1).drop_last() =~= whole.take(i as int));
            assert(whole.take(i + 1).last() == whole[i as int]);
        }
        match page_envelope(key.as_str(), stored) {
            Ok(e) => {
                let ghost before = out@;
                out.push(e);
                assert(envelope_views(out@) =~= envelope_views(before).push(e@));
                assert(page_views(whole.take(i + 1)) =~= page_views(whole.take(i as int)).push(e@));
            },
            Err(error) => {
                proof {
                    fault_stays(whole, i + 1);
                }
                return Err(error);
            },
        }
        i += 1;
    }
    assert(whole.take(n as int) =~= whole);
    Ok(out)
}

/// The first fault of a page does not depend on what comes after it.
proof fn fault_stays(page: Seq<(String, Stored<ArchiveEvidenceEnvelope>)>, n: int)
    requires
        0 <= n <= page.len(),
        first_page_fault(page.take(n)) is Some,
    ensures
        first_page_fault(page) == first_page_fault(page.take(n)),
    decreases page.len() - n,
{
    if n < page.len() {
        assert(page.take(n + 1).drop_last() =~= page.take(n));
        fault_stays(page, n + 1);
    } else {
        assert(page.take(n) =~= page);
    }
}

/// The first of the records that cannot be read says why they cannot be listed.
pub open spec fn first_record_fault(records: Seq<LoadedEvidence>) -> Option<ArchiveOutboxError>
    decreases records.len(),
{
    if records.len() == 0 {
        None
    } else {
        match first_record_fault(records.drop_last()) {
            Some(error) => Some(error),
            None => record_fault(records.last()),
        }
    }
}

/// Why a record cannot be read, if it cannot.
pub open spec fn record_fault(record: LoadedEvidence) -> Option<ArchiveOutboxError> {
    match record.envelope {
        Stored::Present(e) => match envelope::envelope_integrity(e@) {
            Ok(_) => None,
            Err(error) => Some(error),
        },
        _ => Some(ArchiveOutboxError::StorageInconsistent),
    }
}

/// The state of a record that can be read.
pub open spec fn record_status(record: LoadedEvidence) -> Result<StatusView, ArchiveOutboxError> {
    state::status_or_pending(record.state, record.envelope->Present_0.occurred_at_ms)
}

fn find_record_fault(record: &LoadedEvidence) -> (r: Option<ArchiveOutboxError>)
    ensures
        r == record_fault(*record),
{
    match &record.envelope {
        Stored::Present(e) => match e.verify_integrity() {
            Ok(_) => None,
            Err(error) => Some(error),
        },
        _ => Some(ArchiveOutboxError::StorageInconsistent),
    }
}

fn find_first_fault(records: &Vec<LoadedEvidence>) -> (r: Option<ArchiveOutboxError>)
    ensures
        r == first_record_fault(records@),
{
    let mut i: usize = 0;
    assert(records@.take(0) =~= Seq::empty());
    while i < records.len()
        invariant
            i <= records.len(),
            first_record_fault(records@.take(i as int)) is None,
        decreases records.len() - i,
    {
        proof {
            assert(records@.take(i + 1).drop_last() =~= records@.take(i as int));
            assert(records@.take(i + 1).last() == records@[i as int]);
        }
        let fault = find_record_fault(&records[i]);
        if fault.is_some() {
            proof {
                record_fault_stays(records@, i + 1);
            }
            return fault;
        }
        i += 1;
    }
    assert(records@.take(records@.len() as int) =~= records@);
    None
}

proof fn record_fault_stays(records: Seq<LoadedEvidence>, n: int)
    requires
        0 <= n <= records.len(),
        first_record_fault(records.take(n)) is Some,
    ensures
        first_record_fault(records) == first_record_fault(records.take(n)),
    decreases records.len() - n,
{
    if n < records.len() {
        assert(records.take(n + 1).drop_last() =~= records.take(n));
        record_fault_stays(records, n + 1);
    } else {
        assert(records.take(n) =~= records);
    }
}

/// Where no record has a fault, each of them can be read.
pub proof fn faultless_records(records: Seq<LoadedEvidence>, i: int)
    requires
        first_record_fault(records) is None,
        0 <= i < records.len(),
    ensures
        record_fault(records[i]) is None,
        records[i].envelope is Present,
    decreases records.len(),
{
    if i < records.len() - 1 {
        assert(records.drop_last()[i] == records[i]);
        faultless_records(records.drop_last(), i);
    }
}

/// What the outbox counts.
#[verifier::ext_equal]
pub struct CountView {
    pub total: nat,
    pub pending: nat,
    pub leased: nat,
    pub published: nat,
    pub unavailable: nat,
    pub reconciliation_required: nat,
    pub oldest_pending_at_ms: Option<i64>,
}

/// The earlier of two times.
pub open spec fn earlier(current: Option<i64>, candidate: i64) -> Option<i64> {
    match current {
        Some(at) => if candidate < at {
            Some(candidate)
        } else {
            Some(at)
        },
        None => Some(candidate),
    }
}

/// The counts with one more record.
pub open spec fn counted(c: CountView, state: Seq<char>, occurred_at_ms: i64) -> CountView {
    let c = CountView { total: c.total + 1, ..c };
    if state == "published"@ {
        CountView { published: c.published + 1, ..c }
    } else if state == "reconciliation_required"@ {
        CountView { reconciliation_required: c.reconciliation_required + 1, ..c }
    } else if state == "leased"@ {
        CountView { leased: c.leased + 1, ..c }
    } else if state == "unavailable"@ {
        CountView {
            unavailable: c.unavailable + 1,
            oldest_pending_at_ms: earlier(c.oldest_pending_at_ms, occurred_at_ms),
            ..c
        }
    } else {
        CountView {
            pending: c.pending + 1,
            oldest_pending_at_ms: earlier(c.oldest_pending_at_ms, occurred_at_ms),
            ..c
        }
    }
}

/// The counts of records that can all be read; nothing where the state of one cannot.
pub open spec fn counts(records: Seq<LoadedEvidence>) -> Option<CountView>
    decreases records.len(),
{
    if records.len() == 0 {
        Some(
            CountView {
                total: 0,
                pending: 0,
                leased: 0,
                published: 0,
                unavailable: 0,
                reconciliation_required: 0,
                oldest_pending_at_ms: None,
            },
        )
    } else {
        match (counts(records.drop_last()), record_status(records.last())) {
            (Some(c), Ok(status)) => Some(
                counted(c, status.state, records.last().envelope->Present_0.occurred_at_ms),
            ),
            _ => None,
        }
    }
}

impl ArchiveOutboxStatus {
    /// What the status counts.
    pub open spec fn counts(self) -> CountView {
        CountView {
            total: self.total as nat,
            pending: self.pending as nat,
            leased: self.leased as nat,
            published: self.published as nat,
            unavailable: self.unavailable as nat,
            reconciliation_required: self.reconciliation_required as nat,
            oldest_pending_at_ms: self.oldest_pending_at_ms,
        }
    }
}

impl CountView {
    /// Each record is counted once, in one state.
    pub open spec fn adds_up(self) -> bool {
        self.total == self.pending + self.leased + self.published + self.unavailable
            + self.reconciliation_required
    }
}

fn earliest(current: Option<i64>, candidate: i64) -> (r: Option<i64>)
    ensures
        r == earlier(current, candidate),
{
    match current {
        Some(at) => if candidate < at {
            Some(candidate)
        } else {
            Some(at)
        },
        None => Some(candidate),
    }
}

fn count_one(status: &mut ArchiveOutboxStatus, state: &str, occurred_at_ms: i64)
    requires
        old(status).counts().adds_up(),
        old(status).total < usize::MAX,
    ensures
        final(status).counts() == counted(old(status).counts(), state@, occurred_at_ms),
        final(status).counts().adds_up(),
        final(status).schema == old(status).schema,
        final(status).last_sync_at_ms == old(status).last_sync_at_ms,
        final(status).acknowledged_cursor == old(status).acknowledged_cursor,
{
    status.total = status.total + 1;
    if same(state, "published") {
        status.published = status.published + 1;
    } else if same(state, "reconciliation_required") {
        status.reconciliation_required = status.reconciliation_required + 1;
    } else if same(state, "leased") {
        status.leased = status.leased + 1;
    } else if same(state, "unavailable") {
        status.unavailable = status.unavailable + 1;
        status.oldest_pending_at_ms = earliest(status.oldest_pending_at_ms, occurred_at_ms);
    } else {
        status.pending = status.pending + 1;
        status.oldest_pending_at_ms = earliest(status.oldest_pending_at_ms, occurred_at_ms);
    }
}

proof fn uncounted_stays(records: Seq<LoadedEvidence>, n: int)
    requires
        0 <= n <= records.len(),
        counts(records.take(n)) is None,
    ensures
        counts(records) is None,
    decreases records.len() - n,
{
    if n < records.len() {
        assert(records.take(n + 1).drop_last() =~= records.take(n));
        uncounted_stays(records, n + 1);
    } else {
        assert(records.take(n) =~= records);
    }
}

impl ArchiveEvidenceOutbox {
    /// Counts the records by their state.
    pub fn status(&self) -> (r: Result<ArchiveOutboxStatus, ArchiveOutboxError>)
        ensures
            match first_record_fault(self.records()) {
                Some(error) => r matches Err(e) && e == error,
                None => match counts(self.records()) {
                    None => r matches Err(e) && e == ArchiveOutboxError::StorageInconsistent,
                    Some(c) => r matches Ok(status) && status.schema@ == ARCHIVE_INGEST_SCHEMA@
                        && status.counts() == c && sync::option_int(status.last_sync_at_ms) == (
                    match self.sync_record() {
                        Some(value) => json::i64_member(value@, "lastSyncAtMs"@),
                        None => None,
                    }) && sync::option_int(status.acknowledged_cursor) == sync::acknowledged(
                        ports::option_tree(self.sync_record()),
                    ),
                },
            },
    {
        if let Some(error) = find_first_fault(&self.records) {
            return Err(error);
        }
        let mut status = ArchiveOutboxStatus {
            schema: ARCHIVE_INGEST_SCHEMA.to_owned(),
            total: 0,
            pending: 0,
            leased: 0,
            published: 0,
            unavailable: 0,
            reconciliation_required: 0,
            oldest_pending_at_ms: None,
            last_sync_at_ms: read_number(&self.sync_status, "lastSyncAtMs"),
            acknowledged_cursor: read_acknowledged_cursor(&self.sync_status),
        };
        let ghost first = status;
        let mut i: usize = 0;
        assert(self.records@.take(0) =~= Seq::empty());
        while i < self.records.len()
            invariant
                i <= self.records.len(),
                first_record_fault(self.records@) is None,
                counts(self.records@.take(i as int)) == Some(status.counts()),
                status.counts().adds_up(),
                status.total == i,
                status.schema == first.schema,
                status.last_sync_at_ms == first.last_sync_at_ms,
                status.acknowledged_cursor == first.acknowledged_cursor,
            decreases self.records.len() - i,
        {
            proof {
                assert(self.records@.take(i + 1).drop_last() =~= self.records@.take(i as int));
                assert(self.records@.take(i + 1).last() == self.records@[i as int]);
                faultless_records(self.records@, i as int);
            }
            match &self.records[i].envelope {
                Stored::Present(e) => {
                    match read_state_or_default(&self.records[i].state, e) {
                        Ok(sync) => {
                            count_one(&mut status, sync.state.as_str(), e.occurred_at_ms);
                        },
                        Err(error) => {
                            proof {
                                uncounted_stays(self.records@, i + 1);
                            }
                            return Err(error);
                        },
                    }
                },
                _ => {
                    return Err(ArchiveOutboxError::StorageInconsistent);
                },
            }
            i += 1;
        }
        assert(self.records@.take(self.records@.len() as int) =~= self.records@);
        Ok(status)
    }
}

/// Each record of the outbox is counted once, in one state.
pub proof fn status_adds_up(records: Seq<LoadedEvidence>)
    ensures
        counts(records) matches Some(c) ==> c.adds_up() && c.total == records.len(),
    decreases records.len(),
{
    if records.len() > 0 {
        status_adds_up(records.drop_last());
    }
}

/// Whether an optional filter lets a text through.
pub open spec fn passes(filter: Option<String>, value: Seq<char>) -> bool {
    filter matches Some(wanted) ==> value == wanted@
}

/// Whether a record is one that is asked for.
pub open spec fn is_wanted(record: LoadedEvidence, query: ArchiveEvidenceQuery) -> bool {
    let e = record.envelope->Present_0@;
    &&& passes(query.tenant_id, e.tenant_id)
    &&& passes(query.workspace_id, e.workspace_id)
    &&& query.after_request_id matches Some(after) ==> text::before(after@, e.request_id)
}

/// Whether one record comes after another in an answer: by the request, and where two
/// have the same one, by the time.
pub open spec fn comes_after(a: LoadedEvidence, b: LoadedEvidence) -> bool {
    let x = a.envelope->Present_0@;
    let y = b.envelope->Present_0@;
    text::before(y.request_id, x.request_id) || (x.request_id == y.request_id && x.occurred_at_ms
        > y.occurred_at_ms)
}

/// A list of records with one more, put behind all that do not come after it.
pub open spec fn placed(records: Seq<LoadedEvidence>, list: Seq<usize>, at: usize) -> Seq<usize>
    decreases list.len(),
{
    if list.len() == 0 || !comes_after(records[list.last() as int], records[at as int]) {
        list.push(at)
    } else {
        placed(records, list.drop_last(), at).push(list.last())
    }
}

/// The first `n` records that are asked for, in the order of an answer.
pub open spec fn selected(
    records: Seq<LoadedEvidence>,
    query: ArchiveEvidenceQuery,
    n: int,
) -> Seq<usize>
    decreases n,
{
    if n <= 0 {
        Seq::empty()
    } else if is_wanted(records[n - 1], query) {
        placed(records, selected(records, query, n - 1), (n - 1) as usize)
    } else {
        selected(records, query, n - 1)
    }
}

proof fn placing_inserts(records: Seq<LoadedEvidence>, list: Seq<usize>, at: usize, j: int)
    requires
        0 <= j <= list.len(),
        forall|k: int|
            j <= k < list.len() ==> comes_after(
                records[#[trigger] list[k] as int],
                records[at as int],
            ),
        j > 0 ==> !comes_after(records[list[j - 1] as int], records[at as int]),
    ensures
        placed(records, list, at) == list.insert(j, at),
    decreases list.len(),
{
    if j == list.len() {
        assert(list.insert(j, at) =~= list.push(at));
    } else {
        let shorter = list.drop_last();
        assert(list[list.len() - 1] == list.last());
        placing_inserts(records, shorter, at, j);
        assert(list.insert(j, at) =~= shorter.insert(j, at).push(list.last()));
    }
}

proof fn placing_keeps_members(records: Seq<LoadedEvidence>, list: Seq<usize>, at: usize, x: usize)
    ensures
        placed(records, list, at).contains(x) <==> list.contains(x) || x == at,
        placed(records, list, at).len() == list.len() + 1,
    decreases list.len(),
{
    let whole = placed(records, list, at);
    if list.len() == 0 || !comes_after(records[list.last() as int], records[at as int]) {
        if list.contains(x) {
            let k = list.index_of(x);
            assert(whole[k] == x);
        }
        assert(whole[whole.len() - 1] == at);
    } else {
        let shorter = list.drop_last();
        let inner = placed(records, shorter, at);
        placing_keeps_members(records, shorter, at, x);
        assert(whole =~= inner.push(list.last()));
        if inner.contains(x) {
            let k = inner.index_of(x);
            assert(whole[k] == x);
        }
        assert(whole[whole.len() - 1] == list.last());
        if list.contains(x) {
            let k = list.index_of(x);
            if k < list.len() - 1 {
                assert(shorter[k] == x);
            }
        }
        if shorter.contains(x) {
            let k = shorter.index_of(x);
            assert(list[k] == x);
        }
        if whole.contains(x) {
            let k = whole.index_of(x);
            if k < whole.len() - 1 {
                assert(inner[k] == x);
            } else {
                assert(list[list.len() - 1] == x);
            }
        }
    }
}

/// An answer lists each record that is asked for, and no other.
pub proof fn answer_is_complete(
    records: Seq<LoadedEvidence>,
    query: ArchiveEvidenceQuery,
    n: int,
    x: usize,
)
    requires
        0 <= n <= records.len() <= usize::MAX,
    ensures
        selected(records, query, n).contains(x) <==> x < n && is_wanted(records[x as int], query),
        selected(records, query, n).len() <= n,
    decreases n,
{
    if n > 0 {
        answer_is_complete(records, query, n - 1, x);
        if is_wanted(records[n - 1], query) {
            placing_keeps_members(
                records,
                selected(records, query, n - 1),
                (n - 1) as usize,
                x,
            );
        }
    }
}

/// Whether a list is in the order of an answer.
pub open spec fn in_order(records: Seq<LoadedEvidence>, list: Seq<usize>) -> bool {
    forall|i: int, j: int|
        0 <= i < j < list.len() ==> !comes_after(
            records[#[trigger] list[i] as int],
            records[#[trigger] list[j] as int],
        )
}

proof fn after_is_transitive(a: LoadedEvidence, b: LoadedEvidence, c: LoadedEvidence)
    requires
        !comes_after(a, b),
        !comes_after(b, c),
    ensures
        !comes_after(a, c),
{
    let x = a.envelope->Present_0@.request_id;
    let y = b.envelope->Present_0@.request_id;
    let z = c.envelope->Present_0@.request_id;
    text::before_total(x, y);
    text::before_total(y, z);
    text::before_total(x, z);
    text::before_irreflexive(x);
    text::before_irreflexive(z);
    if text::before(z, x) {
        if text::before(x, y) {
            text::before_transitive(z, x, y);
        }
    }
    if text::before(x, y) && text::before(y, z) {
        text::before_transitive(x, y, z);
        if text::before(z, x) {
            text::before_transitive(x, z, x);
        }
    }
}

proof fn after_is_asymmetric(a: LoadedEvidence, b: LoadedEvidence)
    requires
        comes_after(a, b),
    ensures
        !comes_after(b, a),
{
    let x = a.envelope->Present_0@.request_id;
    let y = b.envelope->Present_0@.request_id;
    text::before_irreflexive(x);
    if text::before(x, y) && text::before(y, x) {
        text::before_transitive(x, y, x);
    }
}

proof fn placing_keeps_order(records: Seq<LoadedEvidence>, list: Seq<usize>, at: usize)
    requires
        in_order(records, list),
    ensures
        in_order(records, placed(records, list, at)),
    decreases list.len(),
{
    let whole = placed(records, list, at);
    if list.len() == 0 || !comes_after(records[list.last() as int], records[at as int]) {
        assert forall|i: int, j: int| 0 <= i < j < whole.len() implies !comes_after(
            records[#[trigger] whole[i] as int],
            records[#[trigger] whole[j] as int],
        ) by {
            if j == list.len() {
                if i < list.len() - 1 {
                    assert(!comes_after(
                        records[list[i] as int],
                        records[list[list.len() - 1] as int],
                    ));
                    after_is_transitive(
                        records[list[i] as int],
                        records[list.last() as int],
                        records[at as int],
                    );
                }
            } else {
                assert(whole[i] == list[i] && whole[j] == list[j]);
            }
        }
    } else {
        let shorter = list.drop_last();
        let inner = placed(records, shorter, at);
        assert forall|i: int, j: int| 0 <= i < j < shorter.len() implies !comes_after(
            records[#[trigger] shorter[i] as int],
            records[#[trigger] shorter[j] as int],
        ) by {
            assert(shorter[i] == list[i] && shorter[j] == list[j]);
        }
        placing_keeps_order(records, shorter, at);
        after_is_asymmetric(records[list.last() as int], records[at as int]);
        assert forall|i: int, j: int| 0 <= i < j < whole.len() implies !comes_after(
            records[#[trigger] whole[i] as int],
            records[#[trigger] whole[j] as int],
        ) by {
            if j == inner.len() {
                let x = inner[i];
                assert(inner.contains(x));
                placing_keeps_members(records, shorter, at, x);
                if x != at {
                    let k = shorter.index_of(x);
                    assert(list[k] == x && list[list.len() - 1] == list.last());
                }
            } else {
                assert(whole[i] == inner[i] && whole[j] == inner[j]);
            }
        }
    }
}

/// An answer lists its records in the order of their requests.
pub proof fn answer_is_in_order(records: Seq<LoadedEvidence>, query: ArchiveEvidenceQuery, n: int)
    ensures
        in_order(records, selected(records, query, n)),
    decreases n,
{
    if n > 0 {
        answer_is_in_order(records, query, n - 1);
        if is_wanted(records[n - 1], query) {
            placing_keeps_order(
                records,
                selected(records, query, n - 1),
                (n - 1) as usize,
            );
        }
    }
}

proof fn placing_names_once(records: Seq<LoadedEvidence>, list: Seq<usize>, at: usize)
    requires
        list.no_duplicates(),
        !list.contains(at),
    ensures
        placed(records, list, at).no_duplicates(),
    decreases list.len(),
{
    let whole = placed(records, list, at);
    if list.len() == 0 || !comes_after(records[list.last() as int], records[at as int]) {
        assert forall|i: int, j: int| 0 <= i < j < whole.len() implies whole[i] != whole[j] by {
            assert(list.contains(list[i]));
        }
    } else {
        let shorter = list.drop_last();
        let inner = placed(records, shorter, at);
        if shorter.contains(at) {
            let k = shorter.index_of(at);
            assert(list[k] == at);
        }
        assert(list[list.len() - 1] == list.last());
        placing_names_once(records, shorter, at);
        placing_keeps_members(records, shorter, at, list.last());
        if shorter.contains(list.last()) {
            let k = shorter.index_of(list.last());
            assert(list[k] == list[list.len() - 1]);
        }
        assert(!inner.contains(list.last()));
        assert forall|i: int, j: int| 0 <= i < j < whole.len() implies whole[i] != whole[j] by {
            assert(whole[i] == inner[i]);
            assert(inner.contains(inner[i]));
        }
    }
}

/// An answer lists no record twice.
pub proof fn answer_names_no_record_twice(
    records: Seq<LoadedEvidence>,
    query: ArchiveEvidenceQuery,
    n: int,
)
    requires
        0 <= n <= records.len() <= usize::MAX,
    ensures
        selected(records, query, n).no_duplicates(),
    decreases n,
{
    if n > 0 {
        answer_names_no_record_twice(records, query, n - 1);
        answer_is_complete(records, query, n - 1, (n - 1) as usize);
        if is_wanted(records[n - 1], query) {
            placing_names_once(records, selected(records, query, n - 1), (n - 1) as usize);
        }
    }
}

/// Why a query is refused, if it is.
pub open spec fn query_fault(query: ArchiveEvidenceQuery) -> Option<ArchiveOutboxError> {
    if query.limit == 0 {
        Some(ArchiveOutboxError::InvalidLimit)
    } else if (query.tenant_id matches Some(id) && !envelope::identifier_is_safe(id@)) || (
    query.workspace_id matches Some(id) && !envelope::identifier_is_safe(id@)) || (
    query.after_request_id matches Some(id) && !envelope::identifier_is_safe(id@)) {
        Some(ArchiveOutboxError::InvalidIdentifier)
    } else {
        None
    }
}

fn filter_is_safe(filter: &Option<String>) -> (r: bool)
    ensures
        r == (filter matches Some(id) ==> envelope::identifier_is_safe(id@)),
{
    match filter {
        Some(id) => is_safe_identifier(id.as_str()),
        None => true,
    }
}

fn lets_through(filter: &Option<String>, value: &str) -> (r: bool)
    ensures
        r == passes(*filter, value@),
{
    match filter {
        Some(wanted) => same(value, wanted.as_str()),
        None => true,
    }
}

fn wanted(e: &ArchiveEvidenceEnvelope, query: &ArchiveEvidenceQuery) -> (r: bool)
    ensures
        forall|record: LoadedEvidence|
            record.envelope == Stored::Present(*e) ==> r == #[trigger] is_wanted(record, *query),
{
    let later: bool = match &query.after_request_id {
        Some(after) => is_before(after.as_str(), e.request_id.as_str()),
        None => true,
    };
    lets_through(&query.tenant_id, e.tenant_id.as_str()) && lets_through(
        &query.workspace_id,
        e.workspace_id.as_str(),
    ) && later
}

/// How many records an answer holds.
pub open spec fn answer_len(list: Seq<usize>, limit: usize) -> nat {
    let most: nat = if limit < MAX_QUERY_BATCH {
        limit as nat
    } else {
        MAX_QUERY_BATCH as nat
    };
    if list.len() < most {
        list.len()
    } else {
        most
    }
}

/// Whether the state of each of the first records of a list can be read.
pub open spec fn states_are_readable(records: Seq<LoadedEvidence>, list: Seq<usize>, n: nat) -> bool {
    forall|k: int| 0 <= k < n ==> record_status(records[#[trigger] list[k] as int]) is Ok
}

/// Whether a page holds the first records of a list and says where to go on.
pub open spec fn answers(
    page: ArchiveEvidencePage,
    records: Seq<LoadedEvidence>,
    list: Seq<usize>,
    limit: usize,
) -> bool {
    let n = answer_len(list, limit);
    &&& page.records@.len() == n
    &&& forall|k: int|
        0 <= k < n ==> (#[trigger] page.records@[k]).evidence@
            == records[list[k] as int].envelope->Present_0@ && Ok::<StatusView, ArchiveOutboxError>(
            page.records@[k].sync@,
        ) == record_status(records[list[k] as int])
    &&& text::option_text(page.next_after_request_id) == (if list.len() > n {
        Some(records[list[n - 1] as int].envelope->Present_0@.request_id)
    } else {
        None
    })
}

/// Whether an answer is the one that a query of some records gives.
pub open spec fn gives_page(
    records: Seq<LoadedEvidence>,
    query: ArchiveEvidenceQuery,
    r: Result<ArchiveEvidencePage, ArchiveOutboxError>,
) -> bool {
    match query_fault(query) {
        Some(error) => r matches Err(e) && e == error,
        None => match first_record_fault(records) {
            Some(error) => r matches Err(e) && e == error,
            None => {
                let list = selected(records, query, records.len() as int);
                if states_are_readable(records, list, answer_len(list, query.limit)) {
                    r matches Ok(page) && answers(page, records, list, query.limit)
                } else {
                    r matches Err(e) && e == ArchiveOutboxError::StorageInconsistent
                }
            },
        },
    }
}

impl ArchiveEvidenceOutbox {
    /// Whether record `a` comes after record `b`.
    fn is_after(&self, a: usize, b: usize) -> (r: bool)
        requires
            a < self.records@.len(),
            b < self.records@.len(),
            self.records@[a as int].envelope is Present,
            self.records@[b as int].envelope is Present,
        ensures
            r == comes_after(self.records@[a as int], self.records@[b as int]),
    {
        match (&self.records[a].envelope, &self.records[b].envelope) {
            (Stored::Present(x), Stored::Present(y)) => {
                is_before(y.request_id.as_str(), x.request_id.as_str()) || (same(
                    x.request_id.as_str(),
                    y.request_id.as_str(),
                ) && x.occurred_at_ms > y.occurred_at_ms)
            },
            _ => false,
        }
    }

    /// Puts record `at` in its place.
    fn place(&self, list: &mut Vec<usize>, at: usize)
        requires
            at < self.records@.len(),
            first_record_fault(self.records@) is None,
            forall|k: int| 0 <= k < old(list)@.len() ==> #[trigger] old(list)@[k] < self.records@.len(),
        ensures
            final(list)@ == placed(self.records@, old(list)@, at),
            forall|k: int|
                0 <= k < final(list)@.len() ==> #[trigger] final(list)@[k] < self.records@.len(),
    {
        let ghost before = list@;
        let mut j: usize = list.len();
        let mut done: bool = j == 0;
        proof {
            faultless_records(self.records@, at as int);
        }
        while !done
            invariant
                j <= list@.len(),
                list@ == before,
                at < self.records@.len(),
                self.records@[at as int].envelope is Present,
                first_record_fault(self.records@) is None,
                forall|k: int| 0 <= k < before.len() ==> #[trigger] before[k] < self.records@.len(),
                forall|k: int|
                    j <= k < before.len() ==> comes_after(
                        self.records@[#[trigger] before[k] as int],
                        self.records@[at as int],
                    ),
                !done ==> j > 0,
                done ==> j == 0 || !comes_after(
                    self.records@[before[j - 1] as int],
                    self.records@[at as int],
                ),
            decreases j + (if done {
                0int
            } else {
                1int
            }),
        {
            let other: usize = list[j - 1];
            proof {
                assert(before[j - 1] < self.records@.len());
                faultless_records(self.records@, other as int);
            }
            if self.is_after(other, at) {
                j -= 1;
                if j == 0 {
                    done = true;
                }
            } else {
                done = true;
            }
        }
        list.insert(j, at);
        proof {
            placing_inserts(self.records@, before, at, j as int);
            assert forall|k: int| 0 <= k < list@.len() implies #[trigger] list@[k]
                < self.records@.len() by {
                if k < j {
                    assert(list@[k] == before[k]);
                } else if k > j {
                    assert(list@[k] == before[k - 1]);
                }
            }
        }
    }

    /// Lists the records that are asked for, in the order of their requests.
    pub fn query(&self, query: &ArchiveEvidenceQuery) -> (r: Result<
        ArchiveEvidencePage,
        ArchiveOutboxError,
    >)
        ensures
            gives_page(self.records(), *query, r),
    {
        if query.limit == 0 {
            return Err(ArchiveOutboxError::InvalidLimit);
        }
        if !filter_is_safe(&query.tenant_id) || !filter_is_safe(&query.workspace_id)
            || !filter_is_safe(&query.after_request_id) {
            return Err(ArchiveOutboxError::InvalidIdentifier);
        }
        if let Some(error) = find_first_fault(&self.records) {
            return Err(error);
        }
        let list = self.select(query);
        let limit: usize = if query.limit < MAX_QUERY_BATCH {
            query.limit
        } else {
            MAX_QUERY_BATCH
        };
        let n: usize = if list.len() < limit {
            list.len()
        } else {
            limit
        };
        let mut records: Vec<ArchiveEvidenceRecord> = Vec::new();
        let mut k: usize = 0;
        while k < n
            invariant
                k <= n <= list@.len(),
                n == answer_len(list@, query.limit),
                first_record_fault(self.records@) is None,
                list@ == selected(self.records@, *query, self.records@.len() as int),
                query_fault(*query) is None,
                forall|j: int| 0 <= j < list@.len() ==> #[trigger] list@[j] < self.records@.len(),
                records@.len() == k,
                forall|j: int|
                    0 <= j < k ==> (#[trigger] records@[j]).evidence@
                        == self.records@[list@[j] as int].envelope->Present_0@ && Ok::<
                        StatusView,
                        ArchiveOutboxError,
                    >(records@[j].sync@) == record_status(self.records@[list@[j] as int]),
            decreases n - k,
        {
            let at: usize = list[k];
            proof {
                assert(list@[k as int] < self.records@.len());
                faultless_records(self.records@, at as int);
            }
            match &self.records[at].envelope {
                Stored::Present(e) => match read_state_or_default(&self.records[at].state, e) {
                    Ok(sync) => {
                        records.push(ArchiveEvidenceRecord { evidence: e.copy(), sync });
                    },
                    Err(error) => {
                        proof {
                            assert(record_status(self.records@[list@[k as int] as int]) is Err);
                        }
                        return Err(error);
                    },
                },
                _ => {
                    return Err(ArchiveOutboxError::StorageInconsistent);
                },
            }
            k += 1;
        }
        let next_after_request_id: Option<String> = if list.len() > n {
            Some(records[n - 1].evidence.request_id.clone())
        } else {
            None
        };
        proof {
            assert(states_are_readable(self.records@, list@, n as nat)) by {
                assert forall|j: int| 0 <= j < n implies record_status(
                    self.records@[#[trigger] list@[j] as int],
                ) is Ok by {
                    assert(Ok::<StatusView, ArchiveOutboxError>(records@[j].sync@) == record_status(
                        self.records@[list@[j] as int],
                    ));
                }
            }
        }
        Ok(ArchiveEvidencePage { records, next_after_request_id })
    }

    fn select(&self, query: &ArchiveEvidenceQuery) -> (r: Vec<usize>)
        requires
            first_record_fault(self.records@) is None,
        ensures
            r@ == selected(self.records@, *query, self.records@.len() as int),
            forall|j: int| 0 <= j < r@.len() ==> #[trigger] r@[j] < self.records@.len(),
    {
        let mut list: Vec<usize> = Vec::new();
        let mut i: usize = 0;
        while i < self.records.len()
            invariant
                i <= self.records@.len(),
                first_record_fault(self.records@) is None,
                list@ == selected(self.records@, *query, i as int),
                forall|j: int| 0 <= j < list@.len() ==> #[trigger] list@[j] < self.records@.len(),
            decreases self.records@.len() - i,
        {
            proof {
                faultless_records(self.records@, i as int);
            }
            let take: bool = match &self.records[i].envelope {
                Stored::Present(e) => wanted(e, query),
                _ => false,
            };
            assert(take == is_wanted(self.records@[i as int], *query));
            if take {
                self.place(&mut list, i);
            }
            i += 1;
        }
        list
    }
}

} // verus!
