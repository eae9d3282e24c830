//! One bounded pass of delivery as a whole: each piece of evidence is claimed, sent and
//! settled, and the pass is reported. The caller performs what a step asks for and hands
//! back what became of it.

use vstd::prelude::*;

use crate::archive_outbox::envelope;
use crate::archive_outbox::envelope::{
    ArchiveEvidenceEnvelope, ArchiveIngestRequest, ArchiveOutboxError, EnvelopeView,
};
use crate::archive_outbox::state;
use crate::archive_outbox::state::{
    claim_due, judge_answer, load_or_repair_state, ArchiveEvidenceSyncStatus, ArchiveIngestReceipt,
    ArchiveTransportFailure, ClaimStep, IngestVerdict, StatusView,
};
use crate::archive_outbox::store;
use crate::archive_outbox::store::{page_envelopes, ArchiveEvidenceOutbox};
use crate::archive_outbox::sync;
use crate::archive_outbox::sync::{
    after_status_write, check_sync, item_outcome, read_acknowledged_cursor, read_scan_cursor,
    settle_evidence, store_scan_cursor, store_sync_status, ArchiveSyncReport, ArchiveSyncRun,
    ItemOutcome, StatusStep, SyncRunView, MAX_SYNC_BATCH, MAX_SYNC_SCAN, STATUS_ATTEMPTS,
};
use crate::json::Json;
use crate::ports;
use crate::ports::{StorageBatch, Stored};
use crate::text;

verus! {

/// Who delivers, when, and at most how much.
#[derive(Debug)]
pub struct SyncCase {
    /// Stays the same for one worker, so that its passes go on where they left off.
    pub owner: String,
    pub now_ms: i64,
    pub limit: usize,
}

/// A pass under way: how far it has come, and the evidence that it may look at.
#[derive(Debug)]
pub struct Round {
    pub run: ArchiveSyncRun,
    pub envelopes: Vec<ArchiveEvidenceEnvelope>,
}

/// Where a pass stands: what it waits for.
#[derive(Debug)]
pub enum SyncStage {
    /// Where the last pass of the worker left off.
    Locating,
    /// The records that it may look at.
    Paging,
    /// The record of the passes.
    Starting { envelopes: Vec<ArchiveEvidenceEnvelope>, page_len: usize },
    /// How far a piece of evidence has come.
    Loading { round: Round },
    /// What became of a state that storage had lost.
    Repairing { round: Round, status: ArchiveEvidenceSyncStatus },
    /// Whether the evidence could be claimed.
    Claiming { round: Round, claimed: ArchiveEvidenceSyncStatus },
    /// What the archive answers.
    Sending { round: Round, claimed: ArchiveEvidenceSyncStatus },
    /// Whether the answer could be written down.
    Settling { round: Round, verdict: IngestVerdict },
    /// What became of the place where the next pass goes on.
    Leaving { report: ArchiveSyncReport },
    /// The record of the passes, before the report is written over it.
    Reviewing { report: ArchiveSyncReport, tries: u32 },
    /// Whether the report could be written.
    Reporting { report: ArchiveSyncReport, tries: u32 },
}

/// What became of what a step asked for.
#[derive(Debug)]
pub enum SyncEvent {
    /// It failed.
    Failed,
    /// A record, if there is one.
    Record(Option<Json>),
    /// Records by their keys, as far as they can be read.
    Page(Vec<(String, Stored<ArchiveEvidenceEnvelope>)>),
    State(Stored<ArchiveEvidenceSyncStatus>),
    /// Whether the writes went through; otherwise something was not as they expected.
    Written(bool),
    /// The record is there.
    Kept,
    /// What the archive answered.
    Answer(Result<ArchiveIngestReceipt, ArchiveTransportFailure>),
}

/// What a step asks for.
#[derive(Debug)]
pub enum SyncAction {
    LoadCursor { owner: String },
    /// To list so many records that come after one.
    ListPage { after: Option<String>, limit: usize },
    LoadStatus,
    LoadState { request_id: String },
    /// To put the record, unless there is one; the very same counts as put.
    PutIfAbsent(StorageBatch),
    /// To change the record, where it is as expected.
    Change(StorageBatch),
    /// To put the first report; one that is there already was not expected.
    PutFirst(StorageBatch),
    /// To put the record, whatever is there.
    Put(StorageBatch),
    /// To hand the request to the archive.
    Ingest(ArchiveIngestRequest),
}

/// What comes of a step.
#[derive(Debug)]
pub enum SyncStep {
    Ask { stage: SyncStage, action: SyncAction },
    End(Result<ArchiveSyncReport, ArchiveOutboxError>),
}

impl Round {
    /// The evidence that the pass looks at.
    pub open spec fn current(self) -> EnvelopeView {
        self.envelopes@[self.run@.report.scanned as int]@
    }

    /// What holds of a pass that looks at evidence.
    pub open spec fn is_open(self) -> bool {
        self.run@.sound() && self.run@.goes_on() && self.envelopes@.len() == self.run@.candidates
    }
}

/// The pass that a stage is in the middle of, while it looks at evidence.
pub open spec fn round_of(stage: SyncStage) -> Option<Round> {
    match stage {
        SyncStage::Loading { round } | SyncStage::Repairing { round, .. } | SyncStage::Claiming {
            round,
            ..
        } | SyncStage::Sending { round, .. } | SyncStage::Settling { round, .. } => Some(round),
        _ => None,
    }
}

/// Whether a pass can have come to a stage.
pub open spec fn sync_reached(stage: SyncStage) -> bool {
    match stage {
        SyncStage::Starting { envelopes, page_len } => envelopes@.len() == (if page_len
            > MAX_SYNC_SCAN {
            MAX_SYNC_SCAN
        } else {
            page_len
        }),
        SyncStage::Reviewing { tries, .. } | SyncStage::Reporting { tries, .. } => tries
            < STATUS_ATTEMPTS,
        _ => round_of(stage) matches Some(round) ==> round.is_open(),
    }
}

/// Whether an event is one that a stage waits for.
pub open spec fn sync_fits(stage: SyncStage, event: SyncEvent) -> bool {
    sync_reached(stage) && (event is Failed || match stage {
        SyncStage::Locating | SyncStage::Starting { .. } | SyncStage::Reviewing { .. } => event is Record,
        SyncStage::Paging => event is Page,
        SyncStage::Loading { .. } => event is State,
        SyncStage::Repairing { .. } | SyncStage::Leaving { .. } => event is Kept,
        SyncStage::Claiming { .. } | SyncStage::Settling { .. } | SyncStage::Reporting { .. } => event is Written,
        SyncStage::Sending { .. } => event is Answer,
    })
}

/// The most requests of a pass.
pub open spec fn bounded_limit(limit: usize) -> nat {
    if limit < MAX_SYNC_BATCH {
        limit as nat
    } else {
        MAX_SYNC_BATCH as nat
    }
}

/// Whether a step goes on with a pass: with the next evidence, or where there is none with
/// the place where the next pass goes on.
pub open spec fn proceeds(
    case: SyncCase,
    run: SyncRunView,
    envelopes: Vec<ArchiveEvidenceEnvelope>,
    r: SyncStep,
) -> bool {
    if run.goes_on() {
        r matches SyncStep::Ask {
            stage: SyncStage::Loading { round },
            action: SyncAction::LoadState { request_id },
        } && round.run@ == run && round.envelopes == envelopes && request_id@
            == round.current().request_id
    } else {
        r matches SyncStep::Ask {
            stage: SyncStage::Leaving { report },
            action: SyncAction::Put(batch),
        } && report@ == run.finished() && batch@ == sync::cursor_batch(
            case.owner@,
            case.now_ms as int,
            run.finished().next_scan_after_request_id,
        )
    }
}

/// Whether a step goes on with a pass after what became of the evidence that it looked at.
pub open spec fn records(case: SyncCase, round: Round, outcome: ItemOutcome, r: SyncStep) -> bool {
    proceeds(case, round.run@.step(round.current().request_id, outcome), round.envelopes, r)
}

/// Whether a step claims evidence in a state, or passes it over where it is not due.
pub open spec fn claims(case: SyncCase, round: Round, current: StatusView, r: SyncStep) -> bool {
    if current.due(case.now_ms) {
        let to = state::claimed_view(current, case.owner@, case.now_ms);
        r matches SyncStep::Ask {
            stage: SyncStage::Claiming { round: kept, claimed },
            action: SyncAction::Change(batch),
        } && kept == round && claimed@ == to && batch@ == state::state_batch(
            round.current().request_id,
            current,
            to,
            state::state_key(
                round.current().request_id,
                "claim-"@ + text::signed_decimal(to.fencing_token),
            ),
        )
    } else {
        records(case, round, ItemOutcome::NotClaimed, r)
    }
}

/// Whether a step is the first of a pass.
pub open spec fn sync_begins(case: SyncCase, r: SyncStep) -> bool {
    if !envelope::identifier_is_safe(case.owner@) {
        r == SyncStep::End(Err(ArchiveOutboxError::InvalidSyncOwner))
    } else if case.now_ms <= 0 {
        r == SyncStep::End(Err(ArchiveOutboxError::InvalidOccurredAt))
    } else if case.limit == 0 {
        r == SyncStep::End(Err(ArchiveOutboxError::InvalidLimit))
    } else {
        r matches SyncStep::Ask {
            stage: SyncStage::Locating,
            action: SyncAction::LoadCursor { owner },
        } && owner@ == case.owner@
    }
}

/// Whether a step is the one that a stage and an event lead to.
pub open spec fn sync_leads_to(case: SyncCase, stage: SyncStage, event: SyncEvent, r: SyncStep) -> bool {
    match (stage, event) {
        (_, SyncEvent::Failed) => r == SyncStep::End(Err(ArchiveOutboxError::StorageUnavailable)),
        (SyncStage::Locating, SyncEvent::Record(found)) => match sync::cursor_of(
            ports::option_tree(found),
        ) {
            Err(error) => r == SyncStep::End(Err(error)),
            Ok(after) => r matches SyncStep::Ask {
                stage: SyncStage::Paging,
                action: SyncAction::ListPage { after: asked, limit },
            } && text::option_text(asked) == after && limit == MAX_SYNC_SCAN + 1,
        },
        (SyncStage::Paging, SyncEvent::Page(page)) => match store::first_page_fault(page@) {
            Some(error) => r == SyncStep::End(Err(error)),
            None => r matches SyncStep::Ask {
                stage: SyncStage::Starting { envelopes, page_len },
                action: SyncAction::LoadStatus,
            } && page_len == page@.len() && store::envelope_views(envelopes@) == store::page_views(
                page@,
            ).take(
                if page@.len() > MAX_SYNC_SCAN {
                    MAX_SYNC_SCAN as int
                } else {
                    page@.len() as int
                },
            ),
        },
        (SyncStage::Starting { envelopes, page_len }, SyncEvent::Record(found)) => exists|
            cursor: Option<i64>,
        |
            #![trigger sync::option_int(cursor)]
            sync::option_int(cursor) == sync::acknowledged(ports::option_tree(found)) && proceeds(
                case,
                sync::begun(bounded_limit(case.limit), page_len as nat, cursor),
                envelopes,
                r,
            ),
        (SyncStage::Loading { round }, SyncEvent::State(stored)) => match state::stored_status(
            stored,
        ) {
            Err(error) => r == SyncStep::End(Err(error)),
            Ok(Some(current)) => claims(case, round, current, r),
            Ok(None) => {
                let e = round.envelopes@[round.run@.report.scanned as int];
                r matches SyncStep::Ask {
                    stage: SyncStage::Repairing { round: kept, status },
                    action: SyncAction::PutIfAbsent(batch),
                } && kept == round && status@ == state::pending_view(e.occurred_at_ms) && batch@
                    == state::first_state_batch(
                    e@.request_id,
                    state::pending_view(e.occurred_at_ms),
                    state::state_key(e@.request_id, "repair"@),
                )
            },
        },
        (SyncStage::Repairing { round, status }, SyncEvent::Kept) => claims(
            case,
            round,
            status@,
            r,
        ),
        (SyncStage::Claiming { round, claimed }, SyncEvent::Written(through)) => if through {
            r matches SyncStep::Ask {
                stage: SyncStage::Sending { round: kept, claimed: held },
                action: SyncAction::Ingest(request),
            } && kept == round && held == claimed && request@ == (EnvelopeView {
                request_digest_sha256: Seq::empty(),
                ..round.current()
            })
        } else {
            records(case, round, ItemOutcome::NotClaimed, r)
        },
        (SyncStage::Sending { round, claimed }, SyncEvent::Answer(answer)) => r matches SyncStep::Ask {
            stage: SyncStage::Settling { round: kept, verdict },
            action: SyncAction::Change(batch),
        } && kept == round && state::verdict_is_on(verdict, answer, round.current()) && batch@
            == sync::settling_batch(round.current(), claimed@, case.now_ms, verdict),
        (SyncStage::Settling { round, verdict }, SyncEvent::Written(through)) => records(
            case,
            round,
            sync::outcome_of(verdict, through),
            r,
        ),
        (SyncStage::Leaving { report }, SyncEvent::Kept) => r matches SyncStep::Ask {
            stage: SyncStage::Reviewing { report: kept, tries },
            action: SyncAction::LoadStatus,
        } && kept == report && tries == 0,
        (SyncStage::Reviewing { report, tries }, SyncEvent::Record(found)) => r matches SyncStep::Ask {
            stage: SyncStage::Reporting { report: kept, tries: same },
            action,
        } && kept == report && same == tries && match found {
            None => action matches SyncAction::PutFirst(batch) && batch@ == sync::report_batch(
                case.owner@,
                case.now_ms as int,
                report@,
                None,
            ),
            Some(current) => action matches SyncAction::Change(batch) && batch@
                == sync::report_batch(
                case.owner@,
                case.now_ms as int,
                report@,
                Some(current@),
            ),
        },
        (SyncStage::Reporting { report, tries }, SyncEvent::Written(through)) => if through {
            r == SyncStep::End(Ok(report))
        } else if tries + 1 < STATUS_ATTEMPTS {
            r == (SyncStep::Ask {
                stage: SyncStage::Reviewing { report, tries: (tries + 1) as u32 },
                action: SyncAction::LoadStatus,
            })
        } else {
            r == SyncStep::End(Err(ArchiveOutboxError::StorageUnavailable))
        },
        _ => false,
    }
}

impl ArchiveEvidenceOutbox {
    /// Begins a pass of delivery.
    pub fn begin_sync(case: &SyncCase) -> (r: SyncStep)
        ensures
            sync_begins(*case, r),
    {
        match check_sync(case.owner.as_str(), case.now_ms, case.limit) {
            Ok(_) => SyncStep::Ask {
                stage: SyncStage::Locating,
                action: SyncAction::LoadCursor { owner: case.owner.clone() },
            },
            Err(error) => SyncStep::End(Err(error)),
        }
    }

    fn proceed(case: &SyncCase, run: ArchiveSyncRun, envelopes: Vec<ArchiveEvidenceEnvelope>) -> (r:
        SyncStep)
        requires
            run@.sound(),
            envelopes@.len() == run@.candidates,
        ensures
            proceeds(*case, run@, envelopes, r),
            r matches SyncStep::Ask { stage, .. } && sync_reached(stage),
    {
        match run.next() {
            Some(at) => {
                let request_id = envelopes[at].request_id.clone();
                SyncStep::Ask {
                    stage: SyncStage::Loading { round: Round { run, envelopes } },
                    action: SyncAction::LoadState { request_id },
                }
            },
            None => {
                let report = run.finish();
                let batch = store_scan_cursor(
                    case.owner.as_str(),
                    case.now_ms,
                    &report.next_scan_after_request_id,
                );
                SyncStep::Ask {
                    stage: SyncStage::Leaving { report },
                    action: SyncAction::Put(batch),
                }
            },
        }
    }

    fn record(case: &SyncCase, round: Round, outcome: ItemOutcome) -> (r: SyncStep)
        requires
            round.is_open(),
        ensures
            records(*case, round, outcome, r),
            r matches SyncStep::Ask { stage, .. } && sync_reached(stage),
    {
        let Round { run, envelopes } = round;
        let mut run = run;
        let at: usize = match run.next() {
            Some(at) => at,
            None => 0,
        };
        run.record(envelopes[at].request_id.as_str(), outcome);
        Self::proceed(case, run, envelopes)
    }

    fn claim(case: &SyncCase, round: Round, current: ArchiveEvidenceSyncStatus) -> (r: SyncStep)
        requires
            round.is_open(),
        ensures
            claims(*case, round, current@, r),
            r matches SyncStep::Ask { stage, .. } && sync_reached(stage),
    {
        let at: usize = match round.run.next() {
            Some(at) => at,
            None => 0,
        };
        match claim_due(&current, &round.envelopes[at], case.owner.as_str(), case.now_ms) {
            ClaimStep::NotDue => Self::record(case, round, ItemOutcome::NotClaimed),
            ClaimStep::Claim { claimed, batch } => SyncStep::Ask {
                stage: SyncStage::Claiming { round, claimed },
                action: SyncAction::Change(batch),
            },
        }
    }

    fn load(case: &SyncCase, round: Round, stored: &Stored<ArchiveEvidenceSyncStatus>) -> (r: SyncStep)
        requires
            round.is_open(),
        ensures
            sync_leads_to(*case, SyncStage::Loading { round }, SyncEvent::State(*stored), r),
            r matches SyncStep::Ask { stage, .. } ==> sync_reached(stage),
    {
        let at: usize = match round.run.next() {
            Some(at) => at,
            None => 0,
        };
        match load_or_repair_state(stored, &round.envelopes[at]) {
            Err(error) => SyncStep::End(Err(error)),
            Ok(loaded) => match loaded.repair {
                None => Self::claim(case, round, loaded.status),
                Some(batch) => SyncStep::Ask {
                    stage: SyncStage::Repairing { round, status: loaded.status },
                    action: SyncAction::PutIfAbsent(batch),
                },
            },
        }
    }

    fn send(
        case: &SyncCase,
        round: Round,
        claimed: ArchiveEvidenceSyncStatus,
        through: bool,
    ) -> (r: SyncStep)
        requires
            round.is_open(),
        ensures
            sync_leads_to(
                *case,
                SyncStage::Claiming { round, claimed },
                SyncEvent::Written(through),
                r,
            ),
            r matches SyncStep::Ask { stage, .. } ==> sync_reached(stage),
    {
        if !through {
            return Self::record(case, round, ItemOutcome::NotClaimed);
        }
        let at: usize = match round.run.next() {
            Some(at) => at,
            None => 0,
        };
        let request = round.envelopes[at].ingest_request();
        SyncStep::Ask {
            stage: SyncStage::Sending { round, claimed },
            action: SyncAction::Ingest(request),
        }
    }

    fn settle(
        case: &SyncCase,
        round: Round,
        claimed: ArchiveEvidenceSyncStatus,
        answer: Result<ArchiveIngestReceipt, ArchiveTransportFailure>,
    ) -> (r: SyncStep)
        requires
            round.is_open(),
        ensures
            sync_leads_to(
                *case,
                SyncStage::Sending { round, claimed },
                SyncEvent::Answer(answer),
                r,
            ),
            r matches SyncStep::Ask { stage, .. } ==> sync_reached(stage),
    {
        let at: usize = match round.run.next() {
            Some(at) => at,
            None => 0,
        };
        let verdict = judge_answer(answer, &round.envelopes[at]);
        let batch = settle_evidence(&round.envelopes[at], &claimed, case.now_ms, &verdict);
        SyncStep::Ask {
            stage: SyncStage::Settling { round, verdict },
            action: SyncAction::Change(batch),
        }
    }

    fn start(
        case: &SyncCase,
        envelopes: Vec<ArchiveEvidenceEnvelope>,
        page_len: usize,
        found: &Option<Json>,
    ) -> (r: SyncStep)
        requires
            sync_reached(SyncStage::Starting { envelopes, page_len }),
        ensures
            sync_leads_to(
                *case,
                SyncStage::Starting { envelopes, page_len },
                SyncEvent::Record(*found),
                r,
            ),
            r matches SyncStep::Ask { stage, .. } ==> sync_reached(stage),
    {
        let limit: usize = if case.limit < MAX_SYNC_BATCH {
            case.limit
        } else {
            MAX_SYNC_BATCH
        };
        let cursor = read_acknowledged_cursor(found);
        assert(sync::option_int(cursor) == sync::acknowledged(ports::option_tree(*found)));
        Self::proceed(case, ArchiveSyncRun::begin(limit, page_len, cursor), envelopes)
    }

    fn take_page(case: &SyncCase, page: Vec<(String, Stored<ArchiveEvidenceEnvelope>)>) -> (r: SyncStep)
        ensures
            sync_leads_to(*case, SyncStage::Paging, SyncEvent::Page(page), r),
            r matches SyncStep::Ask { stage, .. } ==> sync_reached(stage),
    {
        let ghost shown = store::page_views(page@);
        let page_len: usize = page.len();
        let mut envelopes = match page_envelopes(page) {
            Ok(list) => list,
            Err(error) => {
                return SyncStep::End(Err(error));
            },
        };
        let ghost whole = envelopes@;
        if page_len > MAX_SYNC_SCAN {
            envelopes.truncate(MAX_SYNC_SCAN);
        }
        proof {
            let n: int = if page_len > MAX_SYNC_SCAN {
                MAX_SYNC_SCAN as int
            } else {
                page_len as int
            };
            assert(store::envelope_views(whole).len() == shown.len());
            assert(envelopes@ =~= whole.take(n));
            assert(store::envelope_views(envelopes@) =~= shown.take(n));
        }
        SyncStep::Ask {
            stage: SyncStage::Starting { envelopes, page_len },
            action: SyncAction::LoadStatus,
        }
    }

    /// The next step of a pass of delivery. What the archive cannot take is written down as
    /// something to be tried again or to be looked at, and reported without the words of
    /// the transport.
    pub fn sync(case: &SyncCase, stage: SyncStage, event: SyncEvent) -> (r: SyncStep)
        requires
            sync_fits(stage, event),
        ensures
            sync_leads_to(*case, stage, event, r),
            r matches SyncStep::Ask { stage: next, .. } ==> sync_reached(next),
    {
        match (stage, event) {
            (_, SyncEvent::Failed) => SyncStep::End(Err(ArchiveOutboxError::StorageUnavailable)),
            (SyncStage::Locating, SyncEvent::Record(found)) => match read_scan_cursor(&found) {
                Err(error) => SyncStep::End(Err(error)),
                Ok(after) => SyncStep::Ask {
                    stage: SyncStage::Paging,
                    action: SyncAction::ListPage { after, limit: MAX_SYNC_SCAN + 1 },
                },
            },
            (SyncStage::Paging, SyncEvent::Page(page)) => Self::take_page(case, page),
            (SyncStage::Starting { envelopes, page_len }, SyncEvent::Record(found)) => Self::start(
                case,
                envelopes,
                page_len,
                &found,
            ),
            (SyncStage::Loading { round }, SyncEvent::State(stored)) => Self::load(
                case,
                round,
                &stored,
            ),
            (SyncStage::Repairing { round, status }, _) => Self::claim(case, round, status),
            (SyncStage::Claiming { round, claimed }, SyncEvent::Written(through)) => Self::send(
                case,
                round,
                claimed,
                through,
            ),
            (SyncStage::Sending { round, claimed }, SyncEvent::Answer(answer)) => Self::settle(
                case,
                round,
                claimed,
                answer,
            ),
            (SyncStage::Settling { round, verdict }, SyncEvent::Written(through)) => Self::record(
                case,
                round,
                item_outcome(verdict, through),
            ),
            (SyncStage::Leaving { report }, _) => SyncStep::Ask {
                stage: SyncStage::Reviewing { report, tries: 0 },
                action: SyncAction::LoadStatus,
            },
            (SyncStage::Reviewing { report, tries }, SyncEvent::Record(found)) => {
                let batch = store_sync_status(case.owner.as_str(), case.now_ms, &report, &found);
                let action = match found {
                    None => SyncAction::PutFirst(batch),
                    Some(_) => SyncAction::Change(batch),
                };
                SyncStep::Ask { stage: SyncStage::Reporting { report, tries }, action }
            },
            (SyncStage::Reporting { report, tries }, SyncEvent::Written(through)) => {
                match after_status_write(tries + 1, through) {
                    StatusStep::Done => SyncStep::End(Ok(report)),
                    StatusStep::Retry => SyncStep::Ask {
                        stage: SyncStage::Reviewing { report, tries: tries + 1 },
                        action: SyncAction::LoadStatus,
                    },
                    StatusStep::Failed(error) => SyncStep::End(Err(error)),
                }
            },
            _ => {
                assert(false);
                SyncStep::End(Err(ArchiveOutboxError::StorageUnavailable))
            },
        }
    }
}

/// Evidence is sent only once the claim on it is on record, and only the evidence that was
/// claimed.
pub proof fn evidence_is_sent_after_its_claim(
    case: SyncCase,
    stage: SyncStage,
    event: SyncEvent,
    r: SyncStep,
)
    requires
        sync_fits(stage, event),
        sync_leads_to(case, stage, event, r),
    ensures
        r matches SyncStep::Ask { action: SyncAction::Ingest(request), .. } ==> (
        stage matches SyncStage::Claiming { round, claimed } && event == SyncEvent::Written(true)
            && request@.request_id == round.current().request_id),
        r matches SyncStep::Ask { stage: SyncStage::Claiming { round, claimed }, action } ==> (
        action matches SyncAction::Change(batch) && batch@.writes.len() == 1
            && batch@.writes[0].namespace == state::STATES_NS@ && batch@.writes[0].key
            == round.current().request_id && batch@.writes[0].value == state::status_tree(claimed@)
            && claimed@.state == "leased"@ && claimed@.lease_owner == Some(case.owner@)),
{
}

/// Whatever the archive answers, the verdict on it is written down over the claim before the
/// pass looks at anything else, and then counted.
pub proof fn every_verdict_is_settled(
    case: SyncCase,
    round: Round,
    claimed: ArchiveEvidenceSyncStatus,
    answer: Result<ArchiveIngestReceipt, ArchiveTransportFailure>,
    settling: SyncStep,
    through: bool,
    after: SyncStep,
)
    requires
        round.is_open(),
        sync_leads_to(
            case,
            SyncStage::Sending { round, claimed },
            SyncEvent::Answer(answer),
            settling,
        ),
        sync_leads_to(case, settling->stage, SyncEvent::Written(through), after),
    ensures
        settling matches SyncStep::Ask {
            stage: SyncStage::Settling { round: kept, verdict },
            action: SyncAction::Change(batch),
        } && kept == round && state::verdict_is_on(verdict, answer, round.current()) && batch@
            == sync::settling_batch(round.current(), claimed@, case.now_ms, verdict) && records(
            case,
            round,
            sync::outcome_of(verdict, through),
            after,
        ),
        answer is Err || !(answer matches Ok(receipt) && state::receipt_is_valid(
            receipt,
            round.current(),
        )) ==> !(settling->stage->verdict matches IngestVerdict::Acknowledged(_)),
{
}

/// How many steps a pass is away from its end at most.
pub open spec fn sync_rest(stage: SyncStage) -> int {
    match stage {
        SyncStage::Locating => 6 * MAX_SYNC_SCAN + 22,
        SyncStage::Paging => 6 * MAX_SYNC_SCAN + 21,
        SyncStage::Starting { .. } => 6 * MAX_SYNC_SCAN + 20,
        SyncStage::Loading { round } => 6 * (round.run@.candidates - round.run@.report.scanned) + 10,
        SyncStage::Repairing { round, .. } => 6 * (round.run@.candidates - round.run@.report.scanned)
            + 9,
        SyncStage::Claiming { round, .. } => 6 * (round.run@.candidates - round.run@.report.scanned)
            + 8,
        SyncStage::Sending { round, .. } => 6 * (round.run@.candidates - round.run@.report.scanned)
            + 7,
        SyncStage::Settling { round, .. } => 6 * (round.run@.candidates - round.run@.report.scanned)
            + 6,
        SyncStage::Leaving { .. } => 10,
        SyncStage::Reviewing { tries, .. } => 2 * (STATUS_ATTEMPTS - tries) + 1,
        SyncStage::Reporting { tries, .. } => 2 * (STATUS_ATTEMPTS - tries),
    }
}

/// A pass comes to an end: every step brings it nearer.
pub proof fn sync_ends(case: SyncCase, stage: SyncStage, event: SyncEvent, r: SyncStep)
    requires
        sync_fits(stage, event),
        sync_leads_to(case, stage, event, r),
    ensures
        r matches SyncStep::Ask { stage: next, .. } ==> sync_reached(next) && 0 <= sync_rest(next)
            < sync_rest(stage),
{
    match (stage, event) {
        (SyncStage::Paging, SyncEvent::Page(page)) => {
            if let SyncStep::Ask { stage: SyncStage::Starting { envelopes, .. }, .. } = r {
                assert(store::envelope_views(envelopes@).len() == envelopes@.len());
                assert(store::page_views(page@).len() == page@.len());
            }
        },
        (SyncStage::Starting { envelopes, page_len }, SyncEvent::Record(found)) => {
            let cursor = choose|cursor: Option<i64>|
                #![trigger sync::option_int(cursor)]
                sync::option_int(cursor) == sync::acknowledged(ports::option_tree(found)) && proceeds(
                    case,
                    sync::begun(bounded_limit(case.limit), page_len as nat, cursor),
                    envelopes,
                    r,
                );
            assert(sync::begun(bounded_limit(case.limit), page_len as nat, cursor).sound());
        },
        _ => {
            if let Some(round) = round_of(stage) {
                let id = round.current().request_id;
                assert forall|outcome: ItemOutcome| #[trigger]
                    round.run@.step(id, outcome).sound() by {}
            }
        },
    }
}

/// A pass ends well only once the place where the next one goes on and its report are on
/// record.
pub proof fn pass_is_reported(case: SyncCase, stage: SyncStage, event: SyncEvent, r: SyncStep)
    requires
        sync_fits(stage, event),
        sync_leads_to(case, stage, event, r),
    ensures
        r matches SyncStep::End(Ok(report)) ==> (stage matches SyncStage::Reporting {
            report: kept,
            ..
        } && kept == report && event == SyncEvent::Written(true)),
        r matches SyncStep::Ask { stage: SyncStage::Reviewing { tries, .. }, .. } && tries == 0
            ==> stage is Leaving && event is Kept,
{
}

} // verus!
