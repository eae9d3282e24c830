//! Checks that what a report is made from belongs together.

pub mod evidence;

use vstd::prelude::*;

use crate::backtest_contracts;
use crate::backtest_contracts::{
    canonical_hash, BacktestAttempt, BacktestAttemptState, BacktestLifecycleEvent, BacktestResult,
    BacktestRunManifest, BacktestRunRecord,
};
use crate::json;
use crate::json::{Json, JsonMap, JsonTree};
use crate::text;
use crate::text::{same, same_as, same_option};

use super::details::ReportSnapshot;

verus! {

/// What a [`BacktestLifecycleEvent`] says.
#[verifier::ext_equal]
pub struct EventView {
    pub event_id: Seq<char>,
    pub run_id: Seq<char>,
    pub sequence: int,
    pub event_type: Seq<char>,
    pub from_state: Seq<char>,
    pub to_state: Seq<char>,
    pub attempt_id: Seq<char>,
    pub occurred_at_ms: int,
    pub previous_event_hash: Option<Seq<char>>,
    pub event_hash: Seq<char>,
    pub detail: Seq<char>,
}

impl View for BacktestLifecycleEvent {
    type V = EventView;

    open spec fn view(&self) -> EventView {
        EventView {
            event_id: self.event_id@,
            run_id: self.run_id@,
            sequence: self.sequence as int,
            event_type: self.event_type@,
            from_state: self.from_state@,
            to_state: self.to_state@,
            attempt_id: self.attempt_id@,
            occurred_at_ms: self.occurred_at_ms as int,
            previous_event_hash: text::option_text(self.previous_event_hash),
            event_hash: self.event_hash@,
            detail: self.detail@,
        }
    }
}

/// What some events say.
pub open spec fn event_views(list: Seq<BacktestLifecycleEvent>) -> Seq<EventView> {
    list.map_values(|e: BacktestLifecycleEvent| e@)
}

fn same_event(a: &BacktestLifecycleEvent, b: &BacktestLifecycleEvent) -> (r: bool)
    ensures
        r == (a@ == b@),
{
    same(a.event_id.as_str(), b.event_id.as_str()) && same(a.run_id.as_str(), b.run_id.as_str())
        && a.sequence == b.sequence && same(a.event_type.as_str(), b.event_type.as_str()) && same(
        a.from_state.as_str(),
        b.from_state.as_str(),
    ) && same(a.to_state.as_str(), b.to_state.as_str()) && same(
        a.attempt_id.as_str(),
        b.attempt_id.as_str(),
    ) && a.occurred_at_ms == b.occurred_at_ms && same_option(
        &a.previous_event_hash,
        &b.previous_event_hash,
    ) && same(a.event_hash.as_str(), b.event_hash.as_str()) && same(
        a.detail.as_str(),
        b.detail.as_str(),
    )
}

fn same_events(a: &Vec<BacktestLifecycleEvent>, b: &Vec<BacktestLifecycleEvent>) -> (r: bool)
    ensures
        r == (event_views(a@) == event_views(b@)),
{
    if a.len() != b.len() {
        assert(event_views(a@).len() != event_views(b@).len());
        return false;
    }
    let mut i: usize = 0;
    while i < a.len()
        invariant
            i <= a.len(),
            a.len() == b.len(),
            forall|j: int| 0 <= j < i ==> event_views(a@)[j] == #[trigger] event_views(b@)[j],
        decreases a.len() - i,
    {
        if !same_event(&a[i], &b[i]) {
            assert(event_views(a@)[i as int] != event_views(b@)[i as int]);
            return false;
        }
        i += 1;
    }
    assert(event_views(a@) =~= event_views(b@));
    true
}

/// What the hash of an event covers.
pub open spec fn event_content(e: EventView) -> JsonTree {
    JsonTree::Object(
        map![
            "runId"@ => JsonTree::Text(e.run_id),
            "sequence"@ => JsonTree::Int(e.sequence),
            "from"@ => JsonTree::Text(e.from_state),
            "to"@ => JsonTree::Text(e.to_state),
            "attemptId"@ => JsonTree::Text(e.attempt_id),
            "previous"@ => json::text_or_null(e.previous_event_hash),
            "detail"@ => JsonTree::Text(e.detail),
        ],
    )
}

/// The hash of the event before one of a list.
pub open spec fn previous_hash(events: Seq<EventView>, i: int) -> Option<Seq<char>> {
    if i == 0 {
        None
    } else {
        Some(events[i - 1].event_hash)
    }
}

/// Why an event does not stand at its place in the chain, if it does not. `hash` is that
/// of what the event says.
pub open spec fn event_fault(
    run_id: Seq<char>,
    events: Seq<EventView>,
    i: int,
    hash: Option<Seq<char>>,
) -> Option<Seq<char>> {
    match hash {
        None => Some("backtest_event_hash_failed"@),
        Some(h) => if events[i].run_id == run_id && events[i].sequence == i + 1
            && events[i].previous_event_hash == previous_hash(events, i) && events[i].event_hash
            == h {
            None
        } else {
            Some("backtest_report_lifecycle_integrity_failed"@)
        },
    }
}

/// Why the first `n` events are no chain, if they are not.
pub open spec fn chain_fault(run_id: Seq<char>, events: Seq<EventView>, n: int) -> Option<Seq<char>>
    decreases n,
{
    if n <= 0 {
        None
    } else {
        match chain_fault(run_id, events, n - 1) {
            Some(code) => Some(code),
            None => event_fault(
                run_id,
                events,
                n - 1,
                json::canonical_digest(event_content(events[n - 1])),
            ),
        }
    }
}

proof fn chain_fault_stays(run_id: Seq<char>, events: Seq<EventView>, n: int, m: int)
    requires
        n <= m,
        chain_fault(run_id, events, n) is Some,
    ensures
        chain_fault(run_id, events, m) == chain_fault(run_id, events, n),
    decreases m - n,
{
    if n < m {
        chain_fault_stays(run_id, events, n, m - 1);
    }
}

fn event_value(e: &BacktestLifecycleEvent) -> (r: Json)
    ensures
        r@ == event_content(e@),
{
    Json::object(
        JsonMap::new().with("runId", Json::text(e.run_id.as_str())).with(
            "sequence",
            Json::Int(e.sequence),
        ).with("from", Json::text(e.from_state.as_str())).with(
            "to",
            Json::text(e.to_state.as_str()),
        ).with("attemptId", Json::text(e.attempt_id.as_str())).with(
            "previous",
            Json::optional_text(&e.previous_event_hash),
        ).with("detail", Json::text(e.detail.as_str())),
    )
}

fn check_chain(run_id: &str, events: &Vec<BacktestLifecycleEvent>) -> (r: Result<(), String>)
    ensures
        match (r, chain_fault(run_id@, event_views(events@), events@.len() as int)) {
            (Ok(_), None) => true,
            (Err(e), Some(code)) => e@ == code,
            _ => false,
        },
{
    let ghost shown = event_views(events@);
    let mut i: usize = 0;
    while i < events.len()
        invariant
            i <= events.len(),
            shown == event_views(events@),
            chain_fault(run_id@, shown, i as int) is None,
        decreases events.len() - i,
    {
        let event: &BacktestLifecycleEvent = &events[i];
        let value = event_value(event);
        proof {
            assert(shown[i as int] == event@);
        }
        let expected = match canonical_hash(&value, "backtest_event_hash_failed") {
            Ok(hash) => hash,
            Err(code) => {
                proof {
                    chain_fault_stays(run_id@, shown, i + 1, events@.len() as int);
                }
                return Err(code);
            },
        };
        let placed: bool = event.sequence >= 1 && (event.sequence - 1) as u64 == i as u64;
        let linked: bool = if i == 0 {
            event.previous_event_hash.is_none()
        } else {
            proof {
                assert(shown[i - 1] == events@[i - 1]@);
            }
            same_as(&event.previous_event_hash, events[i - 1].event_hash.as_str())
        };
        if !same(event.run_id.as_str(), run_id) || !placed || !linked || !same(
            event.event_hash.as_str(),
            expected.as_str(),
        ) {
            proof {
                chain_fault_stays(run_id@, shown, i + 1, events@.len() as int);
            }
            return Err("backtest_report_lifecycle_integrity_failed".to_owned());
        }
        i += 1;
    }
    Ok(())
}

/// The first attempt with the given identifier.
pub open spec fn attempt_at(attempts: Seq<BacktestAttempt>, id: Seq<char>) -> Option<int>
    decreases attempts.len(),
{
    if attempts.len() == 0 {
        None
    } else {
        match attempt_at(attempts.drop_last(), id) {
            Some(at) => Some(at),
            None => if attempts.last().attempt_id@ == id {
                Some(attempts.len() - 1)
            } else {
                None
            },
        }
    }
}

proof fn attempt_found(attempts: Seq<BacktestAttempt>, id: Seq<char>, at: int)
    requires
        0 <= at < attempts.len(),
        attempt_at(attempts.take(at), id) is None,
        attempts[at].attempt_id@ == id,
    ensures
        attempt_at(attempts, id) == Some(at),
    decreases attempts.len(),
{
    let shorter = attempts.drop_last();
    if at == attempts.len() - 1 {
        assert(attempts.take(at) =~= shorter);
    } else {
        assert(shorter.take(at) =~= attempts.take(at));
        attempt_found(shorter, id, at);
    }
}

fn find_attempt(attempts: &Vec<BacktestAttempt>, id: &str) -> (r: Option<usize>)
    ensures
        match (r, attempt_at(attempts@, id@)) {
            (Some(i), Some(at)) => i == at && i < attempts@.len(),
            (None, None) => true,
            _ => false,
        },
{
    let mut i: usize = 0;
    assert(attempts@.take(0) =~= Seq::empty());
    while i < attempts.len()
        invariant
            i <= attempts.len(),
            attempt_at(attempts@.take(i as int), id@) is None,
        decreases attempts.len() - i,
    {
        if same(attempts[i].attempt_id.as_str(), id) {
            proof {
                attempt_found(attempts@, id@, i as int);
            }
            return Some(i);
        }
        proof {
            assert(attempts@.take(i + 1).drop_last() =~= attempts@.take(i as int));
            assert(attempts@.take(i + 1).last() == attempts@[i as int]);
        }
        i += 1;
    }
    assert(attempts@.take(attempts@.len() as int) =~= attempts@);
    None
}

/// Whether two results say the same.
pub open spec fn results_agree(a: BacktestResult, b: BacktestResult) -> bool {
    a.seal() == b.seal() && a.created_at_ms == b.created_at_ms && json::alike(
        backtest_contracts::result_tree(a.content),
        backtest_contracts::result_tree(b.content),
    )
}

fn same_result(a: &BacktestResult, b: &BacktestResult) -> (r: bool)
    ensures
        r == results_agree(*a, *b),
{
    let left = a.content.value();
    let right = b.content.value();
    same(a.result_hash.as_str(), b.result_hash.as_str()) && same(
        a.result_ref.as_str(),
        b.result_ref.as_str(),
    ) && a.byte_length == b.byte_length && a.created_at_ms == b.created_at_ms && left.equals(&right)
}

/// Whether a run, its manifest, its result and its data belong together.
pub open spec fn belong_together(
    run: BacktestRunRecord,
    manifest: BacktestRunManifest,
    result: BacktestResult,
    snapshot: ReportSnapshot,
) -> bool {
    &&& run.state@ == "completed"@
    &&& run.run_id@ == manifest.content.run_id@
    &&& run.manifest_hash@ == manifest.manifest_hash@
    &&& text::option_text(run.result_hash) == Some(result.result_hash@)
    &&& run.result matches Some(kept) && results_agree(kept, result)
    &&& result.content.run_id@ == run.run_id@
    &&& result.content.manifest_hash@ == manifest.manifest_hash@
    &&& snapshot.dataset_id@ == manifest.content.configuration.dataset.dataset_id@
    &&& snapshot.snapshot_ref@ == manifest.content.configuration.dataset.snapshot_ref@
    &&& snapshot.content_hash@ == manifest.content.configuration.dataset.content_hash@
    &&& snapshot.strategy_id@ == manifest.content.configuration.strategy.strategy_id@
}

fn check_together(
    run: &BacktestRunRecord,
    manifest: &BacktestRunManifest,
    result: &BacktestResult,
    snapshot: &ReportSnapshot,
) -> (r: bool)
    ensures
        r == belong_together(*run, *manifest, *result, *snapshot),
{
    let kept: bool = match &run.result {
        Some(own) => same_result(own, result),
        None => false,
    };
    same(run.state.as_str(), "completed") && same(
        run.run_id.as_str(),
        manifest.content.run_id.as_str(),
    ) && same(run.manifest_hash.as_str(), manifest.manifest_hash.as_str()) && same_as(
        &run.result_hash,
        result.result_hash.as_str(),
    ) && kept && same(result.content.run_id.as_str(), run.run_id.as_str()) && same(
        result.content.manifest_hash.as_str(),
        manifest.manifest_hash.as_str(),
    ) && same(
        snapshot.dataset_id.as_str(),
        manifest.content.configuration.dataset.dataset_id.as_str(),
    ) && same(
        snapshot.snapshot_ref.as_str(),
        manifest.content.configuration.dataset.snapshot_ref.as_str(),
    ) && same(
        snapshot.content_hash.as_str(),
        manifest.content.configuration.dataset.content_hash.as_str(),
    ) && same(
        snapshot.strategy_id.as_str(),
        manifest.content.configuration.strategy.strategy_id.as_str(),
    )
}

/// Whether the attempt that a run ended with is there and complete.
pub open spec fn attempt_is_complete(run: BacktestRunRecord, attempts: Seq<BacktestAttempt>) -> bool {
    attempt_at(attempts, run.current_attempt_id@) matches Some(at) && attempts[at].run_id@
        == run.run_id@ && attempts[at].state == BacktestAttemptState::Completed
}

/// Whether the events are those of the run, and end with its completion.
pub open spec fn events_are_complete(run: BacktestRunRecord, events: Seq<EventView>) -> bool {
    events == event_views(run.events@) && events.len() > 0 && events.last().to_state
        == "completed"@
}

/// Why no report can be made, if it cannot. `snapshot_fault` says what is wrong with the
/// data itself.
pub open spec fn inputs_fault(
    run: BacktestRunRecord,
    manifest: BacktestRunManifest,
    result: BacktestResult,
    snapshot: ReportSnapshot,
    snapshot_fault: Option<Seq<char>>,
    attempts: Seq<BacktestAttempt>,
    events: Seq<EventView>,
) -> Option<Seq<char>> {
    if !backtest_contracts::manifest_is_intact(
        manifest,
        json::canonical_json_of(backtest_contracts::manifest_tree(manifest.content)),
    ) {
        Some("backtest_manifest_integrity_failed"@)
    } else if !backtest_contracts::result_is_intact(
        result,
        json::canonical_json_of(backtest_contracts::result_tree(result.content)),
    ) {
        Some("backtest_result_integrity_failed"@)
    } else if snapshot_fault is Some {
        snapshot_fault
    } else if !belong_together(run, manifest, result, snapshot) {
        Some("backtest_report_integrity_failed"@)
    } else if !attempt_is_complete(run, attempts) {
        Some("backtest_report_attempt_integrity_failed"@)
    } else if !events_are_complete(run, events) {
        Some("backtest_report_lifecycle_integrity_failed"@)
    } else {
        chain_fault(run.run_id@, events, events.len() as int)
    }
}

/// Checks that what a report is made from is intact and belongs together.
pub fn verify_inputs(
    run: &BacktestRunRecord,
    manifest: &BacktestRunManifest,
    result: &BacktestResult,
    snapshot: &ReportSnapshot,
    snapshot_fault: &Option<String>,
    attempts: &Vec<BacktestAttempt>,
    events: &Vec<BacktestLifecycleEvent>,
) -> (r: Result<(), String>)
    ensures
        match (
            r,
            inputs_fault(
                *run,
                *manifest,
                *result,
                *snapshot,
                text::option_text(*snapshot_fault),
                attempts@,
                event_views(events@),
            ),
        ) {
            (Ok(_), None) => true,
            (Err(e), Some(code)) => e@ == code,
            _ => false,
        },
{
    manifest.verify()?;
    result.verify()?;
    if let Some(code) = snapshot_fault {
        return Err(code.clone());
    }
    if !check_together(run, manifest, result, snapshot) {
        return Err("backtest_report_integrity_failed".to_owned());
    }
    let complete: bool = match find_attempt(attempts, run.current_attempt_id.as_str()) {
        Some(at) => same(attempts[at].run_id.as_str(), run.run_id.as_str()) && attempts[at].state
            == BacktestAttemptState::Completed,
        None => false,
    };
    if !complete {
        return Err("backtest_report_attempt_integrity_failed".to_owned());
    }
    if !same_events(events, &run.events) || events.len() == 0 || !same(
        events[events.len() - 1].to_state.as_str(),
        "completed",
    ) {
        return Err("backtest_report_lifecycle_integrity_failed".to_owned());
    }
    check_chain(run.run_id.as_str(), events)
}

proof fn chain_has_no_gap(run_id: Seq<char>, events: Seq<EventView>, n: int, i: int)
    requires
        0 <= i < n <= events.len(),
        chain_fault(run_id, events, n) is None,
    ensures
        event_fault(
            run_id,
            events,
            i,
            json::canonical_digest(event_content(events[i])),
        ) is None,
    decreases n,
{
    if i < n - 1 {
        chain_has_no_gap(run_id, events, n - 1, i);
    }
}

/// The events behind a report are an unbroken chain of the run: they are numbered from
/// one, each names the hash of the one before it, each has the hash of what it says, and
/// the last one completes the run.
pub proof fn accepted_events_are_a_chain(
    run: BacktestRunRecord,
    manifest: BacktestRunManifest,
    result: BacktestResult,
    snapshot: ReportSnapshot,
    snapshot_fault: Option<Seq<char>>,
    attempts: Seq<BacktestAttempt>,
    events: Seq<EventView>,
)
    requires
        inputs_fault(run, manifest, result, snapshot, snapshot_fault, attempts, events) is None,
    ensures
        events.len() > 0,
        events.last().to_state == "completed"@,
        forall|i: int|
            0 <= i < events.len() ==> (#[trigger] events[i]).run_id == run.run_id@
                && events[i].sequence == i + 1 && events[i].previous_event_hash == previous_hash(
                events,
                i,
            ) && json::canonical_digest(event_content(events[i])) == Some(events[i].event_hash),
{
    assert forall|i: int| 0 <= i < events.len() implies (#[trigger] events[i]).run_id
        == run.run_id@ && events[i].sequence == i + 1 && events[i].previous_event_hash
        == previous_hash(events, i) && json::canonical_digest(event_content(events[i])) == Some(
        events[i].event_hash,
    ) by {
        chain_has_no_gap(run.run_id@, events, events.len() as int, i);
    }
}

} // verus!
