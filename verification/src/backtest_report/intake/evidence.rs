//! From what a report may be made: only from a completed run whose manifest, result, data, attempt
//! and events all belong to it.

use vstd::prelude::*;

use crate::backtest_contracts;
use crate::backtest_contracts::{
    BacktestAttempt, BacktestAttemptState, BacktestLifecycleEvent, BacktestResult,
    BacktestRunManifest, BacktestRunRecord,
};
use crate::backtest_report::details::ReportSnapshot;
use crate::backtest_report::intake;
use crate::backtest_report::intake::EventView;
use crate::json;
use crate::json::JsonTree;

verus! {

proof fn found_attempt_is_the_first(attempts: Seq<BacktestAttempt>, id: Seq<char>)
    ensures
        intake::attempt_at(attempts, id) matches Some(at) ==> 0 <= at < attempts.len()
            && attempts[at].attempt_id@ == id && forall|j: int|
            0 <= j < at ==> (#[trigger] attempts[j]).attempt_id@ != id,
        intake::attempt_at(attempts, id) is None ==> forall|j: int|
            0 <= j < attempts.len() ==> (#[trigger] attempts[j]).attempt_id@ != id,
    decreases attempts.len(),
{
    if attempts.len() > 0 {
        let shorter = attempts.drop_last();
        found_attempt_is_the_first(shorter, id);
        assert forall|j: int| 0 <= j < shorter.len() implies shorter[j] == #[trigger] attempts[j] by {}
    }
}

/// A report is made only of a completed run whose manifest, result and data are the ones that it
/// names, and that ended with an attempt of its own that is complete.
pub proof fn report_is_made_of_what_belongs_together(
    run: BacktestRunRecord,
    manifest: BacktestRunManifest,
    result: BacktestResult,
    snapshot: ReportSnapshot,
    snapshot_fault: Option<Seq<char>>,
    attempts: Seq<BacktestAttempt>,
    events: Seq<EventView>,
)
    requires
        intake::inputs_fault(run, manifest, result, snapshot, snapshot_fault, attempts, events)
            is None,
    ensures
        snapshot_fault is None,
        run.state@ == "completed"@,
        manifest.content.run_id@ == run.run_id@,
        manifest.manifest_hash@ == run.manifest_hash@,
        run.result_hash matches Some(hash) && hash@ == result.result_hash@,
        result.content.run_id@ == run.run_id@,
        result.content.manifest_hash@ == manifest.manifest_hash@,
        snapshot.dataset_id@ == manifest.content.configuration.dataset.dataset_id@,
        snapshot.snapshot_ref@ == manifest.content.configuration.dataset.snapshot_ref@,
        snapshot.content_hash@ == manifest.content.configuration.dataset.content_hash@,
        snapshot.strategy_id@ == manifest.content.configuration.strategy.strategy_id@,
        exists|i: int|
            0 <= i < attempts.len() && (#[trigger] attempts[i]).attempt_id@
                == run.current_attempt_id@ && attempts[i].run_id@ == run.run_id@
                && attempts[i].state == BacktestAttemptState::Completed,
        events.len() > 0,
        events.last().to_state == "completed"@,
        events.len() == run.events@.len(),
        backtest_contracts::manifest_is_intact(
            manifest,
            json::canonical_json_of(backtest_contracts::manifest_tree(manifest.content)),
        ),
        backtest_contracts::result_is_intact(
            result,
            json::canonical_json_of(backtest_contracts::result_tree(result.content)),
        ),
{
    found_attempt_is_the_first(attempts, run.current_attempt_id@);
    assert(intake::event_views(run.events@).len() == run.events@.len());
}

/// The events of a report are those of the run, one for one; each is of the run, is numbered by
/// its place, follows the one before it, and has the hash of what it says.
pub proof fn events_stand_in_their_chain(
    run: BacktestRunRecord,
    manifest: BacktestRunManifest,
    result: BacktestResult,
    snapshot: ReportSnapshot,
    snapshot_fault: Option<Seq<char>>,
    attempts: Seq<BacktestAttempt>,
    events: Seq<BacktestLifecycleEvent>,
    i: int,
)
    requires
        intake::inputs_fault(
            run,
            manifest,
            result,
            snapshot,
            snapshot_fault,
            attempts,
            intake::event_views(events),
        ) is None,
        0 <= i < events.len(),
    ensures
        events[i].run_id@ == run.run_id@,
        events[i].sequence == i + 1,
        i == 0 ==> events[i].previous_event_hash is None,
        i > 0 ==> (events[i].previous_event_hash matches Some(hash) && hash@ == events[i
            - 1].event_hash@),
        json::canonical_digest(intake::event_content(events[i]@)) == Some(events[i].event_hash@),
{
    let views = intake::event_views(events);
    assert(views.len() == events.len());
    super::chain_has_no_gap(run.run_id@, views, views.len() as int, i);
    assert(views[i] == events[i]@);
    if i > 0 {
        assert(views[i - 1] == events[i - 1]@);
    }
}

/// The hash of an event covers its run, its number, both its states, its attempt, the event before
/// it and its detail.
pub proof fn event_hash_covers_the_event(
    e: EventView,
)
    ensures
        ({
            let tree = intake::event_content(e);
            &&& json::member(tree, "runId"@) == Some(JsonTree::Text(e.run_id))
            &&& json::member(tree, "sequence"@) == Some(JsonTree::Int(e.sequence))
            &&& json::member(tree, "from"@) == Some(JsonTree::Text(e.from_state))
            &&& json::member(tree, "to"@) == Some(JsonTree::Text(e.to_state))
            &&& json::member(tree, "attemptId"@) == Some(JsonTree::Text(e.attempt_id))
            &&& json::member(tree, "detail"@) == Some(JsonTree::Text(e.detail))
            &&& e.previous_event_hash matches Some(hash) ==> json::member(tree, "previous"@) == Some(
                JsonTree::Text(hash),
            )
            &&& e.previous_event_hash is None ==> json::member(tree, "previous"@) == Some(JsonTree::Null)
        }),
{
    reveal_strlit("runId");
    reveal_strlit("sequence");
    reveal_strlit("from");
    reveal_strlit("to");
    reveal_strlit("attemptId");
    reveal_strlit("previous");
    reveal_strlit("detail");
    assert("runId"@.len() == 5);
    assert("sequence"@.len() == 8);
    assert("from"@.len() == 4);
    assert("to"@.len() == 2);
    assert("attemptId"@.len() == 9);
    assert("previous"@.len() == 8);
    assert("detail"@.len() == 6);
    assert("sequence"@[0] == 's');
    assert("previous"@[0] == 'p');
}

} // verus!
