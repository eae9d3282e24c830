//! How the supervisor conducts itself towards runs: what it leaves alone, what it takes up
//! again, and what it puts in front of an operator.

use vstd::prelude::*;

use crate::agent_runner::deployment::{AgentDeployment, AgentExecutor};
use crate::agent_runner::records;
use crate::agent_runner::schedule::StateView;
use crate::agent_runner::supervise;
use crate::agent_runner::supervise::{ActiveView, ConclusionView, StepView};
use crate::json;
use crate::json::JsonTree;

verus! {

/// Whether a value holds a text under a key.
pub open spec fn says(tree: JsonTree, key: Seq<char>, value: Seq<char>) -> bool {
    json::member(tree, key) == Some(JsonTree::Text(value))
}

/// Whether a step writes a record, of a run or of the pointer to it.
pub open spec fn is_write(step: StepView) -> bool {
    step is Write
}

/// Whether the lease is released as the last of some steps.
pub open spec fn releases(steps: Seq<StepView>) -> bool {
    steps.len() > 0 && steps[steps.len() - 1] is ReleaseLease
}

proof fn receipt_says(deployment_id: Seq<char>, outcome: Seq<char>, run_id: Option<Seq<char>>)
    ensures
        ({
            let receipt = records::receipt_tree(deployment_id, outcome, run_id);
            &&& says(receipt, "deploymentId"@, deployment_id)
            &&& says(receipt, "outcome"@, outcome)
            &&& run_id matches Some(id) ==> says(receipt, "runId"@, id)
            &&& run_id is None ==> json::member(receipt, "runId"@) == Some(JsonTree::Null)
            &&& json::member(receipt, "redacted"@) == Some(JsonTree::Bool(true))
        }),
{
    reveal_strlit("schemaVersion");
    reveal_strlit("deploymentId");
    reveal_strlit("outcome");
    reveal_strlit("runId");
    reveal_strlit("redacted");
    assert("schemaVersion"@.len() == 13 && "deploymentId"@.len() == 12 && "outcome"@.len() == 7
        && "runId"@.len() == 5 && "redacted"@.len() == 8);
}

/// A run that is in flight under a lease that has not ended is left alone: the pass starts
/// nothing and takes nothing up again, counts its tick as taken, writes no record, and
/// releases the lease.
pub proof fn run_under_a_lease_is_left_alone(
    deployment_id: Seq<char>,
    state: StateView,
    pointer: JsonTree,
    run_id: Seq<char>,
    expires_at_ms: int,
    now_ms: int,
)
    requires
        says(pointer, "state"@, "running"@),
        says(pointer, "runId"@, run_id),
        json::member(pointer, "leaseExpiresAtMs"@) == Some(JsonTree::Int(expires_at_ms)),
        i64::MIN <= expires_at_ms <= i64::MAX,
        now_ms < expires_at_ms,
    ensures
        supervise::on_active(deployment_id, state, Some(pointer), now_ms) matches ActiveView::Concluded(
            end,
        ) && {
            &&& end.steps.contains(StepView::PersistSchedule(state))
            &&& releases(end.steps)
            &&& forall|i: int| 0 <= i < end.steps.len() ==> !is_write(#[trigger] end.steps[i])
            &&& end.result matches Ok(receipt)
            &&& says(receipt, "outcome"@, "coalesced"@)
            &&& says(receipt, "runId"@, run_id)
            &&& says(receipt, "deploymentId"@, deployment_id)
        },
{
    reveal_strlit("running");
    reveal_strlit("pending_reconcile");
    assert("running"@.len() == 7 && "pending_reconcile"@.len() == 17);
    receipt_says(deployment_id, "coalesced"@, Some(run_id));
    if let ActiveView::Concluded(end) = supervise::on_active(
        deployment_id,
        state,
        Some(pointer),
        now_ms,
    ) {
        assert(end.steps[0] == StepView::PersistSchedule(state));
    }
}

/// A run whose lease has ended, or that names none, broke off: the pass takes it up again
/// under its own identifier, after evidence of it.
pub proof fn run_without_a_lease_is_taken_up(
    deployment_id: Seq<char>,
    state: StateView,
    pointer: JsonTree,
    run_id: Seq<char>,
    now_ms: int,
)
    requires
        says(pointer, "state"@, "running"@),
        says(pointer, "runId"@, run_id),
        json::member(pointer, "leaseExpiresAtMs"@) matches Some(JsonTree::Int(at)) ==> at <= now_ms,
    ensures
        supervise::on_active(deployment_id, state, Some(pointer), now_ms) matches ActiveView::Recover(
            steps,
            id,
        ) && id == run_id && steps.len() == 1 && (steps[0] matches StepView::Evidence(kind, _) && kind
            == "agent_run.recovered"@),
{
    reveal_strlit("running");
    reveal_strlit("pending_reconcile");
    assert("running"@.len() == 7 && "pending_reconcile"@.len() == 17);
}

/// A run that waits for an operator stays as it is: the pass starts nothing, takes no tick
/// and writes nothing.
pub proof fn run_before_an_operator_stays(
    deployment_id: Seq<char>,
    state: StateView,
    pointer: JsonTree,
    now_ms: int,
)
    requires
        says(pointer, "state"@, "pending_reconcile"@),
    ensures
        supervise::on_active(deployment_id, state, Some(pointer), now_ms) matches ActiveView::Concluded(
            end,
        ) && end.steps == seq![StepView::ReleaseLease] && (end.result matches Ok(receipt) && says(
            receipt,
            "outcome"@,
            "pending_reconcile"@,
        )),
{
    receipt_says(deployment_id, "pending_reconcile"@, json::text_member(pointer, "runId"@));
}

/// A new run is started only where none is in flight: there is no pointer, or it names a
/// state that is neither running nor waiting for an operator.
pub proof fn new_run_needs_no_run_in_flight(
    deployment_id: Seq<char>,
    state: StateView,
    active: Option<JsonTree>,
    now_ms: int,
)
    ensures
        supervise::on_active(deployment_id, state, active, now_ms) is Fresh <==> match active {
            None => true,
            Some(pointer) => !says(pointer, "state"@, "running"@) && !says(
                pointer,
                "state"@,
                "pending_reconcile"@,
            ),
        },
        active matches Some(pointer) ==> (supervise::on_active(
            deployment_id,
            state,
            active,
            now_ms,
        ) matches ActiveView::Fresh(previous) ==> (forall|id: Seq<char>|
            says(pointer, "runId"@, id) ==> previous == Some(id))),
{
    reveal_strlit("running");
    reveal_strlit("pending_reconcile");
    assert("running"@.len() == 7 && "pending_reconcile"@.len() == 17);
}

/// Whether a run is put in front of an operator: its record and the pointer to it are
/// written as waiting, and the lease is released.
pub open spec fn puts_before_an_operator(
    end: ConclusionView,
    deployment_id: Seq<char>,
    run_id: Seq<char>,
) -> bool {
    &&& end.result == Err::<JsonTree, Seq<char>>("agent_run_pending_reconcile"@)
    &&& end.steps.len() == 4
    &&& releases(end.steps)
    &&& end.steps[0] matches StepView::Write(record)
    &&& record.key == run_id
    &&& records::inner_text(record.value, "run"@, "state"@) == Some("pending_reconcile"@)
    &&& end.steps[1] matches StepView::Write(pointer)
    &&& pointer.key == deployment_id
    &&& says(pointer.value, "runId"@, run_id)
    &&& says(pointer.value, "state"@, "pending_reconcile"@)
    &&& end.steps[2] is Evidence
}

proof fn quarantine_says(run_id: Seq<char>, binding: Seq<char>)
    ensures
        says(records::quarantine_tree(run_id), "runId"@, run_id),
        says(records::quarantine_tree(run_id), "state"@, "pending_reconcile"@),
        ({
            let pointer = JsonTree::Object(
                map![
                    "runId"@ => JsonTree::Text(run_id),
                    "state"@ => JsonTree::Text("pending_reconcile"@),
                    "bindingDigest"@ => JsonTree::Text(binding)
                ],
            );
            says(pointer, "runId"@, run_id) && says(pointer, "state"@, "pending_reconcile"@)
        }),
{
    reveal_strlit("runId");
    reveal_strlit("state");
    reveal_strlit("bindingDigest");
    assert("runId"@[0] == 'r' && "state"@[0] == 's' && "bindingDigest"@.len() == 13);
    assert("runId"@.len() == 5 && "state"@.len() == 5);
}

/// A run that broke off goes on with its session; one without a session could have had
/// effects that nobody can see, and is put in front of an operator.
pub proof fn broken_run_goes_on_with_its_session(
    deployment_id: Seq<char>,
    run_id: Seq<char>,
    record: JsonTree,
)
    ensures
        match supervise::on_recovered(deployment_id, run_id, Some(record)) {
            Ok(session) => json::member(record, "run"@) matches Some(run) && says(
                run,
                "codexSessionRef"@,
                session,
            ),
            Err(end) => puts_before_an_operator(end, deployment_id, run_id) && !(json::member(
                record,
                "run"@,
            ) matches Some(run) && json::member(run, "codexSessionRef"@) matches Some(
                JsonTree::Text(_),
            )),
        },
        supervise::on_recovered(deployment_id, run_id, None) matches Err(end) && end.result == Err::<
            JsonTree,
            Seq<char>,
        >("agent_run_pending_reconcile"@) && end.steps.len() == 0,
{
    quarantine_says(run_id, run_id);
}

/// A run of which there is a record starts again only under the binding of that record
/// and with a session to go on with. One that was completed is not run again: its tick
/// counts as taken, and nothing is written. Any other is put in front of an operator.
pub proof fn recorded_run_starts_again_only_with_its_session(
    deployment_id: Seq<char>,
    run_id: Seq<char>,
    binding: Seq<char>,
    state: StateView,
    record: JsonTree,
)
    ensures
        ({
            let completed = json::member(record, "run"@) matches Some(run) && says(
                run,
                "state"@,
                "completed"@,
            );
            let session = json::member(record, "run"@) matches Some(run) && json::member(
                run,
                "codexSessionRef"@,
            ) matches Some(JsonTree::Text(_));
            match supervise::on_existing(deployment_id, run_id, binding, state, Some(record)) {
                None => !completed && says(record, "bindingDigest"@, binding) && session,
                Some(end) => if completed {
                    &&& end.steps == seq![StepView::PersistSchedule(state), StepView::ReleaseLease]
                    &&& end.result matches Ok(receipt)
                    &&& says(receipt, "outcome"@, "idempotent"@)
                    &&& says(receipt, "runId"@, run_id)
                } else {
                    &&& !says(record, "bindingDigest"@, binding) || !session
                    &&& puts_before_an_operator(end, deployment_id, run_id)
                },
            }
        }),
        supervise::on_existing(deployment_id, run_id, binding, state, None) is None,
{
    receipt_says(deployment_id, "idempotent"@, Some(run_id));
    quarantine_says(run_id, binding);
}

/// The session that a new run goes on with is that of the previous run, and only where
/// that run was bound to the same deployment.
pub proof fn session_is_kept_only_under_one_binding(binding: Seq<char>, previous: Option<JsonTree>)
    ensures
        supervise::resumed_session(binding, previous) matches Some(session) ==> previous is Some
            && says(previous->Some_0, "bindingDigest"@, binding) && (json::member(
            previous->Some_0,
            "run"@,
        ) matches Some(run) && says(run, "codexSessionRef"@, session)),
        forall|run: JsonTree, session: Seq<char>|
            previous is Some && says(previous->Some_0, "bindingDigest"@, binding) && json::member(
                previous->Some_0,
                "run"@,
            ) == Some(run) && #[trigger] says(run, "codexSessionRef"@, session)
                ==> supervise::resumed_session(binding, previous) == Some(session),
{
}

/// The supervisor passes over every deployment that is to be active and is run by the
/// supervisor, and over no other.
pub proof fn active_deployments_are_supervised(list: Seq<AgentDeployment>, i: int)
    requires
        0 <= i < list.len(),
        list[i].desired_state@ == "active"@,
        list[i].executor == AgentExecutor::Supervised,
    ensures
        supervise::supervised(list).contains(list[i].deployment_id@),
    decreases list.len(),
{
    let earlier = list.drop_last();
    let last = list.len() - 1;
    let all = supervise::supervised(list);
    assert(list[last] == list.last());
    if i < last {
        assert(earlier[i] == list[i]);
        active_deployments_are_supervised(earlier, i);
        let before = supervise::supervised(earlier);
        let k = choose|k: int| 0 <= k < before.len() && before[k] == list[i].deployment_id@;
        assert(all[k] == list[i].deployment_id@);
    } else {
        assert(all[all.len() - 1] == list[i].deployment_id@);
    }
}

/// Every deployment that is passed over is to be active and is run by the supervisor.
pub proof fn only_active_deployments_are_supervised(list: Seq<AgentDeployment>, k: int) -> (i: int)
    requires
        0 <= k < supervise::supervised(list).len(),
    ensures
        0 <= i < list.len(),
        list[i].desired_state@ == "active"@,
        list[i].executor == AgentExecutor::Supervised,
        supervise::supervised(list)[k] == list[i].deployment_id@,
    decreases list.len(),
{
    let earlier = list.drop_last();
    let last = list.len() - 1;
    let before = supervise::supervised(earlier);
    assert(list[last] == list.last());
    if k < before.len() {
        let i = only_active_deployments_are_supervised(earlier, k);
        assert(earlier[i] == list[i]);
        i
    } else {
        last
    }
}

/// A pass that failed reports no more than that it did: of an error that is not one of two
/// known ones neither the code nor the text is told.
pub proof fn failure_tells_no_details(deployment_id: Seq<char>, error: Seq<char>)
    ensures
        ({
            let receipt = records::failure_tree(deployment_id, error);
            &&& says(receipt, "deploymentId"@, deployment_id)
            &&& json::member(receipt, "redacted"@) == Some(JsonTree::Bool(true))
            &&& if error == "agent_entitlement_denied"@ {
                says(receipt, "outcome"@, "entitlement_denied"@) && says(
                    receipt,
                    "errorCode"@,
                    "agent_entitlement_denied"@,
                )
            } else if error == "agent_run_pending_reconcile"@ {
                says(receipt, "outcome"@, "pending_reconcile"@) && says(
                    receipt,
                    "errorCode"@,
                    "agent_run_pending_reconcile"@,
                )
            } else {
                says(receipt, "outcome"@, "failed"@) && says(
                    receipt,
                    "errorCode"@,
                    "agent_runner_failed"@,
                )
            }
        }),
{
    reveal_strlit("schemaVersion");
    reveal_strlit("deploymentId");
    reveal_strlit("outcome");
    reveal_strlit("errorCode");
    reveal_strlit("redacted");
    assert("schemaVersion"@.len() == 13 && "deploymentId"@.len() == 12 && "outcome"@.len() == 7
        && "errorCode"@.len() == 9 && "redacted"@.len() == 8);
}

} // verus!
