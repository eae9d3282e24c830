//! A request to resolve a run from its first step to its end, and what the same request is
//! answered when it is made again.

use vstd::prelude::*;

use crate::agent_runner::deployment::RECOVERY_RECEIPTS_NS;
use crate::agent_runner::external_session;
use crate::agent_runner::recovery;
use crate::agent_runner::recovery::{AgentRecoveryReceipt, ReceiptView};
use crate::agent_runner::recovery_pass;
use crate::agent_runner::recovery_pass::{
    RecoveryAction, RecoveryCase, RecoveryEvent, RecoveryStage, RecoveryStep,
};
use crate::json::{Json, JsonTree};
use crate::ports::Stored;

verus! {

/// One move of a request: where it stood, what became of what it had asked for, and what
/// came of that.
pub struct RecoveryMove {
    pub stage: RecoveryStage,
    pub event: RecoveryEvent,
    pub step: RecoveryStep,
}

/// Whether the moves take a request from a stage to its end.
pub open spec fn ends_from(
    case: RecoveryCase,
    stage: RecoveryStage,
    moves: Seq<RecoveryMove>,
    end: Result<Json, String>,
) -> bool
    decreases moves.len(),
{
    moves.len() > 0 && moves[0].stage == stage && recovery_pass::fits(stage, moves[0].event)
        && recovery_pass::leads_to(case, stage, moves[0].event, moves[0].step) && (
    match moves[0].step {
        RecoveryStep::Finish(last) => moves.len() == 1 && last == end,
        RecoveryStep::Ask { stage: next, .. } => ends_from(case, next, moves.drop_first(), end),
    })
}

/// The record of the request's receipt after one move: the one that was read, or written.
pub open spec fn receipt_after(held: Option<JsonTree>, m: RecoveryMove) -> Option<JsonTree> {
    let seen = match m.event {
        RecoveryEvent::Receipt(Stored::Present(stored)) => Some(recovery::recovery_tree(stored@)),
        _ => held,
    };
    match m.step {
        RecoveryStep::Ask { action: RecoveryAction::Write(write), .. } => if write@.namespace
            == RECOVERY_RECEIPTS_NS@ {
            Some(write@.value)
        } else {
            seen
        },
        _ => seen,
    }
}

/// The record of the request's receipt as the moves leave it.
pub open spec fn receipt_left(held: Option<JsonTree>, moves: Seq<RecoveryMove>) -> Option<JsonTree>
    decreases moves.len(),
{
    if moves.len() == 0 {
        held
    } else {
        receipt_left(receipt_after(held, moves[0]), moves.drop_first())
    }
}

/// Whether a receipt is the completed one of a request, with an answer.
pub open spec fn is_completed(case: RecoveryCase, v: ReceiptView, answer: JsonTree) -> bool {
    recovery::receipt_is_valid(
        v,
        case.deployment.deployment_id@,
        recovery_pass::case_digest(case),
    ) && v.state == "completed"@ && v.receipt == answer
}

/// The receipt that a stage works on.
pub open spec fn receipt_of(stage: RecoveryStage) -> Option<AgentRecoveryReceipt> {
    match stage {
        RecoveryStage::Resolving { receipt } | RecoveryStage::RunWritten { receipt, .. }
        | RecoveryStage::Pointing { receipt, .. } | RecoveryStage::PointerWritten { receipt, .. }
        | RecoveryStage::ScheduleWritten { receipt, .. } | RecoveryStage::EvidenceWritten {
            receipt,
        } => Some(receipt),
        _ => None,
    }
}

/// What holds wherever a request stands: the receipt that it works on is its own, and before
/// it answers, the completed receipt with that answer is on record.
pub open spec fn is_sound(case: RecoveryCase, stage: RecoveryStage, held: Option<JsonTree>) -> bool {
    match stage {
        RecoveryStage::Completing { answer } => exists|v: ReceiptView|
            #[trigger] is_completed(case, v, answer@) && held == Some(recovery::recovery_tree(v)),
        _ => receipt_of(stage) matches Some(receipt) ==> recovery::receipt_is_valid(
            receipt@,
            case.deployment.deployment_id@,
            recovery_pass::case_digest(case),
        ),
    }
}

proof fn namespaces_differ()
    ensures
        "agent_runs"@ != "agent_recovery_receipts"@,
        "agent_active_runs"@ != "agent_recovery_receipts"@,
{
    reveal_strlit("agent_runs");
    reveal_strlit("agent_active_runs");
    reveal_strlit("agent_recovery_receipts");
    assert("agent_runs"@.len() == 10 && "agent_active_runs"@.len() == 17
        && "agent_recovery_receipts"@.len() == 23);
}

/// A move keeps a request sound, and ends it well only with the completed receipt on record.
proof fn move_is_sound(case: RecoveryCase, m: RecoveryMove, held: Option<JsonTree>)
    requires
        recovery_pass::fits(m.stage, m.event),
        recovery_pass::leads_to(case, m.stage, m.event, m.step),
        is_sound(case, m.stage, held),
    ensures
        match m.step {
            RecoveryStep::Ask { stage: next, .. } => is_sound(case, next, receipt_after(held, m)),
            RecoveryStep::Finish(Ok(answer)) => exists|v: ReceiptView|
                #[trigger] is_completed(case, v, answer@) && receipt_after(held, m) == Some(
                    recovery::recovery_tree(v),
                ),
            RecoveryStep::Finish(Err(_)) => true,
        },
{
    namespaces_differ();
    match (m.stage, m.event) {
        (RecoveryStage::Looking, RecoveryEvent::Receipt(Stored::Present(stored)))
        | (RecoveryStage::Rereading, RecoveryEvent::Receipt(Stored::Present(stored))) => {
            if let RecoveryStep::Finish(Ok(answer)) = m.step {
                assert(is_completed(case, stored@, answer@));
            }
        },
        (RecoveryStage::EvidenceWritten { receipt }, _) => {
            if let RecoveryStep::Ask { stage: RecoveryStage::Completing { answer }, .. } = m.step {
                let v = ReceiptView { state: "completed"@, ..receipt@ };
                assert(is_completed(case, v, answer@));
            }
        },
        _ => {},
    }
}

/// A request that is answered leaves its completed receipt, with that answer, on record.
pub proof fn answered_request_leaves_its_receipt(
    case: RecoveryCase,
    stage: RecoveryStage,
    moves: Seq<RecoveryMove>,
    answer: Json,
    held: Option<JsonTree>,
)
    requires
        ends_from(case, stage, moves, Ok(answer)),
        is_sound(case, stage, held),
    ensures
        exists|v: ReceiptView|
            #[trigger] is_completed(case, v, answer@) && receipt_left(held, moves) == Some(
                recovery::recovery_tree(v),
            ),
    decreases moves.len(),
{
    let first = moves[0];
    let rest = moves.drop_first();
    let next_held = receipt_after(held, first);
    move_is_sound(case, first, held);
    assert(receipt_left(held, moves) == receipt_left(next_held, rest));
    match first.step {
        RecoveryStep::Ask { stage: next, .. } => {
            answered_request_leaves_its_receipt(case, next, rest, answer, next_held);
        },
        RecoveryStep::Finish(_) => {
            assert(rest.len() == 0);
            assert(receipt_left(next_held, rest) == next_held);
        },
    }
}

/// Two receipts with one record are the same.
proof fn record_tells_the_receipt(a: ReceiptView, b: ReceiptView)
    requires
        recovery::recovery_tree(a) == recovery::recovery_tree(b),
    ensures
        a == b,
{
    reveal_strlit("schemaVersion");
    reveal_strlit("deploymentId");
    reveal_strlit("runId");
    reveal_strlit("requestDigest");
    reveal_strlit("requestedAtMs");
    reveal_strlit("state");
    reveal_strlit("receipt");
    assert("schemaVersion"@.len() == 13 && "deploymentId"@.len() == 12 && "runId"@.len() == 5
        && "requestDigest"@.len() == 13 && "requestedAtMs"@.len() == 13 && "state"@.len() == 5
        && "receipt"@.len() == 7);
    assert("schemaVersion"@[0] == 's' && "requestDigest"@[7] == 'D' && "requestedAtMs"@[7] == 'e');
    assert("requestDigest"@[0] == 'r' && "requestedAtMs"@[0] == 'r');
    assert("runId"@[0] == 'r' && "state"@[0] == 's');
    let x = recovery::recovery_tree(a)->Object_0;
    let y = recovery::recovery_tree(b)->Object_0;
    assert(x["schemaVersion"@] == y["schemaVersion"@]);
    assert(x["deploymentId"@] == y["deploymentId"@]);
    assert(x["runId"@] == y["runId"@]);
    assert(x["requestDigest"@] == y["requestDigest"@]);
    assert(x["requestedAtMs"@] == y["requestedAtMs"@]);
    assert(x["state"@] == y["state"@]);
    assert(x["receipt"@] == y["receipt"@]);
}

/// A request that was answered is answered the same when it is made again, at whatever time:
/// its receipt is completed, the answer is taken from it, and nothing is written.
pub proof fn repeated_request_gets_the_first_answer(
    case: RecoveryCase,
    stage: RecoveryStage,
    moves: Seq<RecoveryMove>,
    answer: Json,
    held: Option<JsonTree>,
    again: RecoveryCase,
    stored: AgentRecoveryReceipt,
    r: RecoveryStep,
)
    requires
        stage is Abandoned || stage is Looking,
        ends_from(case, stage, moves, Ok(answer)),
        again.deployment == case.deployment,
        again.context == case.context,
        receipt_left(held, moves) == Some(recovery::recovery_tree(stored@)),
        recovery_pass::leads_to(
            again,
            RecoveryStage::Looking,
            RecoveryEvent::Receipt(Stored::Present(stored)),
            r,
        ),
    ensures
        stored@.state == "completed"@,
        r matches RecoveryStep::Finish(Ok(said)) && said@ == answer@,
{
    answered_request_leaves_its_receipt(case, stage, moves, answer, held);
    let v = choose|v: ReceiptView|
        #[trigger] is_completed(case, v, answer@) && receipt_left(held, moves) == Some(
            recovery::recovery_tree(v),
        );
    record_tells_the_receipt(v, stored@);
}

/// A request goes on from the record of its run only once that says that the run is resolved:
/// it said so already, or that is what is written.
pub proof fn run_is_resolved_first(
    case: RecoveryCase,
    receipt: AgentRecoveryReceipt,
    run: Option<Json>,
    r: RecoveryStep,
)
    requires
        recovery_pass::leads_to(
            case,
            RecoveryStage::Resolving { receipt },
            RecoveryEvent::Run(run),
            r,
        ),
    ensures
        match r {
            RecoveryStep::Ask { stage: RecoveryStage::RunWritten { record, .. }, action } => {
                &&& recovery::run_state(record@) == Some("reconciled"@)
                &&& action matches RecoveryAction::Write(write) && write@.value == record@
            },
            RecoveryStep::Ask { stage: RecoveryStage::Pointing { record, .. }, .. } => {
                &&& recovery::run_state(record@) == Some("reconciled"@)
                &&& run matches Some(kept) && kept@ == record@
            },
            RecoveryStep::Ask { .. } => false,
            RecoveryStep::Finish(answer) => answer is Err,
        },
{
    if let Some(kept) = run {
        if recovery::run_state(kept@) == Some("pending_reconcile"@) {
            recovery::recovery_can_be_repeated(kept@, receipt@.run_id, 0);
        }
    }
}

/// The pointer that a request leaves behind names no session that was abandoned: the same
/// request goes straight to its receipt, and puts no run aside.
pub proof fn resolved_run_is_not_abandoned(
    case: RecoveryCase,
    pointer: Json,
    run_id: Seq<char>,
    at_ms: int,
    r: RecoveryStep,
)
    requires
        pointer@ == recovery::resolved_pointer(run_id, at_ms),
        recovery_pass::leads_to(
            case,
            RecoveryStage::Abandoned,
            RecoveryEvent::Active(Some(pointer)),
            r,
        ),
    ensures
        external_session::abandoned_run(Some(pointer@)) == Ok::<Option<Seq<char>>, Seq<char>>(None),
        r matches RecoveryStep::Ask { stage: RecoveryStage::Looking, action } && (
        action matches RecoveryAction::LoadReceipt { .. }),
{
    reveal_strlit("state");
    reveal_strlit("resolvedRunId");
    reveal_strlit("resolvedAtMs");
    reveal_strlit("reconciled");
    reveal_strlit("running");
    assert("state"@.len() == 5 && "resolvedRunId"@.len() == 13 && "resolvedAtMs"@.len() == 12);
    assert("reconciled"@.len() == 10 && "running"@.len() == 7);
}

} // verus!
