//! The resolution of a run, step by step. The caller holds the lease of the deployment,
//! performs what a step asks for and hands back what became of it; it releases the lease
//! when the resolution has ended, however it ended.

use vstd::prelude::*;

use crate::agent_runner::deployment::{
    AgentDeployment, AgentExecutor, ACTIVE_RUNS_NS, RECOVERY_RECEIPTS_NS, RUNS_NS,
};
use crate::agent_runner::external_session;
use crate::agent_runner::external_session::{
    find_abandoned_run, quarantine_abandoned, quarantine_outcome, AbandonedRun,
};
use crate::agent_runner::recovery;
use crate::agent_runner::recovery::{
    begin_recovery, check_recovery_receipt, complete_recovery, receipt_storage_error,
    recovery_answer, recovery_receipt_key, recovery_request_digest, resolve_pointer, resolve_run,
    AgentRecoveryReceipt,
};
use crate::agent_runner::schedule::AgentScheduleState;
use crate::agent_runner::store;
use crate::agent_runner::store::schedule_after_operator_recovery;
use crate::json::{Json, JsonTree};
use crate::ports;
use crate::ports::{
    AuthorityContext, SideEffectContext, StorageBatch, StorageWrite, Stored, WriteContext,
    WriteView,
};
use crate::text::join2;

verus! {

/// What is resolved, for whom, and when it was asked for.
#[derive(Debug)]
pub struct RecoveryCase {
    pub deployment: AgentDeployment,
    pub context: SideEffectContext,
    pub now_ms: i64,
}

/// The case of a request that is made on the machine itself.
pub fn recover_pending_run(deployment: AgentDeployment, authority: AuthorityContext, now_ms: i64) -> (r:
    RecoveryCase)
    ensures
        r.deployment == deployment,
        r.context.authority == authority,
        r.context.idempotency_key@ == "agent-recovery:"@ + deployment.deployment_id@,
        r.now_ms == now_ms,
{
    let key = join2("agent-recovery:", deployment.deployment_id.as_str());
    RecoveryCase {
        deployment,
        context: SideEffectContext { authority, idempotency_key: key },
        now_ms,
    }
}

/// Where a resolution stands: what it waits for.
#[derive(Debug)]
pub enum RecoveryStage {
    /// The pointer, to tell whether a session was abandoned.
    Abandoned,
    /// The record of the run that an abandoned session left.
    AbandonedRun { pointer: Option<Json> },
    /// What became of putting that run aside.
    Quarantining,
    /// The receipt of the request.
    Looking,
    /// The pointer, to begin the request with.
    Beginning,
    /// What became of storing the first receipt.
    Storing,
    /// The receipt that is stored now.
    Rereading,
    /// The record of the run.
    Resolving { receipt: AgentRecoveryReceipt },
    /// What became of writing the record of the run.
    RunWritten { receipt: AgentRecoveryReceipt, record: Json },
    /// The pointer, to resolve it.
    Pointing { receipt: AgentRecoveryReceipt, record: Json },
    /// What became of writing the pointer.
    PointerWritten { receipt: AgentRecoveryReceipt, record: Json },
    /// What became of writing the schedule.
    ScheduleWritten { receipt: AgentRecoveryReceipt, record: Json },
    /// What became of the evidence.
    EvidenceWritten { receipt: AgentRecoveryReceipt },
    /// What became of writing the completed receipt.
    Completing { answer: Json },
}

/// What became of what a step asked for.
#[derive(Debug)]
pub enum RecoveryEvent {
    /// It failed.
    Failed(String),
    /// The pointer of the deployment.
    Active(Option<Json>),
    /// The record of a run.
    Run(Option<Json>),
    /// Whether a batch went through.
    Settled(bool),
    /// The receipt of the request.
    Receipt(Stored<AgentRecoveryReceipt>),
    /// Whether the first receipt is stored, and otherwise what storage said.
    ReceiptPut(Result<(), String>),
    /// It is done.
    Done,
}

/// What a step asks for.
#[derive(Debug)]
pub enum RecoveryAction {
    LoadActive,
    LoadRun { run_id: String },
    LoadReceipt { key: String },
    /// To be stored where there is none under the key.
    PutReceipt(StorageWrite),
    WriteBatch(StorageBatch),
    Write(StorageWrite),
    PersistSchedule(AgentScheduleState),
    /// That an operator resolved the run.
    AppendEvidence { payload: Json, at_ms: i64 },
}

/// What comes of a step.
#[derive(Debug)]
pub enum RecoveryStep {
    Ask { stage: RecoveryStage, action: RecoveryAction },
    Finish(Result<Json, String>),
}

/// Whether an event is one that a stage waits for.
pub open spec fn fits(stage: RecoveryStage, event: RecoveryEvent) -> bool {
    event is Failed || match stage {
        RecoveryStage::Abandoned | RecoveryStage::Beginning | RecoveryStage::Pointing { .. } => event is Active,
        RecoveryStage::AbandonedRun { .. } | RecoveryStage::Resolving { .. } => event is Run,
        RecoveryStage::Quarantining => event is Settled,
        RecoveryStage::Looking | RecoveryStage::Rereading => event is Receipt,
        RecoveryStage::Storing => event is ReceiptPut,
        _ => event is Done,
    }
}

/// Whether the run is resolved: from then on a request that fails can be repeated.
pub open spec fn started(stage: RecoveryStage) -> bool {
    stage is Pointing || stage is PointerWritten || stage is ScheduleWritten
        || stage is EvidenceWritten || stage is Completing
}

/// Whether a step ends the resolution with a code.
pub open spec fn fails(r: RecoveryStep, has_started: bool, code: Seq<char>) -> bool {
    r matches RecoveryStep::Finish(Err(e)) && e@ == (if has_started {
        "agent_recovery_retryable"@
    } else {
        code
    })
}

/// The digest of the request of a case.
pub open spec fn case_digest(case: RecoveryCase) -> Seq<char> {
    recovery::request_digest(case.deployment.deployment_id@, case.context)
}

/// Whether a step asks for the receipt of the request.
pub open spec fn asks_for_receipt(r: RecoveryStep, case: RecoveryCase) -> bool {
    r matches RecoveryStep::Ask { action: RecoveryAction::LoadReceipt { key }, .. } && key@
        == "recovery_"@ + case_digest(case)
}

/// Whether a step goes on to resolve the pointer.
pub open spec fn goes_to_pointer(r: RecoveryStep, receipt: AgentRecoveryReceipt, record: JsonTree) -> bool {
    r matches RecoveryStep::Ask {
        stage: RecoveryStage::Pointing { receipt: kept, record: shown },
        action: RecoveryAction::LoadActive,
    } && kept == receipt && shown@ == record
}

/// Whether a step appends the evidence.
pub open spec fn appends_evidence(r: RecoveryStep, receipt: AgentRecoveryReceipt, record: Json) -> bool {
    r matches RecoveryStep::Ask {
        stage: RecoveryStage::EvidenceWritten { receipt: kept },
        action: RecoveryAction::AppendEvidence { payload, at_ms },
    } && kept == receipt && payload == record && at_ms == receipt.requested_at_ms
}

/// Whether a step is the one on a receipt that is stored.
pub open spec fn on_receipt(r: RecoveryStep, case: RecoveryCase, stored: AgentRecoveryReceipt) -> bool {
    if !recovery::receipt_is_valid(stored@, case.deployment.deployment_id@, case_digest(case)) {
        fails(r, false, "agent_recovery_receipt_invalid"@)
    } else if stored@.state == "completed"@ {
        r == RecoveryStep::Finish(Ok(stored.receipt))
    } else {
        r matches RecoveryStep::Ask {
            stage: RecoveryStage::Resolving { receipt },
            action: RecoveryAction::LoadRun { run_id },
        } && receipt == stored && run_id@ == stored@.run_id
    }
}

/// Whether a step is the one after the pointer was written: an agent that the supervisor
/// runs gets a schedule again, and then the evidence is appended.
pub open spec fn on_pointer(
    r: RecoveryStep,
    case: RecoveryCase,
    receipt: AgentRecoveryReceipt,
    record: Json,
) -> bool {
    match case.deployment.executor {
        AgentExecutor::ExternalClient => appends_evidence(r, receipt, record),
        AgentExecutor::Supervised => match r {
            RecoveryStep::Ask {
                stage: RecoveryStage::ScheduleWritten { receipt: kept, record: shown },
                action: RecoveryAction::PersistSchedule(state),
            } => kept == receipt && shown == record && store::is_recovered_schedule(
                case.deployment,
                receipt.requested_at_ms,
                Ok(state),
            ),
            RecoveryStep::Finish(Err(e)) => e@ == "agent_recovery_retryable"@ && exists|code: String|
                #[trigger] store::is_recovered_schedule(
                    case.deployment,
                    receipt.requested_at_ms,
                    Err(code),
                ),
            _ => false,
        },
    }
}

/// Whether a step is the one that a stage and an event lead to.
pub open spec fn leads_to(
    case: RecoveryCase,
    stage: RecoveryStage,
    event: RecoveryEvent,
    r: RecoveryStep,
) -> bool {
    match (stage, event) {
        (_, RecoveryEvent::Failed(code)) => fails(r, started(stage), code@),
        (RecoveryStage::Abandoned, RecoveryEvent::Active(active)) => match external_session::abandoned_run(
            ports::option_tree(active),
        ) {
            Err(code) => fails(r, false, code),
            Ok(None) => asks_for_receipt(r, case) && r->stage is Looking,
            Ok(Some(id)) => r matches RecoveryStep::Ask {
                stage: RecoveryStage::AbandonedRun { pointer },
                action: RecoveryAction::LoadRun { run_id },
            } && pointer == active && run_id@ == id,
        },
        (RecoveryStage::AbandonedRun { pointer }, RecoveryEvent::Run(run)) => match external_session::abandoned_run(
            ports::option_tree(pointer),
        ) {
            Err(code) => fails(r, false, code),
            Ok(None) => asks_for_receipt(r, case) && r->stage is Looking,
            Ok(Some(id)) => match run {
                None => fails(r, false, "external_agent_binding_missing"@),
                Some(record) => if external_session::is_external_run(
                    record@,
                    case.deployment.deployment_id@,
                ) {
                    r matches RecoveryStep::Ask {
                        stage: RecoveryStage::Quarantining,
                        action: RecoveryAction::WriteBatch(batch),
                    } && batch@ == external_session::quarantine_batch(
                        case.deployment.deployment_id@,
                        id,
                        pointer->Some_0@,
                        record@,
                        ports::context_of(case.context),
                    )
                } else {
                    fails(r, false, "external_agent_binding_invalid"@)
                },
            },
        },
        (RecoveryStage::Quarantining, RecoveryEvent::Settled(updated)) => if updated {
            asks_for_receipt(r, case) && r->stage is Looking
        } else {
            fails(r, false, "external_agent_recovery_conflict"@)
        },
        (RecoveryStage::Looking, RecoveryEvent::Receipt(found)) => match found {
            Stored::Absent => r matches RecoveryStep::Ask {
                stage: RecoveryStage::Beginning,
                action: RecoveryAction::LoadActive,
            },
            Stored::Malformed => fails(r, false, "agent_recovery_receipt_invalid"@),
            Stored::Present(stored) => on_receipt(r, case, stored),
        },
        (RecoveryStage::Beginning, RecoveryEvent::Active(active)) => match recovery::waiting_run(
            ports::option_tree(active),
        ) {
            None => fails(r, false, recovery::not_pending()),
            Some(id) => r matches RecoveryStep::Ask {
                stage: RecoveryStage::Storing,
                action: RecoveryAction::PutReceipt(write),
            } && write@ == (WriteView {
                namespace: RECOVERY_RECEIPTS_NS@,
                key: "recovery_"@ + case_digest(case),
                value: recovery::recovery_tree(
                    recovery::first_receipt(
                        case.deployment.deployment_id@,
                        id,
                        case_digest(case),
                        case.now_ms as int,
                    ),
                ),
                context: ports::context_of(case.context),
            }),
        },
        (RecoveryStage::Storing, RecoveryEvent::ReceiptPut(put)) => match put {
            Ok(_) => asks_for_receipt(r, case) && r->stage is Rereading,
            Err(said) => fails(
                r,
                false,
                if said@ == "immutable_storage_conflict"@ {
                    "agent_recovery_idempotency_conflict"@
                } else {
                    "agent_recovery_receipt_persist_failed"@
                },
            ),
        },
        (RecoveryStage::Rereading, RecoveryEvent::Receipt(found)) => match found {
            Stored::Present(stored) => on_receipt(r, case, stored),
            _ => fails(r, false, "agent_recovery_receipt_invalid"@),
        },
        (RecoveryStage::Resolving { receipt }, RecoveryEvent::Run(run)) => match recovery::resolved_record(
            ports::option_tree(run),
        ) {
            None => fails(r, false, recovery::not_pending()),
            Some(tree) => if recovery::run_state(run->Some_0@) == Some("pending_reconcile"@) {
                r matches RecoveryStep::Ask {
                    stage: RecoveryStage::RunWritten { receipt: kept, record },
                    action: RecoveryAction::Write(write),
                } && kept == receipt && record@ == tree && write@ == (WriteView {
                    namespace: RUNS_NS@,
                    key: receipt@.run_id,
                    value: tree,
                    context: ports::context_of(case.context),
                })
            } else {
                goes_to_pointer(r, receipt, tree)
            },
        },
        (RecoveryStage::RunWritten { receipt, record }, _) => goes_to_pointer(r, receipt, record@),
        (RecoveryStage::Pointing { receipt, record }, RecoveryEvent::Active(active)) => if recovery::pointer_agrees(
            ports::option_tree(active),
            receipt@.run_id,
        ) {
            r matches RecoveryStep::Ask {
                stage: RecoveryStage::PointerWritten { receipt: kept, record: shown },
                action: RecoveryAction::Write(write),
            } && kept == receipt && shown == record && write@ == (WriteView {
                namespace: ACTIVE_RUNS_NS@,
                key: case.deployment.deployment_id@,
                value: recovery::resolved_pointer(receipt@.run_id, receipt@.requested_at_ms),
                context: ports::context_of(case.context),
            })
        } else {
            fails(r, true, recovery::not_pending())
        },
        (RecoveryStage::PointerWritten { receipt, record }, _) => on_pointer(
            r,
            case,
            receipt,
            record,
        ),
        (RecoveryStage::ScheduleWritten { receipt, record }, _) => appends_evidence(
            r,
            receipt,
            record,
        ),
        (RecoveryStage::EvidenceWritten { receipt }, _) => r matches RecoveryStep::Ask {
            stage: RecoveryStage::Completing { answer },
            action: RecoveryAction::Write(write),
        } && answer@ == receipt@.receipt && write@ == (WriteView {
            namespace: RECOVERY_RECEIPTS_NS@,
            key: "recovery_"@ + receipt@.request_digest,
            value: recovery::recovery_tree(
                recovery::ReceiptView { state: "completed"@, ..receipt@ },
            ),
            context: ports::context_of(case.context),
        }),
        (RecoveryStage::Completing { answer }, _) => r == RecoveryStep::Finish(Ok(answer)),
        _ => false,
    }
}

fn ask_for_receipt(case: &RecoveryCase, stage: RecoveryStage) -> (r: RecoveryStep)
    ensures
        asks_for_receipt(r, *case),
        r->stage == stage,
{
    let digest = recovery_request_digest(&case.deployment, &case.context);
    RecoveryStep::Ask {
        stage,
        action: RecoveryAction::LoadReceipt { key: recovery_receipt_key(digest.as_str()) },
    }
}

fn end(has_started: bool, result: Result<Json, String>) -> (r: RecoveryStep)
    ensures
        match result {
            Ok(value) => r == RecoveryStep::Finish(Ok(value)),
            Err(code) => fails(r, has_started, code@),
        },
{
    RecoveryStep::Finish(recovery_answer(has_started, result))
}

fn go_to_pointer(receipt: AgentRecoveryReceipt, record: Json) -> (r: RecoveryStep)
    ensures
        goes_to_pointer(r, receipt, record@),
{
    RecoveryStep::Ask {
        stage: RecoveryStage::Pointing { receipt, record },
        action: RecoveryAction::LoadActive,
    }
}

fn append_evidence(receipt: AgentRecoveryReceipt, record: Json) -> (r: RecoveryStep)
    ensures
        appends_evidence(r, receipt, record),
{
    let at_ms: i64 = receipt.requested_at_ms;
    RecoveryStep::Ask {
        stage: RecoveryStage::EvidenceWritten { receipt },
        action: RecoveryAction::AppendEvidence { payload: record, at_ms },
    }
}

fn take_receipt(case: &RecoveryCase, stored: AgentRecoveryReceipt) -> (r: RecoveryStep)
    ensures
        on_receipt(r, *case, stored),
{
    let digest = recovery_request_digest(&case.deployment, &case.context);
    match check_recovery_receipt(&stored, &case.deployment, digest.as_str()) {
        Err(code) => end(false, Err(code)),
        Ok(true) => RecoveryStep::Finish(Ok(stored.receipt)),
        Ok(false) => {
            let run_id = stored.run_id.clone();
            RecoveryStep::Ask {
                stage: RecoveryStage::Resolving { receipt: stored },
                action: RecoveryAction::LoadRun { run_id },
            }
        },
    }
}

/// Begins a resolution. An outside client may have gone away without a word: its run is
/// put aside first.
pub fn begin_pass(case: &RecoveryCase) -> (r: RecoveryStep)
    ensures
        match case.deployment.executor {
            AgentExecutor::ExternalClient => r matches RecoveryStep::Ask {
                stage: RecoveryStage::Abandoned,
                action: RecoveryAction::LoadActive,
            },
            AgentExecutor::Supervised => asks_for_receipt(r, *case) && r->stage is Looking,
        },
{
    match case.deployment.executor {
        AgentExecutor::ExternalClient => RecoveryStep::Ask {
            stage: RecoveryStage::Abandoned,
            action: RecoveryAction::LoadActive,
        },
        AgentExecutor::Supervised => ask_for_receipt(case, RecoveryStage::Looking),
    }
}

fn put_aside(case: &RecoveryCase, pointer: &Option<Json>, run: &Option<Json>) -> (r: RecoveryStep)
    ensures
        leads_to(*case, RecoveryStage::AbandonedRun { pointer: *pointer }, RecoveryEvent::Run(*run), r),
{
    match quarantine_abandoned(
        case.deployment.deployment_id.as_str(),
        pointer,
        run,
        &WriteContext::of(&case.context),
    ) {
        Err(code) => end(false, Err(code)),
        Ok(AbandonedRun::Idle) => ask_for_receipt(case, RecoveryStage::Looking),
        Ok(AbandonedRun::Quarantine(batch)) => RecoveryStep::Ask {
            stage: RecoveryStage::Quarantining,
            action: RecoveryAction::WriteBatch(batch),
        },
    }
}

fn begin_receipt(case: &RecoveryCase, active: &Option<Json>) -> (r: RecoveryStep)
    ensures
        leads_to(*case, RecoveryStage::Beginning, RecoveryEvent::Active(*active), r),
{
    let digest = recovery_request_digest(&case.deployment, &case.context);
    match begin_recovery(&case.deployment, active, digest.as_str(), case.now_ms) {
        Err(code) => end(false, Err(code)),
        Ok(candidate) => RecoveryStep::Ask {
            stage: RecoveryStage::Storing,
            action: RecoveryAction::PutReceipt(
                StorageWrite {
                    namespace: RECOVERY_RECEIPTS_NS,
                    key: recovery_receipt_key(digest.as_str()),
                    value: candidate.value(),
                    context: WriteContext::of(&case.context),
                },
            ),
        },
    }
}

fn take_run(case: &RecoveryCase, receipt: AgentRecoveryReceipt, run: Option<Json>) -> (r: RecoveryStep)
    ensures
        leads_to(*case, RecoveryStage::Resolving { receipt }, RecoveryEvent::Run(run), r),
{
    proof {
        reveal_strlit("reconciled");
        reveal_strlit("pending_reconcile");
        assert("reconciled"@.len() == 10 && "pending_reconcile"@.len() == 17);
    }
    match resolve_run(receipt.run_id.as_str(), &run, &case.context) {
        Err(code) => end(false, Err(code)),
        Ok(done) => match done.write {
            Some(write) => RecoveryStep::Ask {
                stage: RecoveryStage::RunWritten { receipt, record: done.record },
                action: RecoveryAction::Write(write),
            },
            None => go_to_pointer(receipt, done.record),
        },
    }
}

fn take_pointer(
    case: &RecoveryCase,
    receipt: AgentRecoveryReceipt,
    record: Json,
    active: &Option<Json>,
) -> (r: RecoveryStep)
    ensures
        leads_to(
            *case,
            RecoveryStage::Pointing { receipt, record },
            RecoveryEvent::Active(*active),
            r,
        ),
{
    match resolve_pointer(&case.deployment, &receipt, active, &case.context) {
        Err(code) => end(true, Err(code)),
        Ok(write) => RecoveryStep::Ask {
            stage: RecoveryStage::PointerWritten { receipt, record },
            action: RecoveryAction::Write(write),
        },
    }
}

fn schedule_again(case: &RecoveryCase, receipt: AgentRecoveryReceipt, record: Json) -> (r: RecoveryStep)
    ensures
        on_pointer(r, *case, receipt, record),
{
    match case.deployment.executor {
        AgentExecutor::ExternalClient => append_evidence(receipt, record),
        AgentExecutor::Supervised => match schedule_after_operator_recovery(
            &case.deployment,
            receipt.requested_at_ms,
        ) {
            Ok(state) => RecoveryStep::Ask {
                stage: RecoveryStage::ScheduleWritten { receipt, record },
                action: RecoveryAction::PersistSchedule(state),
            },
            Err(code) => end(true, Err(code)),
        },
    }
}

/// Takes the next step of a resolution. A run is resolved before its pointer, the
/// evidence follows, and the receipt is completed last: a request that was interrupted
/// is finished by repeating it.
pub fn recover_pending_run_with_context(
    case: &RecoveryCase,
    stage: RecoveryStage,
    event: RecoveryEvent,
) -> (r: RecoveryStep)
    requires
        fits(stage, event),
    ensures
        leads_to(*case, stage, event, r),
{
    match (stage, event) {
        (at, RecoveryEvent::Failed(code)) => {
            let has_started: bool = match at {
                RecoveryStage::Pointing { .. } => true,
                RecoveryStage::PointerWritten { .. } => true,
                RecoveryStage::ScheduleWritten { .. } => true,
                RecoveryStage::EvidenceWritten { .. } => true,
                RecoveryStage::Completing { .. } => true,
                _ => false,
            };
            end(has_started, Err(code))
        },
        (RecoveryStage::Abandoned, RecoveryEvent::Active(active)) => match find_abandoned_run(
            &active,
        ) {
            Err(code) => end(false, Err(code)),
            Ok(None) => ask_for_receipt(case, RecoveryStage::Looking),
            Ok(Some(run_id)) => RecoveryStep::Ask {
                stage: RecoveryStage::AbandonedRun { pointer: active },
                action: RecoveryAction::LoadRun { run_id },
            },
        },
        (RecoveryStage::AbandonedRun { pointer }, RecoveryEvent::Run(run)) => put_aside(
            case,
            &pointer,
            &run,
        ),
        (RecoveryStage::Quarantining, RecoveryEvent::Settled(updated)) => match quarantine_outcome(
            updated,
        ) {
            Ok(_) => ask_for_receipt(case, RecoveryStage::Looking),
            Err(code) => end(false, Err(code)),
        },
        (RecoveryStage::Looking, RecoveryEvent::Receipt(found)) => match found {
            Stored::Absent => RecoveryStep::Ask {
                stage: RecoveryStage::Beginning,
                action: RecoveryAction::LoadActive,
            },
            Stored::Malformed => end(false, Err("agent_recovery_receipt_invalid".to_owned())),
            Stored::Present(stored) => take_receipt(case, stored),
        },
        (RecoveryStage::Beginning, RecoveryEvent::Active(active)) => begin_receipt(case, &active),
        (RecoveryStage::Storing, RecoveryEvent::ReceiptPut(put)) => match put {
            Ok(_) => ask_for_receipt(case, RecoveryStage::Rereading),
            Err(said) => end(false, Err(receipt_storage_error(said.as_str()))),
        },
        (RecoveryStage::Rereading, RecoveryEvent::Receipt(found)) => match found {
            Stored::Present(stored) => take_receipt(case, stored),
            _ => end(false, Err("agent_recovery_receipt_invalid".to_owned())),
        },
        (RecoveryStage::Resolving { receipt }, RecoveryEvent::Run(run)) => take_run(
            case,
            receipt,
            run,
        ),
        (RecoveryStage::RunWritten { receipt, record }, _) => go_to_pointer(receipt, record),
        (RecoveryStage::Pointing { receipt, record }, RecoveryEvent::Active(active)) => take_pointer(
            case,
            receipt,
            record,
            &active,
        ),
        (RecoveryStage::PointerWritten { receipt, record }, _) => schedule_again(
            case,
            receipt,
            record,
        ),
        (RecoveryStage::ScheduleWritten { receipt, record }, _) => append_evidence(receipt, record),
        (RecoveryStage::EvidenceWritten { receipt }, _) => {
            let (write, answer) = complete_recovery(receipt, &case.context);
            RecoveryStep::Ask {
                stage: RecoveryStage::Completing { answer },
                action: RecoveryAction::Write(write),
            }
        },
        (RecoveryStage::Completing { answer }, _) => RecoveryStep::Finish(Ok(answer)),
        _ => {
            assert(false);
            RecoveryStep::Finish(Ok(Json::Null))
        },
    }
}

/// How many steps a resolution can still take.
pub open spec fn steps_left(stage: RecoveryStage) -> nat {
    match stage {
        RecoveryStage::Abandoned => 14,
        RecoveryStage::AbandonedRun { .. } => 13,
        RecoveryStage::Quarantining => 12,
        RecoveryStage::Looking => 11,
        RecoveryStage::Beginning => 10,
        RecoveryStage::Storing => 9,
        RecoveryStage::Rereading => 8,
        RecoveryStage::Resolving { .. } => 7,
        RecoveryStage::RunWritten { .. } => 6,
        RecoveryStage::Pointing { .. } => 5,
        RecoveryStage::PointerWritten { .. } => 4,
        RecoveryStage::ScheduleWritten { .. } => 3,
        RecoveryStage::EvidenceWritten { .. } => 2,
        RecoveryStage::Completing { .. } => 1,
    }
}

/// A resolution comes to an end: every step leaves fewer steps to take.
pub proof fn resolution_ends(
    case: RecoveryCase,
    stage: RecoveryStage,
    event: RecoveryEvent,
    r: RecoveryStep,
)
    requires
        fits(stage, event),
        leads_to(case, stage, event, r),
    ensures
        r matches RecoveryStep::Ask { stage: next, .. } ==> steps_left(next) < steps_left(stage),
{
}

/// A resolution that fails once the run is resolved can be repeated, whatever failed; one
/// that fails before says why.
pub proof fn interrupted_resolution_is_retryable(
    case: RecoveryCase,
    stage: RecoveryStage,
    event: RecoveryEvent,
    r: RecoveryStep,
)
    requires
        fits(stage, event),
        leads_to(case, stage, event, r),
        started(stage),
    ensures
        r matches RecoveryStep::Finish(Err(code)) ==> code@ == "agent_recovery_retryable"@,
        r matches RecoveryStep::Ask { stage: next, .. } ==> started(next),
{
}

/// A receipt is completed last: only once the evidence is appended, and the evidence only
/// once the pointer is resolved.
pub proof fn receipt_is_completed_last(
    case: RecoveryCase,
    stage: RecoveryStage,
    event: RecoveryEvent,
    r: RecoveryStep,
)
    requires
        fits(stage, event),
        leads_to(case, stage, event, r),
    ensures
        r matches RecoveryStep::Ask { stage: RecoveryStage::Completing { .. }, .. }
            ==> stage is EvidenceWritten && event is Done,
        r matches RecoveryStep::Ask { stage: RecoveryStage::EvidenceWritten { .. }, .. } ==> (
        stage is PointerWritten || stage is ScheduleWritten) && event is Done,
        r matches RecoveryStep::Ask { stage: RecoveryStage::PointerWritten { .. }, .. }
            ==> stage is Pointing && event is Active,
{
}

} // verus!
