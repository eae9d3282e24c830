//! One pass of the supervisor over a deployment as a whole: which decision follows which.
//! The caller performs what a step asks for and hands back what became of it.

use vstd::prelude::*;

use crate::agent_runner::capability;
use crate::agent_runner::capability::AgentMcpExecutionCapability;
use crate::agent_runner::deployment;
use crate::agent_runner::deployment::AgentDeployment;
use crate::agent_runner::records;
use crate::agent_runner::records::{AgentRun, RunView};
use crate::agent_runner::schedule;
use crate::agent_runner::schedule::{deployment_schedule, AgentScheduleState};
use crate::agent_runner::supervise;
use crate::agent_runner::supervise::{
    authorize_run, conclude_completed_run, conclude_failed_run, decide_active, decide_existing,
    decide_heartbeat, decide_recovered, decide_tick, lease_held, planned_run, previous_session,
    ActiveDecision, AdapterEvent, AgentEntitlementDecision, Conclusion, ConclusionView, DueTick,
    HeartbeatStep, RunStart, RunnerStep, TickDecision,
};
use crate::json::Json;
use crate::ports;
use crate::ports::{LeaseClaim, Stored};
use crate::text;

verus! {

/// What a pass is over, and when it began.
#[derive(Debug)]
pub struct PassCase {
    pub deployment: AgentDeployment,
    pub now_ms: i64,
}

/// A run that a pass is about to start, and what it rests on.
#[derive(Debug)]
pub struct PlannedRun {
    pub lease: LeaseClaim,
    pub tick: DueTick,
    pub run: AgentRun,
}

/// Where a pass stands: what it waits for.
pub enum PassStage {
    /// Whether the lease of the deployment could be taken.
    Leasing,
    /// The state of the schedule.
    Ticking { lease: LeaseClaim },
    /// The pointer to the deployment's run.
    Pointing { lease: LeaseClaim, tick: DueTick },
    /// The record of a run whose lease ended.
    Recovering { lease: LeaseClaim, tick: DueTick, run_id: String },
    /// The record of the previous run.
    Following { lease: LeaseClaim, tick: DueTick },
    /// The record that there may be of the run.
    Planning { planned: PlannedRun },
    /// Whether the agent may run, with a capability for it.
    Authorizing { planned: PlannedRun },
    /// What became of the steps before the start.
    Starting { planned: PlannedRun, start: RunStart, capability: AgentMcpExecutionCapability },
    /// What the agent does.
    Running { planned: PlannedRun, start: RunStart },
    /// What became of writing a heartbeat.
    Beating {
        planned: PlannedRun,
        start: RunStart,
        finished: Option<Result<Option<String>, String>>,
    },
}

/// What became of what a step asked for.
pub enum PassEvent {
    /// It failed.
    Failed(String),
    /// The lease, where no other holds it.
    Lease(Option<LeaseClaim>),
    /// The state of the schedule.
    Schedule(Stored<AgentScheduleState>),
    /// The pointer to the deployment's run.
    Active(Option<Json>),
    /// The record of a run.
    Run(Option<Json>),
    /// Whether the agent may run, with a fresh capability.
    Entitlement { decision: AgentEntitlementDecision, capability: AgentMcpExecutionCapability },
    /// It is done.
    Done,
    /// What the agent does, and the lease where it could be renewed by then.
    Agent { event: AdapterEvent, renewed: Option<LeaseClaim>, at_ms: i64 },
}

/// What a step asks for.
pub enum PassAction {
    LoadSchedule,
    LoadActive,
    /// To be performed before the record is loaded.
    LoadRun { before: Vec<RunnerStep>, run_id: String },
    Authorize,
    /// To perform the steps before the start, which the stage holds.
    PerformStart,
    /// To start the agent with the trigger that the stage holds.
    StartAgent { capability: AgentMcpExecutionCapability },
    /// To wait for the agent, or for the next heartbeat.
    AwaitAgent,
    Write(RunnerStep),
}

/// What comes of a step.
pub enum PassStep {
    Ask { stage: PassStage, action: PassAction },
    Conclude(Conclusion),
}

/// Whether an event is one that a stage waits for. A record of a run is one that can take
/// a state.
pub open spec fn fits(stage: PassStage, event: PassEvent) -> bool {
    event is Failed || match stage {
        PassStage::Leasing => event is Lease,
        PassStage::Ticking { .. } => event is Schedule,
        PassStage::Pointing { .. } => event is Active,
        PassStage::Recovering { .. } | PassStage::Planning { .. } => event matches PassEvent::Run(
            record,
        ) && (record matches Some(value) ==> records::takes_run_state(value@)),
        PassStage::Following { .. } => event is Run,
        PassStage::Authorizing { .. } => event is Entitlement,
        PassStage::Starting { .. } | PassStage::Beating { .. } => event is Done,
        PassStage::Running { .. } => event is Agent,
    }
}

/// Whether a step ends the pass with a code and without any further effect.
pub open spec fn gives_up(r: PassStep, code: Seq<char>) -> bool {
    r matches PassStep::Conclude(end) && end@ == supervise::failed(seq![], code)
}

/// Whether a step puts the run in front of an operator.
pub open spec fn quarantines(r: PassStep, case: PassCase, planned: PlannedRun, start: RunStart) -> bool {
    r matches PassStep::Conclude(end) && end@ == failed_agent(case, planned, start)
}

/// The end of a pass whose agent failed.
pub open spec fn failed_agent(case: PassCase, planned: PlannedRun, start: RunStart) -> ConclusionView {
    ConclusionView {
        steps: supervise::quarantine(
            case.deployment.deployment_id@,
            planned.run@.run_id,
            supervise::failed_run_tree(
                case.deployment.deployment_id@,
                planned.run@.run_id,
                start.capability_digest@,
                start.entitlement_reference@,
                planned.tick.state@,
            ),
            records::quarantine_tree(planned.run@.run_id),
            "agent_run.pending_reconcile"@,
        ),
        attempted_only: true,
        result: Err(supervise::pending()),
    }
}

/// The end of a pass whose agent completed.
pub open spec fn completed_agent(
    case: PassCase,
    planned: PlannedRun,
    start: RunStart,
    session: Option<Seq<char>>,
) -> ConclusionView {
    supervise::done(
        supervise::completion_steps(
            case.deployment.deployment_id@,
            planned.run@,
            supervise::run_record_tree(
                records::run_tree(supervise::completed_run(planned.run@, session)),
                planned.run@.deployment_binding_digest,
                start.capability_digest@,
                start.entitlement_reference@,
                planned.tick.state@,
            ),
            planned.lease@,
            planned.tick.state@,
            case.now_ms as int,
        ),
        records::receipt_tree(
            case.deployment.deployment_id@,
            "completed"@,
            Some(planned.run@.run_id),
        ),
    )
}

/// The run that a pass plans: the one that is resumed, or the one that the tick starts.
pub open spec fn run_of(
    case: PassCase,
    lease: LeaseClaim,
    tick: DueTick,
    resumed: Option<Seq<char>>,
    session: Option<Seq<char>>,
) -> RunView {
    RunView {
        run_id: match resumed {
            Some(id) => id,
            None => supervise::run_id_of(
                case.deployment.deployment_id@,
                tick.scheduled_for_ms as int,
            ),
        },
        deployment_id: case.deployment.deployment_id@,
        trigger_id: supervise::trigger_id_of(
            case.deployment.deployment_id@,
            tick.scheduled_for_ms as int,
        ),
        state: "running"@,
        lease_fence: lease.fencing_token as int,
        deployment_binding_digest: deployment::binding_digest(case.deployment),
        codex_session_ref: session,
    }
}

/// Whether a step plans a run.
pub open spec fn plans(
    r: PassStep,
    case: PassCase,
    lease: LeaseClaim,
    tick: DueTick,
    resumed: Option<Seq<char>>,
    session: Option<Seq<char>>,
) -> bool {
    r matches PassStep::Ask {
        stage: PassStage::Planning { planned },
        action: PassAction::LoadRun { before, run_id },
    } && planned.lease == lease && planned.tick == tick && planned.run@ == run_of(
        case,
        lease,
        tick,
        resumed,
        session,
    ) && run_id@ == planned.run@.run_id && before@.len() == 0
}

/// Whether a step is the one on a running agent.
pub open spec fn on_agent(
    r: PassStep,
    case: PassCase,
    planned: PlannedRun,
    start: RunStart,
    event: AdapterEvent,
    renewed: Option<LeaseClaim>,
    at_ms: i64,
) -> bool {
    match (event, renewed) {
        (AdapterEvent::Disconnected, _) | (_, None) => quarantines(r, case, planned, start),
        (_, Some(claim)) => r matches PassStep::Ask {
            stage: PassStage::Beating { planned: next, start: kept, finished },
            action: PassAction::Write(write),
        } && next == (PlannedRun { lease: claim, ..planned }) && kept == start && write@
            == supervise::active_write(
            case.deployment.deployment_id@,
            records::active_tree(planned.run@.run_id, "running"@, claim@, at_ms as int),
        ) && finished == (match event {
            AdapterEvent::Finished(result) => Some(result),
            _ => None,
        }),
    }
}

/// Whether a step is the one that a stage and an event lead to.
pub open spec fn leads_to(case: PassCase, stage: PassStage, event: PassEvent, r: PassStep) -> bool {
    let id = case.deployment.deployment_id@;
    match (stage, event) {
        (PassStage::Running { planned, start }, PassEvent::Failed(_)) => quarantines(
            r,
            case,
            planned,
            start,
        ),
        (PassStage::Beating { planned, start, .. }, PassEvent::Failed(_)) => quarantines(
            r,
            case,
            planned,
            start,
        ),
        (PassStage::Following { lease, tick }, PassEvent::Failed(_)) => plans(
            r,
            case,
            lease,
            tick,
            None,
            supervise::resumed_session(deployment::binding_digest(case.deployment), None),
        ),
        (_, PassEvent::Failed(code)) => gives_up(r, code@),
        (PassStage::Leasing, PassEvent::Lease(lease)) => match lease {
            None => r matches PassStep::Conclude(end) && end@ == supervise::done(
                seq![],
                records::receipt_tree(id, "lease_held"@, None),
            ),
            Some(claim) => if schedule::schedule_is_valid(case.deployment) {
                r == (PassStep::Ask {
                    stage: PassStage::Ticking { lease: claim },
                    action: PassAction::LoadSchedule,
                })
            } else {
                gives_up(r, "agent_deployment_invalid"@)
            },
        },
        (PassStage::Ticking { lease }, PassEvent::Schedule(stored)) => match r {
            PassStep::Conclude(end) => supervise::tick_is(
                TickDecision::Concluded(end),
                case.deployment,
                stored,
                case.now_ms as int,
            ),
            PassStep::Ask {
                stage: PassStage::Pointing { lease: kept, tick },
                action: PassAction::LoadActive,
            } => kept == lease && supervise::tick_is(
                TickDecision::Due(tick),
                case.deployment,
                stored,
                case.now_ms as int,
            ),
            _ => false,
        },
        (PassStage::Pointing { lease, tick }, PassEvent::Active(active)) => match supervise::on_active(
            id,
            tick.state@,
            ports::option_tree(active),
            case.now_ms as int,
        ) {
            supervise::ActiveView::Concluded(view) => r matches PassStep::Conclude(end) && end@
                == view,
            supervise::ActiveView::Recover(steps, run_id) => r matches PassStep::Ask {
                stage: PassStage::Recovering { lease: kept, tick: due, run_id: named },
                action: PassAction::LoadRun { before, run_id: asked },
            } && kept == lease && due == tick && named@ == run_id && asked@ == run_id
                && supervise::steps_view(before@) == steps,
            supervise::ActiveView::Fresh(Some(previous)) => r matches PassStep::Ask {
                stage: PassStage::Following { lease: kept, tick: due },
                action: PassAction::LoadRun { before, run_id },
            } && kept == lease && due == tick && run_id@ == previous && before@.len() == 0,
            supervise::ActiveView::Fresh(None) => plans(r, case, lease, tick, None, None),
        },
        (PassStage::Recovering { lease, tick, run_id }, PassEvent::Run(record)) => match supervise::on_recovered(
            id,
            run_id@,
            ports::option_tree(record),
        ) {
            Err(view) => r matches PassStep::Conclude(end) && end@ == view,
            Ok(session) => plans(r, case, lease, tick, Some(run_id@), Some(session)),
        },
        (PassStage::Following { lease, tick }, PassEvent::Run(record)) => plans(
            r,
            case,
            lease,
            tick,
            None,
            supervise::resumed_session(
                deployment::binding_digest(case.deployment),
                ports::option_tree(record),
            ),
        ),
        (PassStage::Planning { planned }, PassEvent::Run(record)) => match supervise::on_existing(
            id,
            planned.run@.run_id,
            planned.run@.deployment_binding_digest,
            planned.tick.state@,
            ports::option_tree(record),
        ) {
            Some(view) => r matches PassStep::Conclude(end) && end@ == view,
            None => r == (PassStep::Ask {
                stage: PassStage::Authorizing { planned },
                action: PassAction::Authorize,
            }),
        },
        (PassStage::Authorizing { planned }, PassEvent::Entitlement { decision, capability }) => if decision.allowed {
            r matches PassStep::Ask {
                stage: PassStage::Starting { planned: kept, start, capability: held },
                action: PassAction::PerformStart,
            } && kept == planned && held == capability && start_is_of(
                start,
                case,
                planned,
                decision,
                capability,
            )
        } else {
            r matches PassStep::Conclude(end) && end@ == supervise::failed(
                seq![
                    supervise::StepView::PersistSchedule(planned.tick.state@),
                    supervise::StepView::ReleaseLease,
                ],
                "agent_entitlement_denied"@,
            )
        },
        (PassStage::Starting { planned, start, capability }, _) => r == (PassStep::Ask {
            stage: PassStage::Running { planned, start },
            action: PassAction::StartAgent { capability },
        }),
        (PassStage::Running { planned, start }, PassEvent::Agent { event: done, renewed, at_ms }) => on_agent(
            r,
            case,
            planned,
            start,
            done,
            renewed,
            at_ms,
        ),
        (PassStage::Beating { planned, start, finished }, _) => match finished {
            None => r == (PassStep::Ask {
                stage: PassStage::Running { planned, start },
                action: PassAction::AwaitAgent,
            }),
            Some(Err(_)) => quarantines(r, case, planned, start),
            Some(Ok(session)) => r matches PassStep::Conclude(end) && end@ == completed_agent(
                case,
                planned,
                start,
                text::option_text(session),
            ),
        },
        _ => false,
    }
}

/// Whether a start is that of a planned run under a capability.
pub open spec fn start_is_of(
    start: RunStart,
    case: PassCase,
    planned: PlannedRun,
    decision: AgentEntitlementDecision,
    capability: AgentMcpExecutionCapability,
) -> bool {
    let key = capability::capability_key(capability@);
    &&& start.capability_digest@ == key
    &&& start.entitlement_reference@ == decision.reference@
    &&& start.trigger@ == supervise::trigger_tree(
        case.deployment,
        planned.run@,
        schedule::kind_of(planned.tick.schedule),
        planned.tick.scheduled_for_ms as int,
        planned.tick.state@,
    )
    &&& supervise::steps_view(start.steps@) == supervise::start_steps(
        case.deployment,
        planned.run@,
        planned.tick.state@,
        planned.lease@,
        decision.reference@,
        key,
        case.now_ms as int,
    )
}

fn give_up(code: String) -> (r: PassStep)
    ensures
        gives_up(r, code@),
{
    let steps: Vec<RunnerStep> = Vec::new();
    assert(supervise::steps_view(steps@) =~= seq![]);
    PassStep::Conclude(Conclusion { steps, attempted_only: false, result: Err(code) })
}

fn plan(
    case: &PassCase,
    lease: LeaseClaim,
    tick: DueTick,
    resumed: &Option<String>,
    session: Option<String>,
) -> (r: PassStep)
    ensures
        plans(r, *case, lease, tick, text::option_text(*resumed), text::option_text(session)),
{
    let run = planned_run(&case.deployment, &tick, &lease, resumed, session);
    let run_id = run.run_id.clone();
    PassStep::Ask {
        stage: PassStage::Planning { planned: PlannedRun { lease, tick, run } },
        action: PassAction::LoadRun { before: Vec::new(), run_id },
    }
}

fn put_before_operator(case: &PassCase, planned: &PlannedRun, start: &RunStart) -> (r: PassStep)
    ensures
        quarantines(r, *case, *planned, *start),
{
    PassStep::Conclude(conclude_failed_run(&case.deployment, &planned.run, &planned.tick, start))
}

fn take_pointer(case: &PassCase, lease: LeaseClaim, tick: DueTick, active: Option<Json>) -> (r: PassStep)
    ensures
        leads_to(*case, PassStage::Pointing { lease, tick }, PassEvent::Active(active), r),
{
    match decide_active(&case.deployment, &tick, &active, case.now_ms) {
        ActiveDecision::Concluded(end) => PassStep::Conclude(end),
        ActiveDecision::Recover { steps, run_id } => {
            let named = run_id.clone();
            PassStep::Ask {
                stage: PassStage::Recovering { lease, tick, run_id },
                action: PassAction::LoadRun { before: steps, run_id: named },
            }
        },
        ActiveDecision::Fresh { previous_run_id } => match previous_run_id {
            Some(run_id) => PassStep::Ask {
                stage: PassStage::Following { lease, tick },
                action: PassAction::LoadRun { before: Vec::new(), run_id },
            },
            None => plan(case, lease, tick, &None, None),
        },
    }
}

fn take_entitlement(
    case: &PassCase,
    planned: PlannedRun,
    decision: AgentEntitlementDecision,
    capability: AgentMcpExecutionCapability,
) -> (r: PassStep)
    ensures
        leads_to(
            *case,
            PassStage::Authorizing { planned },
            PassEvent::Entitlement { decision, capability },
            r,
        ),
{
    match authorize_run(
        &case.deployment,
        &planned.run,
        &planned.tick,
        &planned.lease,
        decision,
        &capability,
        case.now_ms,
    ) {
        Ok(start) => PassStep::Ask {
            stage: PassStage::Starting { planned, start, capability },
            action: PassAction::PerformStart,
        },
        Err(end) => PassStep::Conclude(end),
    }
}

fn take_agent(
    case: &PassCase,
    planned: PlannedRun,
    start: RunStart,
    event: AdapterEvent,
    renewed: Option<LeaseClaim>,
    at_ms: i64,
) -> (r: PassStep)
    ensures
        on_agent(r, *case, planned, start, event, renewed, at_ms),
{
    match decide_heartbeat(event, renewed, &case.deployment, &planned.run, at_ms) {
        HeartbeatStep::Fail(_) => put_before_operator(case, &planned, &start),
        HeartbeatStep::Beat { write, lease, finished } => PassStep::Ask {
            stage: PassStage::Beating {
                planned: PlannedRun { lease, tick: planned.tick, run: planned.run },
                start,
                finished,
            },
            action: PassAction::Write(write),
        },
    }
}

/// Takes the next step of a pass over a deployment. Nothing is started but under the
/// lease, on a due tick, with nothing in flight, allowed and on record; and an agent that
/// failed is put in front of an operator.
pub fn supervise_deployment(case: &PassCase, stage: PassStage, event: PassEvent) -> (r: PassStep)
    requires
        fits(stage, event),
    ensures
        leads_to(*case, stage, event, r),
{
    match (stage, event) {
        (PassStage::Running { planned, start }, PassEvent::Failed(_)) => put_before_operator(
            case,
            &planned,
            &start,
        ),
        (PassStage::Beating { planned, start, .. }, PassEvent::Failed(_)) => put_before_operator(
            case,
            &planned,
            &start,
        ),
        (PassStage::Following { lease, tick }, PassEvent::Failed(_)) => {
            let session = previous_session(&case.deployment, &None);
            plan(case, lease, tick, &None, session)
        },
        (_, PassEvent::Failed(code)) => give_up(code),
        (PassStage::Leasing, PassEvent::Lease(lease)) => match lease {
            None => PassStep::Conclude(lease_held(&case.deployment)),
            Some(claim) => match deployment_schedule(&case.deployment) {
                Ok(_) => PassStep::Ask {
                    stage: PassStage::Ticking { lease: claim },
                    action: PassAction::LoadSchedule,
                },
                Err(code) => give_up(code),
            },
        },
        (PassStage::Ticking { lease }, PassEvent::Schedule(stored)) => match decide_tick(
            &case.deployment,
            stored,
            case.now_ms,
        ) {
            TickDecision::Concluded(end) => PassStep::Conclude(end),
            TickDecision::Due(tick) => PassStep::Ask {
                stage: PassStage::Pointing { lease, tick },
                action: PassAction::LoadActive,
            },
        },
        (PassStage::Pointing { lease, tick }, PassEvent::Active(active)) => take_pointer(
            case,
            lease,
            tick,
            active,
        ),
        (PassStage::Recovering { lease, tick, run_id }, PassEvent::Run(record)) => match decide_recovered(
            &case.deployment,
            run_id.as_str(),
            &record,
        ) {
            Ok(session) => plan(case, lease, tick, &Some(run_id), Some(session)),
            Err(end) => PassStep::Conclude(end),
        },
        (PassStage::Following { lease, tick }, PassEvent::Run(record)) => {
            let session = previous_session(&case.deployment, &record);
            plan(case, lease, tick, &None, session)
        },
        (PassStage::Planning { planned }, PassEvent::Run(record)) => match decide_existing(
            &case.deployment,
            &planned.run,
            &planned.tick,
            &record,
        ) {
            Some(end) => PassStep::Conclude(end),
            None => PassStep::Ask {
                stage: PassStage::Authorizing { planned },
                action: PassAction::Authorize,
            },
        },
        (PassStage::Authorizing { planned }, PassEvent::Entitlement { decision, capability }) => take_entitlement(
            case,
            planned,
            decision,
            capability,
        ),
        (PassStage::Starting { planned, start, capability }, _) => PassStep::Ask {
            stage: PassStage::Running { planned, start },
            action: PassAction::StartAgent { capability },
        },
        (PassStage::Running { planned, start }, PassEvent::Agent { event: done, renewed, at_ms }) => take_agent(
            case,
            planned,
            start,
            done,
            renewed,
            at_ms,
        ),
        (PassStage::Beating { planned, start, finished }, _) => match finished {
            None => PassStep::Ask {
                stage: PassStage::Running { planned, start },
                action: PassAction::AwaitAgent,
            },
            Some(Err(_)) => put_before_operator(case, &planned, &start),
            Some(Ok(session)) => PassStep::Conclude(
                conclude_completed_run(
                    &case.deployment,
                    &planned.run,
                    &planned.tick,
                    &start,
                    session,
                    &planned.lease,
                    case.now_ms,
                ),
            ),
        },
        _ => {
            assert(false);
            give_up(String::new())
        },
    }
}

/// An agent is started only once its capability, its run and the pointer to it are on
/// record, and those are written only once it is allowed to run.
pub proof fn agent_starts_on_record(case: PassCase, stage: PassStage, event: PassEvent, r: PassStep)
    requires
        fits(stage, event),
        leads_to(case, stage, event, r),
    ensures
        r matches PassStep::Ask { action: PassAction::StartAgent { .. }, .. }
            ==> stage is Starting && event is Done,
        r matches PassStep::Ask { stage: PassStage::Starting { .. }, .. }
            ==> stage is Authorizing && (event matches PassEvent::Entitlement { decision, .. }
            && decision.allowed),
{
}

/// Once an agent has started, a pass ends in one of two ways: the run is completed with
/// its receipt, or it waits for an operator. It is never given up in between.
pub proof fn started_run_is_accounted_for(
    case: PassCase,
    stage: PassStage,
    event: PassEvent,
    r: PassStep,
)
    requires
        fits(stage, event),
        leads_to(case, stage, event, r),
        stage is Running || stage is Beating,
    ensures
        r matches PassStep::Ask { stage: next, .. } ==> next is Running || next is Beating,
        r matches PassStep::Conclude(end) ==> {
            ||| end@.result == Err::<crate::json::JsonTree, Seq<char>>(supervise::pending())
            ||| (stage matches PassStage::Beating { planned, finished: Some(Ok(_)), .. } && end@.result
                == Ok::<crate::json::JsonTree, Seq<char>>(
                records::receipt_tree(
                    case.deployment.deployment_id@,
                    "completed"@,
                    Some(planned.run@.run_id),
                ),
            ))
        },
{
}

/// A deployment whose lease another holds is left alone: the pass changes nothing.
pub proof fn held_deployment_is_left_alone(case: PassCase, r: PassStep)
    requires
        leads_to(case, PassStage::Leasing, PassEvent::Lease(None), r),
    ensures
        r matches PassStep::Conclude(end) && end@.steps.len() == 0,
{
}

} // verus!
