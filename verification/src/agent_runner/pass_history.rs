//! A pass of the supervisor from its first step to its end, and what a second pass at the
//! same time finds.

use vstd::prelude::*;

use crate::agent_runner::deployment;
use crate::agent_runner::deployment::AgentDeployment;
use crate::agent_runner::records;
use crate::agent_runner::schedule;
use crate::agent_runner::schedule::{AgentScheduleState, DeploymentSchedule, StateView};
use crate::agent_runner::store;
use crate::agent_runner::supervise;
use crate::agent_runner::supervise::{Conclusion, DueTick, StepView};
use crate::agent_runner::supervise_pass;
use crate::agent_runner::supervise_pass::{PassAction, PassCase, PassEvent, PassStage, PassStep};
use crate::json;
use crate::ports::Stored;

verus! {

/// One move of a pass: where it stood, what became of what it had asked for, and what came
/// of that.
pub struct PassMove {
    pub stage: PassStage,
    pub event: PassEvent,
    pub step: PassStep,
}

/// Whether a pass goes on from the stage that its last step named. The steps before a
/// start may have been taken out of it to be performed.
pub open spec fn goes_on(named: PassStage, stage: PassStage) -> bool {
    match (named, stage) {
        (
            PassStage::Starting { planned, start, capability },
            PassStage::Starting { planned: kept, start: left, capability: held },
        ) => kept == planned && held == capability && left.trigger == start.trigger
            && left.capability_digest == start.capability_digest && left.entitlement_reference
            == start.entitlement_reference,
        _ => stage == named,
    }
}

/// Whether the moves take a pass from a stage to its end.
pub open spec fn ends_from(
    case: PassCase,
    named: PassStage,
    moves: Seq<PassMove>,
    end: Conclusion,
) -> bool
    decreases moves.len(),
{
    moves.len() > 0 && goes_on(named, moves[0].stage) && supervise_pass::fits(
        moves[0].stage,
        moves[0].event,
    ) && supervise_pass::leads_to(case, moves[0].stage, moves[0].event, moves[0].step) && (
    match moves[0].step {
        PassStep::Conclude(last) => moves.len() == 1 && last == end,
        PassStep::Ask { stage, .. } => ends_from(case, stage, moves.drop_first(), end),
    })
}

/// Whether the moves are a pass as a whole.
pub open spec fn is_pass(case: PassCase, moves: Seq<PassMove>, end: Conclusion) -> bool {
    ends_from(case, PassStage::Leasing, moves, end)
}

/// What a step of a pass has performed.
pub open spec fn steps_asked(step: PassStep) -> Seq<StepView> {
    match step {
        PassStep::Conclude(end) => end@.steps,
        PassStep::Ask { stage, action } => match (stage, action) {
            (_, PassAction::LoadRun { before, .. }) => supervise::steps_view(before@),
            (PassStage::Starting { start, .. }, PassAction::PerformStart) => supervise::steps_view(
                start.steps@,
            ),
            (_, PassAction::Write(write)) => seq![write@],
            _ => seq![],
        },
    }
}

/// Whether performing something leaves the stored schedule of every deployment as it is.
pub open spec fn leaves_schedules(step: StepView) -> bool {
    match step {
        StepView::PersistSchedule(_) => false,
        StepView::Write(write) => write.namespace != deployment::SCHEDULES_NS@,
        _ => true,
    }
}

/// The stored schedule state after some steps have been performed.
pub open spec fn state_after(
    d: AgentDeployment,
    held: Option<StateView>,
    steps: Seq<StepView>,
) -> Option<StateView>
    decreases steps.len(),
{
    if steps.len() == 0 {
        held
    } else {
        let next = match steps[0] {
            StepView::PersistSchedule(state) => if store::takes_state(d, held, state) {
                Some(state)
            } else {
                held
            },
            _ => held,
        };
        state_after(d, next, steps.drop_first())
    }
}

/// The stored schedule state after a pass.
pub open spec fn state_after_pass(
    d: AgentDeployment,
    held: Option<StateView>,
    moves: Seq<PassMove>,
) -> Option<StateView>
    decreases moves.len(),
{
    if moves.len() == 0 {
        held
    } else {
        state_after_pass(d, state_after(d, held, steps_asked(moves[0].step)), moves.drop_first())
    }
}

/// The tick that a stage is about.
pub open spec fn tick_of(stage: PassStage) -> Option<DueTick> {
    match stage {
        PassStage::Leasing | PassStage::Ticking { .. } => None,
        PassStage::Pointing { tick, .. } | PassStage::Recovering { tick, .. }
        | PassStage::Following { tick, .. } => Some(tick),
        PassStage::Planning { planned } | PassStage::Authorizing { planned }
        | PassStage::Starting { planned, .. } | PassStage::Running { planned, .. }
        | PassStage::Beating { planned, .. } => Some(planned.tick),
    }
}

/// Whether a pass ended with the receipt of a completed run.
pub open spec fn is_completed(end: Conclusion) -> bool {
    end@.result matches Ok(receipt) && json::text_member(receipt, "outcome"@) == Some("completed"@)
}

/// The outcome of a receipt, read back.
proof fn receipt_reads(deployment_id: Seq<char>, outcome: Seq<char>, run_id: Option<Seq<char>>)
    ensures
        json::text_member(records::receipt_tree(deployment_id, outcome, run_id), "outcome"@)
            == Some(outcome),
{
    reveal_strlit("outcome");
    reveal_strlit("runId");
    reveal_strlit("redacted");
    assert("outcome"@.len() == 7 && "runId"@.len() == 5 && "redacted"@.len() == 8);
}

/// No other receipt of a pass is that of a completed run.
proof fn other_outcomes()
    ensures
        "lease_held"@ != "completed"@,
        "not_due"@ != "completed"@,
        "pending_reconcile"@ != "completed"@,
        "coalesced"@ != "completed"@,
        "idempotent"@ != "completed"@,
{
    reveal_strlit("lease_held");
    reveal_strlit("not_due");
    reveal_strlit("pending_reconcile");
    reveal_strlit("coalesced");
    reveal_strlit("idempotent");
    reveal_strlit("completed");
    assert("lease_held"@.len() == 10 && "not_due"@.len() == 7 && "pending_reconcile"@.len() == 17
        && "idempotent"@.len() == 10 && "completed"@.len() == 9);
    assert("coalesced"@[2] == 'a' && "completed"@[2] == 'm');
}

/// The schedule of a deployment moves only with the end of a pass: nothing that a pass has
/// performed before writes it.
pub proof fn schedule_moves_at_the_end(
    case: PassCase,
    stage: PassStage,
    event: PassEvent,
    step: PassStep,
    i: int,
)
    requires
        supervise_pass::fits(stage, event),
        supervise_pass::leads_to(case, stage, event, step),
        step is Ask,
        0 <= i < steps_asked(step).len(),
    ensures
        leaves_schedules(steps_asked(step)[i]),
{
    reveal_strlit("agent_runs");
    reveal_strlit("agent_active_runs");
    reveal_strlit("agent_deployment_schedules");
    reveal_strlit("agent_mcp_capabilities");
    assert("agent_runs"@.len() == 10 && "agent_active_runs"@.len() == 17
        && "agent_deployment_schedules"@.len() == 26 && "agent_mcp_capabilities"@.len() == 22);
}

/// Steps that leave the schedules leave the stored state.
proof fn state_stays(d: AgentDeployment, held: Option<StateView>, steps: Seq<StepView>)
    requires
        forall|i: int| 0 <= i < steps.len() ==> leaves_schedules(#[trigger] steps[i]),
    ensures
        state_after(d, held, steps) == held,
    decreases steps.len(),
{
    if steps.len() > 0 {
        let rest = steps.drop_first();
        assert forall|i: int| 0 <= i < rest.len() implies leaves_schedules(#[trigger] rest[i]) by {
            assert(rest[i] == steps[i + 1]);
        }
        assert(leaves_schedules(steps[0]));
        state_stays(d, held, rest);
    }
}

/// A step that asks for more keeps the tick.
proof fn tick_is_kept(case: PassCase, stage: PassStage, event: PassEvent, step: PassStep)
    requires
        supervise_pass::fits(stage, event),
        supervise_pass::leads_to(case, stage, event, step),
        tick_of(stage) is Some,
    ensures
        step matches PassStep::Ask { stage: next, .. } ==> tick_of(next) == tick_of(stage),
{
}

/// A pass that ends with a completed run does so from a heartbeat after which the agent had
/// finished.
proof fn completion_comes_from_the_agent(
    case: PassCase,
    stage: PassStage,
    event: PassEvent,
    end: Conclusion,
)
    requires
        supervise_pass::fits(stage, event),
        supervise_pass::leads_to(case, stage, event, PassStep::Conclude(end)),
        is_completed(end),
    ensures
        stage matches PassStage::Beating { planned, start, finished: Some(Ok(session)) } && end@
            == supervise_pass::completed_agent(
            case,
            planned,
            start,
            crate::text::option_text(session),
        ),
{
    let id = case.deployment.deployment_id@;
    other_outcomes();
    receipt_reads(id, "lease_held"@, None);
    receipt_reads(id, "not_due"@, None);
    match (stage, event) {
        (PassStage::Pointing { .. }, PassEvent::Active(Some(active))) => {
            let run_id = json::text_member(active@, "runId"@);
            receipt_reads(id, "pending_reconcile"@, run_id);
            receipt_reads(id, "coalesced"@, run_id);
        },
        (PassStage::Planning { planned }, _) => {
            receipt_reads(id, "idempotent"@, Some(planned.run@.run_id));
        },
        _ => {},
    }
}

/// The third of five steps stores a schedule state, and the others leave the schedules.
proof fn state_after_completion(
    d: AgentDeployment,
    held: Option<StateView>,
    steps: Seq<StepView>,
    state: StateView,
)
    requires
        steps.len() == 5,
        !(steps[0] is PersistSchedule),
        !(steps[1] is PersistSchedule),
        steps[2] == StepView::PersistSchedule(state),
        steps[3] is Evidence,
        steps[4] is ReleaseLease,
    ensures
        state_after(d, held, steps) == (if store::takes_state(d, held, state) {
            Some(state)
        } else {
            held
        }),
{
    let one = steps.drop_first();
    let two = one.drop_first();
    let three = two.drop_first();
    let next = if store::takes_state(d, held, state) {
        Some(state)
    } else {
        held
    };
    assert(one[0] == steps[1] && two[0] == steps[2]);
    assert(three[0] == steps[3] && three[1] == steps[4]);
    state_stays(d, next, three);
    assert(state_after(d, held, two) == state_after(d, next, three));
    assert(state_after(d, held, one) == state_after(d, held, two));
    assert(state_after(d, held, steps) == state_after(d, held, one));
}

/// A pass that ends with a completed run stores the schedule state of its tick, where the
/// deployment takes it, and leaves the stored state alone otherwise.
pub proof fn completed_pass_takes_its_tick(
    case: PassCase,
    named: PassStage,
    moves: Seq<PassMove>,
    end: Conclusion,
    tick: DueTick,
    held: Option<StateView>,
)
    requires
        ends_from(case, named, moves, end),
        tick_of(named) == Some(tick),
        is_completed(end),
    ensures
        state_after_pass(case.deployment, held, moves) == (if store::takes_state(
            case.deployment,
            held,
            tick.state@,
        ) {
            Some(tick.state@)
        } else {
            held
        }),
    decreases moves.len(),
{
    let first = moves[0];
    let steps = steps_asked(first.step);
    assert(tick_of(first.stage) == Some(tick));
    match first.step {
        PassStep::Ask { stage, .. } => {
            tick_is_kept(case, first.stage, first.event, first.step);
            assert forall|i: int| 0 <= i < steps.len() implies leaves_schedules(
                #[trigger] steps[i],
            ) by {
                schedule_moves_at_the_end(case, first.stage, first.event, first.step, i);
            }
            state_stays(case.deployment, held, steps);
            let rest = moves.drop_first();
            assert(ends_from(case, stage, rest, end));
            completed_pass_takes_its_tick(case, stage, rest, end, tick, held);
            assert(state_after_pass(case.deployment, held, moves) == state_after_pass(
                case.deployment,
                held,
                rest,
            ));
        },
        PassStep::Conclude(_) => {
            completion_comes_from_the_agent(case, first.stage, first.event, end);
            assert(moves.drop_first().len() == 0);
            assert(steps.len() == 5 && steps[2] == StepView::PersistSchedule(tick.state@));
            state_after_completion(case.deployment, held, steps, tick.state@);
            assert(state_after_pass(case.deployment, held, moves) == state_after(
                case.deployment,
                held,
                steps,
            ));
        },
    }
}

/// Whether the stored state of a schedule gives way to the state that a tick leaves behind,
/// and that state lies ahead.
pub open spec fn gives_way(found: Stored<AgentScheduleState>, now_ms: int, after: StateView) -> bool {
    found matches Stored::Present(state) ==> store::replaces_state(after, state@) && (now_ms
        - state@.next_due_at_ms <= i64::MAX || now_ms < after.next_due_at_ms)
}

/// A pass that ran an agent to its end is not repeated by a second pass at the same time: with
/// the lease free again and the schedule as the first pass left it, the second reads the
/// schedule and ends as not due. It asks for nothing else: no run is named, no agent is
/// started and nothing is written. Left out is a stored state that does not give way to the
/// tick's own: on each such state the second pass is due again, as
/// [`blocked_pass_is_due_again`] and [`tick_behind_is_not_taken`] state.
pub proof fn duplicate_pass_runs_nothing(
    case: PassCase,
    first: Seq<PassMove>,
    end: Conclusion,
    found: Stored<AgentScheduleState>,
    tick: DueTick,
    again: Seq<PassMove>,
    end_again: Conclusion,
    found_again: Stored<AgentScheduleState>,
)
    requires
        is_pass(case, first, end),
        is_completed(end),
        first[1].event == PassEvent::Schedule(found),
        tick_of(first[2].stage) == Some(tick),
        is_pass(case, again, end_again),
        again[0].event matches PassEvent::Lease(Some(_)),
        again[1].event == PassEvent::Schedule(found_again),
        !(found_again is Malformed),
        supervise::known_state(found_again) == state_after_pass(
            case.deployment,
            supervise::known_state(found),
            first,
        ),
        gives_way(found, case.now_ms as int, tick.state@),
    ensures
        again.len() == 2,
        again[0].step matches PassStep::Ask { action: PassAction::LoadSchedule, .. },
        end_again@ == supervise::done(
            seq![StepView::ReleaseLease],
            records::receipt_tree(case.deployment.deployment_id@, "not_due"@, None),
        ),
{
    completed_pass_leaves_its_tick(case, first, end, found, tick);
    second_pass_is_not_due(case, tick, again, end_again, found_again);
}

/// A completed pass leaves the state of its tick, which lies ahead.
proof fn completed_pass_leaves_its_tick(
    case: PassCase,
    moves: Seq<PassMove>,
    end: Conclusion,
    found: Stored<AgentScheduleState>,
    tick: DueTick,
)
    requires
        is_pass(case, moves, end),
        is_completed(end),
        moves[1].event == PassEvent::Schedule(found),
        tick_of(moves[2].stage) == Some(tick),
        gives_way(found, case.now_ms as int, tick.state@),
    ensures
        state_after_pass(case.deployment, supervise::known_state(found), moves) == Some(tick.state@),
        schedule::schedule_is_valid(case.deployment),
        schedule::is_schedule_of(tick.schedule, case.deployment),
        schedule::state_matches(tick.state@, tick.schedule),
        tick.state@.last_due_at_ms is Some,
        case.now_ms < tick.state@.next_due_at_ms,
{
    let d = case.deployment;
    let held = supervise::known_state(found);
    completed_pass_reads_its_schedule(case, moves, end);
    let rest = moves.drop_first();
    let ticked = rest.drop_first();
    assert(moves[1] == rest[0] && moves[2] == ticked[0]);
    let next = moves[1].step->Ask_stage;
    assert(steps_asked(moves[0].step) =~= seq![]);
    assert(steps_asked(rest[0].step) =~= seq![]);
    assert(ends_from(case, next, ticked, end));
    assert(tick_of(next) == Some(tick));
    completed_pass_takes_its_tick(case, next, ticked, end, tick, held);
    assert(state_after_pass(d, held, rest) == state_after_pass(d, held, ticked));
    assert(state_after_pass(d, held, moves) == state_after_pass(d, held, rest));
    assert(supervise::tick_is(supervise::TickDecision::Due(tick), d, found, case.now_ms as int));
    schedule::due_only_once(
        tick.schedule,
        held,
        case.now_ms as int,
        tick.state@,
        tick.scheduled_for_ms as int,
    );
    store::schedule_has_identity(tick.schedule, d);
}

/// Where the stored state does not give way to that of a tick, it stays as it is and the
/// schedule is due again at the same time, for the same tick.
pub proof fn blocked_pass_is_due_again(
    case: PassCase,
    named: PassStage,
    moves: Seq<PassMove>,
    end: Conclusion,
    found: AgentScheduleState,
    tick: DueTick,
)
    requires
        ends_from(case, named, moves, end),
        is_completed(end),
        tick_of(named) == Some(tick),
        supervise::tick_is(
            supervise::TickDecision::Due(tick),
            case.deployment,
            Stored::Present(found),
            case.now_ms as int,
        ),
        !store::replaces_state(tick.state@, found@),
    ensures
        state_after_pass(case.deployment, Some(found@), moves) == Some(found@),
        schedule::decide(tick.schedule, Some(found@), case.now_ms as int) == Ok::<
            schedule::DecisionView,
            Seq<char>,
        >(schedule::DecisionView::Due(tick.state@, tick.scheduled_for_ms as int)),
{
    completed_pass_takes_its_tick(case, named, moves, end, tick, Some(found@));
}

/// A state that is not ahead is never answered as not due at that time.
pub proof fn tick_behind_is_not_taken(s: schedule::DeploymentSchedule, state: StateView, now_ms: int)
    requires
        schedule::state_matches(state, s),
        state.last_due_at_ms is Some,
        state.next_due_at_ms <= now_ms,
    ensures
        !(schedule::decide(s, Some(state), now_ms) matches Ok(schedule::DecisionView::NotDue(_, _))),
{
    reveal_strlit("interval");
    reveal_strlit("cron_utc");
    assert("interval"@.len() == 8 && "cron_utc"@.len() == 8);
}

/// A pass that finds the state of a tick that lies ahead ends as not due.
proof fn second_pass_is_not_due(
    case: PassCase,
    tick: DueTick,
    moves: Seq<PassMove>,
    end: Conclusion,
    found: Stored<AgentScheduleState>,
)
    requires
        schedule::schedule_is_valid(case.deployment),
        schedule::is_schedule_of(tick.schedule, case.deployment),
        schedule::state_matches(tick.state@, tick.schedule),
        tick.state@.last_due_at_ms is Some,
        case.now_ms < tick.state@.next_due_at_ms,
        is_pass(case, moves, end),
        moves[0].event matches PassEvent::Lease(Some(_)),
        moves[1].event == PassEvent::Schedule(found),
        !(found is Malformed),
        supervise::known_state(found) == Some(tick.state@),
    ensures
        moves.len() == 2,
        moves[0].step matches PassStep::Ask { action: PassAction::LoadSchedule, .. },
        end@ == supervise::done(
            seq![StepView::ReleaseLease],
            records::receipt_tree(case.deployment.deployment_id@, "not_due"@, None),
        ),
{
    let d = case.deployment;
    store::schedule_has_identity(tick.schedule, d);
    assert forall|s: DeploymentSchedule| #[trigger] schedule::is_schedule_of(s, d) implies schedule::decide(
        s,
        Some(tick.state@),
        case.now_ms as int,
    ) == Ok::<schedule::DecisionView, Seq<char>>(
        schedule::DecisionView::NotDue(tick.state@, false),
    ) by {
        store::schedule_has_identity(s, d);
        schedule::state_ahead_is_not_due(s, tick.state@, case.now_ms as int);
    }
    let rest = moves.drop_first();
    assert(ends_from(case, moves[0].step->Ask_stage, rest, end));
    assert(moves[1] == rest[0]);
    assert(rest[0].stage is Ticking);
}

/// A pass that ends with a completed run has taken the lease, has read the schedule and has
/// found it due.
proof fn completed_pass_reads_its_schedule(case: PassCase, moves: Seq<PassMove>, end: Conclusion)
    requires
        is_pass(case, moves, end),
        is_completed(end),
    ensures
        moves.len() > 2,
        moves[0].step matches PassStep::Ask {
            stage: PassStage::Ticking { .. },
            action: PassAction::LoadSchedule,
        },
        moves[1].stage is Ticking,
        moves[1].event is Schedule,
        supervise_pass::leads_to(case, moves[1].stage, moves[1].event, moves[1].step),
        ends_from(case, moves[1].step->Ask_stage, moves.drop_first().drop_first(), end),
        moves[1].step matches PassStep::Ask {
            stage: PassStage::Pointing { .. },
            action: PassAction::LoadActive,
        },
{
    let first = moves[0];
    if let PassStep::Conclude(_) = first.step {
        completion_comes_from_the_agent(case, first.stage, first.event, end);
    }
    let rest = moves.drop_first();
    assert(ends_from(case, first.step->Ask_stage, rest, end));
    assert(rest[0] == moves[1]);
    if let PassStep::Conclude(_) = rest[0].step {
        completion_comes_from_the_agent(case, rest[0].stage, rest[0].event, end);
    }
    assert(ends_from(case, rest[0].step->Ask_stage, rest.drop_first(), end));
}

} // verus!
