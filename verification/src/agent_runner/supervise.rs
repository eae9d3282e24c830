//! One pass of the supervisor over a deployment, decision by decision. The caller
//! looks up what a decision asks for, performs its steps in order, and hands the
//! outcome to the next decision.

use vstd::prelude::*;

use crate::agent_runner::capability;
use crate::agent_runner::capability::{AgentMcpCapabilityRecord, AgentMcpExecutionCapability};
use crate::agent_runner::deployment;
use crate::agent_runner::deployment::{
    canonical_allowlist, deployment_binding_digest, AgentDeployment, AgentExecutor, AgentRunnerTiming,
    ACTIVE_RUNS_NS, MCP_CAPABILITIES_NS, RUNS_NS, SCHEMA_VERSION,
};
use crate::agent_runner::records;
use crate::agent_runner::records::{
    active_run_record, failure_receipt, inner_text_field, quarantine_record, receipt, with_run_state,
    AgentRun, RunView,
};
use crate::agent_runner::schedule;
use crate::agent_runner::schedule::{
    deployment_schedule, schedule_decision, schedule_state_value, AgentScheduleState,
    DeploymentSchedule, ScheduleDecision, StateView,
};
use crate::digest;
use crate::digest::short_hash;
use crate::json;
use crate::json::{Json, JsonMap, JsonTree};
use crate::ports;
use crate::ports::{LeaseClaim, LeaseView, StorageWrite, Stored, WriteContext, WriteView};
use crate::text;
use crate::text::{join2, join4, same, signed_decimal_text};

pub mod conduct;

verus! {

/// A side effect that the supervisor asks for.
#[derive(Debug)]
pub enum RunnerStep {
    Write(StorageWrite),
    PersistSchedule(AgentScheduleState),
    Evidence { event_type: &'static str, payload: Json },
    ReleaseLease,
}

/// What a [`RunnerStep`] says.
pub enum StepView {
    Write(WriteView),
    PersistSchedule(StateView),
    Evidence(Seq<char>, JsonTree),
    ReleaseLease,
}

impl View for RunnerStep {
    type V = StepView;

    open spec fn view(&self) -> StepView {
        match self {
            RunnerStep::Write(write) => StepView::Write(write@),
            RunnerStep::PersistSchedule(state) => StepView::PersistSchedule(state@),
            RunnerStep::Evidence { event_type, payload } => StepView::Evidence(
                event_type@,
                payload@,
            ),
            RunnerStep::ReleaseLease => StepView::ReleaseLease,
        }
    }
}

/// What the steps of a list say.
pub open spec fn steps_view(steps: Seq<RunnerStep>) -> Seq<StepView> {
    steps.map_values(|s: RunnerStep| s@)
}

/// The end of a pass: the last steps and the receipt or the error code. A step that
/// fails ends the pass with its error, unless the steps are only attempted.
#[derive(Debug)]
pub struct Conclusion {
    pub steps: Vec<RunnerStep>,
    pub attempted_only: bool,
    pub result: Result<Json, String>,
}

/// What a [`Conclusion`] says.
#[verifier::ext_equal]
pub struct ConclusionView {
    pub steps: Seq<StepView>,
    pub attempted_only: bool,
    pub result: Result<JsonTree, Seq<char>>,
}

impl View for Conclusion {
    type V = ConclusionView;

    open spec fn view(&self) -> ConclusionView {
        ConclusionView {
            steps: steps_view(self.steps@),
            attempted_only: self.attempted_only,
            result: match self.result {
                Ok(value) => Ok(value@),
                Err(code) => Err(code@),
            },
        }
    }
}

/// The code of a run that waits for an operator.
pub open spec fn pending() -> Seq<char> {
    "agent_run_pending_reconcile"@
}

/// Puts one step on a list.
fn one(step: RunnerStep) -> (r: Vec<RunnerStep>)
    ensures
        steps_view(r@) == seq![step@],
{
    let mut steps: Vec<RunnerStep> = Vec::new();
    steps.push(step);
    assert(steps_view(steps@) =~= seq![step@]);
    steps
}

/// Puts a step at the end of a list.
fn and(steps: Vec<RunnerStep>, step: RunnerStep) -> (r: Vec<RunnerStep>)
    ensures
        steps_view(r@) == steps_view(steps@).push(step@),
{
    let ghost shown = steps_view(steps@);
    let mut steps = steps;
    steps.push(step);
    assert(steps_view(steps@) =~= shown.push(step@));
    steps
}

/// A write of a run's record.
pub open spec fn run_write(run_id: Seq<char>, value: JsonTree) -> StepView {
    StepView::Write(
        WriteView { namespace: RUNS_NS@, key: run_id, value, context: ports::local_context("run:"@ + run_id) },
    )
}

/// A write of the pointer to a deployment's run.
pub open spec fn active_write(deployment_id: Seq<char>, value: JsonTree) -> StepView {
    StepView::Write(
        WriteView {
            namespace: ACTIVE_RUNS_NS@,
            key: deployment_id,
            value,
            context: ports::local_context("active:"@ + deployment_id),
        },
    )
}

fn write_run(run_id: &str, value: Json) -> (r: RunnerStep)
    ensures
        r@ == run_write(run_id@, value@),
{
    RunnerStep::Write(
        StorageWrite {
            namespace: RUNS_NS,
            key: run_id.to_owned(),
            value,
            context: WriteContext::local(join2("run:", run_id)),
        },
    )
}

fn write_active(deployment_id: &str, value: Json) -> (r: RunnerStep)
    ensures
        r@ == active_write(deployment_id@, value@),
{
    RunnerStep::Write(
        StorageWrite {
            namespace: ACTIVE_RUNS_NS,
            key: deployment_id.to_owned(),
            value,
            context: WriteContext::local(join2("active:", deployment_id)),
        },
    )
}

/// Where a pass stands once the deployment's lease is held: its tick is due.
#[derive(Debug)]
pub struct DueTick {
    pub schedule: DeploymentSchedule,
    pub scheduled_for_ms: i64,
    pub state: AgentScheduleState,
}

/// What comes of the schedule of a deployment.
#[derive(Debug)]
pub enum TickDecision {
    Concluded(Conclusion),
    Due(DueTick),
}

/// Whether a decision on a schedule is what the schedule says.
pub open spec fn tick_is(
    r: TickDecision,
    d: AgentDeployment,
    stored: Stored<AgentScheduleState>,
    now_ms: int,
) -> bool {
    match r {
        TickDecision::Due(tick) => schedule::schedule_is_valid(d) && schedule::is_schedule_of(
            tick.schedule,
            d,
        ) && !(stored is Malformed) && schedule::decide(
            tick.schedule,
            known_state(stored),
            now_ms,
        ) == Ok::<schedule::DecisionView, Seq<char>>(
            schedule::DecisionView::Due(tick.state@, tick.scheduled_for_ms as int),
        ),
        TickDecision::Concluded(end) => if !schedule::schedule_is_valid(d) {
            end@ == failed(seq![], "agent_deployment_invalid"@)
        } else if stored is Malformed {
            end@ == failed(seq![], schedule::state_invalid())
        } else {
            exists|s: DeploymentSchedule| #[trigger]
                schedule::is_schedule_of(s, d) && (match schedule::decide(s, known_state(stored), now_ms) {
                    Err(code) => end@ == failed(seq![], code),
                    Ok(schedule::DecisionView::NotDue(state, persist)) => end@ == done(
                        if persist {
                            seq![StepView::PersistSchedule(state), StepView::ReleaseLease]
                        } else {
                            seq![StepView::ReleaseLease]
                        },
                        records::receipt_tree(d.deployment_id@, "not_due"@, None),
                    ),
                    Ok(schedule::DecisionView::Due(_, _)) => false,
                })
        },
    }
}

/// The stored state, where there is one.
pub open spec fn known_state(stored: Stored<AgentScheduleState>) -> Option<StateView> {
    match stored {
        Stored::Present(state) => Some(state@),
        _ => None,
    }
}

/// A pass that ends with an error after some steps.
pub open spec fn failed(steps: Seq<StepView>, code: Seq<char>) -> ConclusionView {
    ConclusionView { steps, attempted_only: false, result: Err(code) }
}

/// A pass that ends with a receipt after some steps.
pub open spec fn done(steps: Seq<StepView>, value: JsonTree) -> ConclusionView {
    ConclusionView { steps, attempted_only: false, result: Ok(value) }
}

fn end_failed(steps: Vec<RunnerStep>, code: String) -> (r: Conclusion)
    ensures
        r@ == failed(steps_view(steps@), code@),
{
    Conclusion { steps, attempted_only: false, result: Err(code) }
}

fn end_done(steps: Vec<RunnerStep>, value: Json) -> (r: Conclusion)
    ensures
        r@ == done(steps_view(steps@), value@),
{
    Conclusion { steps, attempted_only: false, result: Ok(value) }
}

fn no_steps() -> (r: Vec<RunnerStep>)
    ensures
        steps_view(r@) == Seq::<StepView>::empty(),
{
    let steps: Vec<RunnerStep> = Vec::new();
    assert(steps_view(steps@) =~= Seq::<StepView>::empty());
    steps
}

/// The receipt of a pass that found the lease of the deployment held by another.
pub fn lease_held(deployment: &AgentDeployment) -> (r: Conclusion)
    ensures
        r@ == done(seq![], records::receipt_tree(deployment.deployment_id@, "lease_held"@, None)),
{
    end_done(no_steps(), receipt(deployment, "lease_held", &None))
}

/// Decides whether a deployment is due, with its lease held.
pub fn decide_tick(
    deployment: &AgentDeployment,
    stored: Stored<AgentScheduleState>,
    now_ms: i64,
) -> (r: TickDecision)
    ensures
        tick_is(r, *deployment, stored, now_ms as int),
{
    let schedule = match deployment_schedule(deployment) {
        Ok(schedule) => schedule,
        Err(code) => {
            return TickDecision::Concluded(end_failed(no_steps(), code));
        },
    };
    let known: Option<AgentScheduleState> = match stored {
        Stored::Absent => None,
        Stored::Present(state) => Some(state),
        Stored::Malformed => {
            return TickDecision::Concluded(
                end_failed(no_steps(), "agent_schedule_state_invalid".to_owned()),
            );
        },
    };
    match schedule_decision(&schedule, known, now_ms) {
        Err(code) => TickDecision::Concluded(end_failed(no_steps(), code)),
        Ok(ScheduleDecision::NotDue { state, persist }) => {
            let value = receipt(deployment, "not_due", &None);
            if persist {
                let steps = and(one(RunnerStep::PersistSchedule(state)), RunnerStep::ReleaseLease);
                proof {
                    assert(steps_view(steps@) =~= seq![
                        StepView::PersistSchedule(state@),
                        StepView::ReleaseLease,
                    ]);
                }
                TickDecision::Concluded(end_done(steps, value))
            } else {
                TickDecision::Concluded(end_done(one(RunnerStep::ReleaseLease), value))
            }
        },
        Ok(ScheduleDecision::Due(due)) => TickDecision::Due(
            DueTick { schedule, scheduled_for_ms: due.scheduled_for_ms, state: due.state },
        ),
    }
}

/// What comes of the pointer to a deployment's run.
#[derive(Debug)]
pub enum ActiveDecision {
    Concluded(Conclusion),
    /// The lease of the run ended: after these steps its record decides.
    Recover { steps: Vec<RunnerStep>, run_id: String },
    /// No run is in flight; the record of the previous one may hold a session.
    Fresh { previous_run_id: Option<String> },
}

/// What an [`ActiveDecision`] says.
pub enum ActiveView {
    Concluded(ConclusionView),
    Recover(Seq<StepView>, Seq<char>),
    Fresh(Option<Seq<char>>),
}

impl View for ActiveDecision {
    type V = ActiveView;

    open spec fn view(&self) -> ActiveView {
        match self {
            ActiveDecision::Concluded(end) => ActiveView::Concluded(end@),
            ActiveDecision::Recover { steps, run_id } => ActiveView::Recover(
                steps_view(steps@),
                run_id@,
            ),
            ActiveDecision::Fresh { previous_run_id } => ActiveView::Fresh(
                text::option_text(*previous_run_id),
            ),
        }
    }
}

/// The payload of evidence on a run in flight.
pub open spec fn in_flight_tree(active: JsonTree, state: StateView) -> JsonTree {
    JsonTree::Object(
        map!["activeRun"@ => active, "schedule"@ => schedule::state_tree(state)],
    )
}

/// What the pointer to a deployment's run asks for.
pub open spec fn on_active(
    deployment_id: Seq<char>,
    state: StateView,
    active: Option<JsonTree>,
    now_ms: int,
) -> ActiveView {
    match active {
        None => ActiveView::Fresh(None),
        Some(tree) => {
            let run_id = json::text_member(tree, "runId"@);
            if json::text_member(tree, "state"@) == Some("pending_reconcile"@) {
                ActiveView::Concluded(
                    done(
                        seq![StepView::ReleaseLease],
                        records::receipt_tree(deployment_id, "pending_reconcile"@, run_id),
                    ),
                )
            } else if json::text_member(tree, "state"@) == Some("running"@) {
                if json::i64_member(tree, "leaseExpiresAtMs"@) matches Some(expires) && expires
                    > now_ms {
                    ActiveView::Concluded(
                        done(
                            seq![
                                StepView::PersistSchedule(state),
                                StepView::Evidence(
                                    "agent_run.coalesced"@,
                                    in_flight_tree(tree, state),
                                ),
                                StepView::ReleaseLease,
                            ],
                            records::receipt_tree(deployment_id, "coalesced"@, run_id),
                        ),
                    )
                } else {
                    let recovered = seq![
                        StepView::Evidence("agent_run.recovered"@, in_flight_tree(tree, state)),
                    ];
                    match run_id {
                        Some(id) => ActiveView::Recover(recovered, id),
                        None => ActiveView::Concluded(failed(recovered, pending())),
                    }
                }
            } else {
                ActiveView::Fresh(run_id)
            }
        },
    }
}

fn in_flight(active: &Json, state: &AgentScheduleState) -> (r: Json)
    ensures
        r@ == in_flight_tree(active@, state@),
{
    Json::object(
        JsonMap::new().with("activeRun", active.copy()).with("schedule", schedule_state_value(state)),
    )
}

/// Decides what the pointer to a deployment's run asks for. A tick that overlaps a
/// run in flight is coalesced, and a run that waits for an operator is left alone.
pub fn decide_active(
    deployment: &AgentDeployment,
    tick: &DueTick,
    active: &Option<Json>,
    now_ms: i64,
) -> (r: ActiveDecision)
    ensures
        r@ == on_active(
            deployment.deployment_id@,
            tick.state@,
            crate::ports::option_tree(*active),
            now_ms as int,
        ),
{
    let active = match active {
        Some(active) => active,
        None => {
            return ActiveDecision::Fresh { previous_run_id: None };
        },
    };
    let run_id = active.text_field("runId");
    if active.field_is("state", "pending_reconcile") {
        return ActiveDecision::Concluded(
            end_done(
                one(RunnerStep::ReleaseLease),
                receipt(deployment, "pending_reconcile", &run_id),
            ),
        );
    }
    if active.field_is("state", "running") {
        let unexpired: bool = match active.i64_field("leaseExpiresAtMs") {
            Some(expires) => expires > now_ms,
            None => false,
        };
        let payload = in_flight(active, &tick.state);
        if unexpired {
            let steps = and(
                and(
                    one(RunnerStep::PersistSchedule(tick.state.copy())),
                    RunnerStep::Evidence { event_type: "agent_run.coalesced", payload },
                ),
                RunnerStep::ReleaseLease,
            );
            proof {
                assert(steps_view(steps@) =~= seq![
                    StepView::PersistSchedule(tick.state@),
                    StepView::Evidence(
                        "agent_run.coalesced"@,
                        in_flight_tree(active@, tick.state@),
                    ),
                    StepView::ReleaseLease,
                ]);
            }
            return ActiveDecision::Concluded(
                end_done(steps, receipt(deployment, "coalesced", &run_id)),
            );
        }
        let steps = one(RunnerStep::Evidence { event_type: "agent_run.recovered", payload });
        return match run_id {
            Some(id) => ActiveDecision::Recover { steps, run_id: id },
            None => ActiveDecision::Concluded(
                end_failed(steps, "agent_run_pending_reconcile".to_owned()),
            ),
        };
    }
    ActiveDecision::Fresh { previous_run_id: run_id }
}

/// The steps that put a run in front of an operator.
pub open spec fn quarantine(
    deployment_id: Seq<char>,
    run_id: Seq<char>,
    record: JsonTree,
    pointer: JsonTree,
    event_type: Seq<char>,
) -> Seq<StepView> {
    seq![
        run_write(run_id, record),
        active_write(deployment_id, pointer),
        StepView::Evidence(event_type, record),
        StepView::ReleaseLease,
    ]
}

fn quarantine_steps(
    deployment_id: &str,
    run_id: &str,
    record: Json,
    pointer: Json,
    event_type: &'static str,
) -> (r: Vec<RunnerStep>)
    ensures
        steps_view(r@) == quarantine(deployment_id@, run_id@, record@, pointer@, event_type@),
{
    let evidence = record.copy();
    let steps = and(
        and(
            and(one(write_run(run_id, record)), write_active(deployment_id, pointer)),
            RunnerStep::Evidence { event_type, payload: evidence },
        ),
        RunnerStep::ReleaseLease,
    );
    proof {
        assert(steps_view(steps@) =~= quarantine(
            deployment_id@,
            run_id@,
            record@,
            pointer@,
            event_type@,
        ));
    }
    steps
}

/// The session of a run's record.
pub open spec fn session_of(record: JsonTree) -> Option<Seq<char>> {
    records::inner_text(record, "run"@, "codexSessionRef"@)
}

/// What the record of a run whose lease ended asks for.
pub open spec fn on_recovered(
    deployment_id: Seq<char>,
    run_id: Seq<char>,
    record: Option<JsonTree>,
) -> Result<Seq<char>, ConclusionView> {
    match record {
        None => Err(failed(seq![], pending())),
        Some(tree) => match session_of(tree) {
            Some(session) => Ok(session),
            None => Err(
                failed(
                    quarantine(
                        deployment_id,
                        run_id,
                        records::in_run_state(tree, "pending_reconcile"@),
                        records::quarantine_tree(run_id),
                        "agent_run.pending_reconcile"@,
                    ),
                    pending(),
                ),
            ),
        },
    }
}

/// Decides whether a run whose lease ended can be resumed: only with its session.
pub fn decide_recovered(deployment: &AgentDeployment, run_id: &str, record: &Option<Json>) -> (r: Result<
    String,
    Conclusion,
>)
    requires
        record matches Some(value) ==> records::takes_run_state(value@),
    ensures
        match (
            r,
            on_recovered(
                deployment.deployment_id@,
                run_id@,
                crate::ports::option_tree(*record),
            ),
        ) {
            (Ok(session), Ok(view)) => session@ == view,
            (Err(end), Err(view)) => end@ == view,
            _ => false,
        },
{
    let record = match record {
        Some(record) => record,
        None => {
            return Err(end_failed(no_steps(), "agent_run_pending_reconcile".to_owned()));
        },
    };
    match inner_text_field(record, "run", "codexSessionRef") {
        Some(session) => Ok(session),
        None => {
            let steps = quarantine_steps(
                deployment.deployment_id.as_str(),
                run_id,
                with_run_state(record, "pending_reconcile"),
                quarantine_record(run_id),
                "agent_run.pending_reconcile",
            );
            Err(end_failed(steps, "agent_run_pending_reconcile".to_owned()))
        },
    }
}

/// The session that a new run resumes: that of the previous run under the same binding.
pub open spec fn resumed_session(binding: Seq<char>, previous: Option<JsonTree>) -> Option<Seq<char>> {
    match previous {
        Some(tree) => if json::text_member(tree, "bindingDigest"@) == Some(binding) {
            session_of(tree)
        } else {
            None
        },
        None => None,
    }
}

/// The session that a new run resumes.
pub fn previous_session(deployment: &AgentDeployment, previous: &Option<Json>) -> (r: Option<String>)
    ensures
        text::option_text(r) == resumed_session(
            deployment::binding_digest(*deployment),
            crate::ports::option_tree(*previous),
        ),
{
    let binding = deployment_binding_digest(deployment);
    match previous {
        Some(record) => if record.field_is("bindingDigest", binding.as_str()) {
            inner_text_field(record, "run", "codexSessionRef")
        } else {
            None
        },
        None => None,
    }
}

/// The trigger of a tick.
pub open spec fn trigger_id_of(deployment_id: Seq<char>, scheduled_for_ms: int) -> Seq<char> {
    "tick:"@ + deployment_id + ":"@ + text::signed_decimal(scheduled_for_ms)
}

/// The run that a tick starts: a tick always starts the same one.
pub open spec fn run_id_of(deployment_id: Seq<char>, scheduled_for_ms: int) -> Seq<char> {
    "run_"@ + digest::short_digest(trigger_id_of(deployment_id, scheduled_for_ms))
}

/// The run that a tick starts or, with the identifier of a run whose lease ended, resumes.
pub fn planned_run(
    deployment: &AgentDeployment,
    tick: &DueTick,
    lease: &LeaseClaim,
    resumed_run_id: &Option<String>,
    session: Option<String>,
) -> (r: AgentRun)
    ensures
        r@ == (RunView {
            run_id: match *resumed_run_id {
                Some(id) => id@,
                None => run_id_of(deployment.deployment_id@, tick.scheduled_for_ms as int),
            },
            deployment_id: deployment.deployment_id@,
            trigger_id: trigger_id_of(deployment.deployment_id@, tick.scheduled_for_ms as int),
            state: "running"@,
            lease_fence: lease.fencing_token as int,
            deployment_binding_digest: deployment::binding_digest(*deployment),
            codex_session_ref: text::option_text(session),
        }),
{
    let at = signed_decimal_text(tick.scheduled_for_ms);
    let trigger_id = join4("tick:", deployment.deployment_id.as_str(), ":", at.as_str());
    let run_id = match resumed_run_id {
        Some(id) => id.clone(),
        None => {
            let trigger_hash = short_hash(trigger_id.as_str());
            join2("run_", trigger_hash.as_str())
        },
    };
    AgentRun {
        run_id,
        deployment_id: deployment.deployment_id.clone(),
        trigger_id,
        state: "running".to_owned(),
        lease_fence: lease.fencing_token,
        deployment_binding_digest: deployment_binding_digest(deployment),
        codex_session_ref: session,
    }
}

/// What a record that already exists for a run asks for.
pub open spec fn on_existing(
    deployment_id: Seq<char>,
    run_id: Seq<char>,
    binding: Seq<char>,
    state: StateView,
    existing: Option<JsonTree>,
) -> Option<ConclusionView> {
    match existing {
        None => None,
        Some(tree) => {
            let waiting = records::in_run_state(tree, "pending_reconcile"@);
            if records::inner_text(tree, "run"@, "state"@) == Some("completed"@) {
                Some(
                    done(
                        seq![StepView::PersistSchedule(state), StepView::ReleaseLease],
                        records::receipt_tree(deployment_id, "idempotent"@, Some(run_id)),
                    ),
                )
            } else if json::text_member(tree, "bindingDigest"@) != Some(binding) {
                Some(
                    failed(
                        quarantine(
                            deployment_id,
                            run_id,
                            waiting,
                            JsonTree::Object(
                                map![
                                    "runId"@ => JsonTree::Text(run_id),
                                    "state"@ => JsonTree::Text("pending_reconcile"@),
                                    "bindingDigest"@ => JsonTree::Text(binding)
                                ],
                            ),
                            "agent_run.binding_mismatch"@,
                        ),
                        pending(),
                    ),
                )
            } else if session_of(tree) is None {
                Some(
                    failed(
                        quarantine(
                            deployment_id,
                            run_id,
                            waiting,
                            records::quarantine_tree(run_id),
                            "agent_run.pending_reconcile"@,
                        ),
                        pending(),
                    ),
                )
            } else {
                None
            }
        },
    }
}

/// Decides whether a run may start although there is a record of it: a completed run
/// is not run again, and one that cannot be resumed under the same binding waits for
/// an operator.
pub fn decide_existing(
    deployment: &AgentDeployment,
    run: &AgentRun,
    tick: &DueTick,
    existing: &Option<Json>,
) -> (r: Option<Conclusion>)
    requires
        existing matches Some(value) ==> records::takes_run_state(value@),
    ensures
        match (
            r,
            on_existing(
                deployment.deployment_id@,
                run@.run_id,
                run@.deployment_binding_digest,
                tick.state@,
                crate::ports::option_tree(*existing),
            ),
        ) {
            (Some(end), Some(view)) => end@ == view,
            (None, None) => true,
            _ => false,
        },
{
    let existing = match existing {
        Some(existing) => existing,
        None => {
            return None;
        },
    };
    let run_id: &str = run.run_id.as_str();
    let deployment_id: &str = deployment.deployment_id.as_str();
    if records::inner_is(existing, "run", "state", "completed") {
        let steps = and(
            one(RunnerStep::PersistSchedule(tick.state.copy())),
            RunnerStep::ReleaseLease,
        );
        proof {
            assert(steps_view(steps@) =~= seq![
                StepView::PersistSchedule(tick.state@),
                StepView::ReleaseLease,
            ]);
        }
        return Some(
            end_done(steps, receipt(deployment, "idempotent", &Some(run.run_id.clone()))),
        );
    }
    if !existing.field_is("bindingDigest", run.deployment_binding_digest.as_str()) {
        let pointer = Json::object(
            JsonMap::new().with("runId", Json::text(run_id)).with(
                "state",
                Json::text("pending_reconcile"),
            ).with("bindingDigest", Json::text(run.deployment_binding_digest.as_str())),
        );
        let steps = quarantine_steps(
            deployment_id,
            run_id,
            with_run_state(existing, "pending_reconcile"),
            pointer,
            "agent_run.binding_mismatch",
        );
        return Some(end_failed(steps, "agent_run_pending_reconcile".to_owned()));
    }
    match inner_text_field(existing, "run", "codexSessionRef") {
        Some(_) => None,
        None => {
            let steps = quarantine_steps(
                deployment_id,
                run_id,
                with_run_state(existing, "pending_reconcile"),
                quarantine_record(run_id),
                "agent_run.pending_reconcile",
            );
            Some(end_failed(steps, "agent_run_pending_reconcile".to_owned()))
        },
    }
}

/// Whether an agent may run, and the reference under which that was decided.
#[derive(Debug)]
pub struct AgentEntitlementDecision {
    pub allowed: bool,
    pub reference: String,
}

/// Decides whether an agent may run.
pub trait AgentEntitlementPort {
    fn authorize(&self, deployment: &AgentDeployment) -> AgentEntitlementDecision;
}

/// The entitlement of a local installation: every agent may run.
#[derive(Debug)]
pub struct LocalEntitlement;

impl AgentEntitlementPort for LocalEntitlement {
    fn authorize(&self, deployment: &AgentDeployment) -> (r: AgentEntitlementDecision)
        ensures
            r.allowed,
            r.reference@ == "local-noop:"@ + deployment.deployment_id@,
    {
        AgentEntitlementDecision {
            allowed: true,
            reference: join2("local-noop:", deployment.deployment_id.as_str()),
        }
    }
}

/// The policy that every trigger carries.
pub const SIDE_EFFECT_POLICY: &'static str =
    "Use Studio MCP tools for Studio mutations, analysis, and durable evidence. Broker execution remains user-configured and broker-off-platform; a separately configured local broker interface may be used by the agent. Never put credentials in this prompt or persist them in Studio. Retain broker client order IDs for deterministic reconciliation.";

/// The trigger that an agent receives.
pub open spec fn trigger_tree(
    d: AgentDeployment,
    run: RunView,
    kind: Seq<char>,
    scheduled_for_ms: int,
    state: StateView,
) -> JsonTree {
    JsonTree::Object(
        map![
            "schemaVersion"@ => JsonTree::Text(SCHEMA_VERSION@),
            "systemProjectId"@ => JsonTree::Text(d.system_project_id@),
            "agentDefinitionVersionId"@ => JsonTree::Text(d.agent_definition_version_id@),
            "executionConfigVersionId"@ => JsonTree::Text(d.execution_config_version_id@),
            "deploymentBindingDigest"@ => JsonTree::Text(run.deployment_binding_digest),
            "studioToolAllowlist"@ => json::text_array(text::texts(d.studio_tool_allowlist@)),
            "deploymentId"@ => JsonTree::Text(d.deployment_id@),
            "runId"@ => JsonTree::Text(run.run_id),
            "mode"@ => JsonTree::Text(d.mode@),
            "schedule"@ => JsonTree::Object(
                map![
                    "kind"@ => JsonTree::Text(kind),
                    "scheduledForMs"@ => JsonTree::Int(scheduled_for_ms),
                    "missedTickCount"@ => JsonTree::Int(state.missed_tick_count),
                    "missedTickCountCapped"@ => JsonTree::Bool(state.missed_tick_count_capped),
                    "nextDueAtMs"@ => JsonTree::Int(state.next_due_at_ms)
                ],
            ),
            "prompt"@ => JsonTree::Text(d.prompt@),
            "workspace"@ => JsonTree::Text(d.workspace@),
            "runtimeProfile"@ => JsonTree::Text(d.runtime_profile@),
            "sideEffectPolicy"@ => JsonTree::Text(SIDE_EFFECT_POLICY@),
            "redactedFacts"@ => JsonTree::Object(Map::empty())
        ],
    )
}

/// The trigger that an agent receives.
pub fn run_trigger(deployment: &AgentDeployment, run: &AgentRun, tick: &DueTick) -> (r: Json)
    ensures
        r@ == trigger_tree(
            *deployment,
            run@,
            schedule::kind_of(tick.schedule),
            tick.scheduled_for_ms as int,
            tick.state@,
        ),
{
    let schedule = Json::object(
        JsonMap::new().with("kind", Json::text(tick.schedule.kind())).with(
            "scheduledForMs",
            Json::Int(tick.scheduled_for_ms),
        ).with("missedTickCount", Json::Large(tick.state.missed_tick_count)).with(
            "missedTickCountCapped",
            Json::Bool(tick.state.missed_tick_count_capped),
        ).with("nextDueAtMs", Json::Int(tick.state.next_due_at_ms)),
    );
    Json::object(
        JsonMap::new().with("schemaVersion", Json::text(SCHEMA_VERSION)).with(
            "systemProjectId",
            Json::text(deployment.system_project_id.as_str()),
        ).with(
            "agentDefinitionVersionId",
            Json::text(deployment.agent_definition_version_id.as_str()),
        ).with(
            "executionConfigVersionId",
            Json::text(deployment.execution_config_version_id.as_str()),
        ).with(
            "deploymentBindingDigest",
            Json::text(run.deployment_binding_digest.as_str()),
        ).with("studioToolAllowlist", Json::texts(&deployment.studio_tool_allowlist)).with(
            "deploymentId",
            Json::text(deployment.deployment_id.as_str()),
        ).with("runId", Json::text(run.run_id.as_str())).with(
            "mode",
            Json::text(deployment.mode.as_str()),
        ).with("schedule", schedule).with("prompt", Json::text(deployment.prompt.as_str())).with(
            "workspace",
            Json::text(deployment.workspace.as_str()),
        ).with("runtimeProfile", Json::text(deployment.runtime_profile.as_str())).with(
            "sideEffectPolicy",
            Json::text(SIDE_EFFECT_POLICY),
        ).with("redactedFacts", Json::object(JsonMap::new())),
    )
}

/// The record of a run.
pub open spec fn run_record_tree(
    run: JsonTree,
    binding: Seq<char>,
    capability_key: Seq<char>,
    entitlement: Seq<char>,
    state: StateView,
) -> JsonTree {
    JsonTree::Object(
        map![
            "schemaVersion"@ => JsonTree::Text(SCHEMA_VERSION@),
            "kind"@ => JsonTree::Text("AgentRun"@),
            "run"@ => run,
            "bindingDigest"@ => JsonTree::Text(binding),
            "mcpCapabilityDigest"@ => JsonTree::Text(capability_key),
            "entitlementRef"@ => JsonTree::Text(entitlement),
            "schedule"@ => schedule::state_tree(state)
        ],
    )
}

fn run_record(
    run: &AgentRun,
    capability_key: &str,
    entitlement: &str,
    state: &AgentScheduleState,
) -> (r: Json)
    ensures
        r@ == run_record_tree(
            records::run_tree(run@),
            run@.deployment_binding_digest,
            capability_key@,
            entitlement@,
            state@,
        ),
{
    Json::object(
        JsonMap::new().with("schemaVersion", Json::text(SCHEMA_VERSION)).with(
            "kind",
            Json::text("AgentRun"),
        ).with("run", run.value()).with(
            "bindingDigest",
            Json::text(run.deployment_binding_digest.as_str()),
        ).with("mcpCapabilityDigest", Json::text(capability_key)).with(
            "entitlementRef",
            Json::text(entitlement),
        ).with("schedule", schedule_state_value(state)),
    )
}

/// A run that may start: after these steps the agent is started with the trigger.
#[derive(Debug)]
pub struct RunStart {
    pub steps: Vec<RunnerStep>,
    pub trigger: Json,
    /// The lookup key of the capability that the agent receives.
    pub capability_digest: String,
    pub entitlement_reference: String,
}

/// The record of the capability of a run.
pub open spec fn issued_tree(d: AgentDeployment, run: RunView, key: Seq<char>) -> JsonTree {
    JsonTree::Object(
        map![
            "schemaVersion"@ => JsonTree::Text(SCHEMA_VERSION@),
            "deploymentId"@ => JsonTree::Text(d.deployment_id@),
            "runId"@ => JsonTree::Text(run.run_id),
            "bindingDigest"@ => JsonTree::Text(run.deployment_binding_digest),
            "mode"@ => JsonTree::Text(d.mode@),
            "studioToolAllowlist"@ => json::text_array(
                deployment::canonical_tools(d.studio_tool_allowlist@),
            ),
            "capabilityDigest"@ => JsonTree::Text(key)
        ],
    )
}

/// The steps before an agent starts: its capability, its run and the pointer to it
/// are on record first.
pub open spec fn start_steps(
    d: AgentDeployment,
    run: RunView,
    state: StateView,
    lease: LeaseView,
    entitlement: Seq<char>,
    key: Seq<char>,
    now_ms: int,
) -> Seq<StepView> {
    seq![
        StepView::Write(
            WriteView {
                namespace: MCP_CAPABILITIES_NS@,
                key,
                value: issued_tree(d, run, key),
                context: ports::local_context("mcp-capability:"@ + run.run_id),
            },
        ),
        run_write(
            run.run_id,
            run_record_tree(
                records::run_tree(run),
                run.deployment_binding_digest,
                key,
                entitlement,
                state,
            ),
        ),
        active_write(
            d.deployment_id@,
            records::active_tree(run.run_id, "running"@, lease, now_ms),
        ),
    ]
}

/// Starts a run if the entitlement allows it. A denied start has no effect but that
/// its tick counts as taken.
pub fn authorize_run(
    deployment: &AgentDeployment,
    run: &AgentRun,
    tick: &DueTick,
    lease: &LeaseClaim,
    decision: AgentEntitlementDecision,
    capability: &AgentMcpExecutionCapability,
    now_ms: i64,
) -> (r: Result<RunStart, Conclusion>)
    ensures
        match r {
            Ok(start) => decision.allowed && start.capability_digest@ == capability::capability_key(
                capability@,
            ) && start.entitlement_reference@ == decision.reference@ && start.trigger@
                == trigger_tree(
                *deployment,
                run@,
                schedule::kind_of(tick.schedule),
                tick.scheduled_for_ms as int,
                tick.state@,
            ) && steps_view(start.steps@) == start_steps(
                *deployment,
                run@,
                tick.state@,
                lease@,
                decision.reference@,
                capability::capability_key(capability@),
                now_ms as int,
            ),
            Err(end) => !decision.allowed && end@ == failed(
                seq![StepView::PersistSchedule(tick.state@), StepView::ReleaseLease],
                "agent_entitlement_denied"@,
            ),
        },
{
    if !decision.allowed {
        let steps = and(
            one(RunnerStep::PersistSchedule(tick.state.copy())),
            RunnerStep::ReleaseLease,
        );
        proof {
            assert(steps_view(steps@) =~= seq![
                StepView::PersistSchedule(tick.state@),
                StepView::ReleaseLease,
            ]);
        }
        return Err(end_failed(steps, "agent_entitlement_denied".to_owned()));
    }
    let key = capability.digest();
    let record = AgentMcpCapabilityRecord {
        schema_version: SCHEMA_VERSION.to_owned(),
        deployment_id: deployment.deployment_id.clone(),
        run_id: run.run_id.clone(),
        binding_digest: run.deployment_binding_digest.clone(),
        mode: deployment.mode.clone(),
        studio_tool_allowlist: canonical_allowlist(&deployment.studio_tool_allowlist),
        capability_digest: key.clone(),
    };
    let issued = RunnerStep::Write(
        StorageWrite {
            namespace: MCP_CAPABILITIES_NS,
            key: key.clone(),
            value: record.value(),
            context: WriteContext::local(join2("mcp-capability:", run.run_id.as_str())),
        },
    );
    let running = run_record(run, key.as_str(), decision.reference.as_str(), &tick.state);
    let steps = and(
        and(one(issued), write_run(run.run_id.as_str(), running)),
        write_active(
            deployment.deployment_id.as_str(),
            active_run_record(run.run_id.as_str(), "running", lease, now_ms),
        ),
    );
    proof {
        assert(steps_view(steps@) =~= start_steps(
            *deployment,
            run@,
            tick.state@,
            lease@,
            decision.reference@,
            capability::capability_key(capability@),
            now_ms as int,
        ));
    }
    Ok(
        RunStart {
            steps,
            trigger: run_trigger(deployment, run, tick),
            capability_digest: key,
            entitlement_reference: decision.reference,
        },
    )
}

/// The record of a run whose agent failed.
pub open spec fn failed_run_tree(
    deployment_id: Seq<char>,
    run_id: Seq<char>,
    key: Seq<char>,
    entitlement: Seq<char>,
    state: StateView,
) -> JsonTree {
    JsonTree::Object(
        map![
            "schemaVersion"@ => JsonTree::Text(SCHEMA_VERSION@),
            "kind"@ => JsonTree::Text("AgentRun"@),
            "run"@ => JsonTree::Object(
                map![
                    "runId"@ => JsonTree::Text(run_id),
                    "deploymentId"@ => JsonTree::Text(deployment_id),
                    "state"@ => JsonTree::Text("pending_reconcile"@),
                    "errorCode"@ => JsonTree::Text("agent_runtime_failed"@)
                ],
            ),
            "mcpCapabilityDigest"@ => JsonTree::Text(key),
            "entitlementRef"@ => JsonTree::Text(entitlement),
            "schedule"@ => schedule::state_tree(state)
        ],
    )
}

/// The end of a pass whose agent failed. A process that failed can have exited after
/// a side effect, so the run waits for an operator and is never blindly retried.
pub fn conclude_failed_run(
    deployment: &AgentDeployment,
    run: &AgentRun,
    tick: &DueTick,
    start: &RunStart,
) -> (r: Conclusion)
    ensures
        r@ == (ConclusionView {
            steps: quarantine(
                deployment.deployment_id@,
                run@.run_id,
                failed_run_tree(
                    deployment.deployment_id@,
                    run@.run_id,
                    start.capability_digest@,
                    start.entitlement_reference@,
                    tick.state@,
                ),
                records::quarantine_tree(run@.run_id),
                "agent_run.pending_reconcile"@,
            ),
            attempted_only: true,
            result: Err(pending()),
        }),
{
    let inner = Json::object(
        JsonMap::new().with("runId", Json::text(run.run_id.as_str())).with(
            "deploymentId",
            Json::text(deployment.deployment_id.as_str()),
        ).with("state", Json::text("pending_reconcile")).with(
            "errorCode",
            Json::text("agent_runtime_failed"),
        ),
    );
    let record = Json::object(
        JsonMap::new().with("schemaVersion", Json::text(SCHEMA_VERSION)).with(
            "kind",
            Json::text("AgentRun"),
        ).with("run", inner).with(
            "mcpCapabilityDigest",
            Json::text(start.capability_digest.as_str()),
        ).with("entitlementRef", Json::text(start.entitlement_reference.as_str())).with(
            "schedule",
            schedule_state_value(&tick.state),
        ),
    );
    let steps = quarantine_steps(
        deployment.deployment_id.as_str(),
        run.run_id.as_str(),
        record,
        quarantine_record(run.run_id.as_str()),
        "agent_run.pending_reconcile",
    );
    Conclusion {
        steps,
        attempted_only: true,
        result: Err("agent_run_pending_reconcile".to_owned()),
    }
}

/// A run that its agent has completed.
pub open spec fn completed_run(run: RunView, session: Option<Seq<char>>) -> RunView {
    RunView { state: "completed"@, codex_session_ref: session, ..run }
}

/// The steps after an agent has completed.
pub open spec fn completion_steps(
    deployment_id: Seq<char>,
    run: RunView,
    record: JsonTree,
    lease: LeaseView,
    state: StateView,
    now_ms: int,
) -> Seq<StepView> {
    seq![
        run_write(run.run_id, record),
        active_write(
            deployment_id,
            records::active_tree(run.run_id, "completed"@, lease, now_ms),
        ),
        StepView::PersistSchedule(state),
        StepView::Evidence("agent_run.completed"@, record),
        StepView::ReleaseLease,
    ]
}

/// The end of a pass whose agent completed with a session and a renewed lease.
pub fn conclude_completed_run(
    deployment: &AgentDeployment,
    run: &AgentRun,
    tick: &DueTick,
    start: &RunStart,
    session: Option<String>,
    lease: &LeaseClaim,
    now_ms: i64,
) -> (r: Conclusion)
    ensures
        r@ == done(
            completion_steps(
                deployment.deployment_id@,
                run@,
                run_record_tree(
                    records::run_tree(completed_run(run@, text::option_text(session))),
                    run@.deployment_binding_digest,
                    start.capability_digest@,
                    start.entitlement_reference@,
                    tick.state@,
                ),
                lease@,
                tick.state@,
                now_ms as int,
            ),
            records::receipt_tree(deployment.deployment_id@, "completed"@, Some(run@.run_id)),
        ),
{
    let completed = AgentRun {
        run_id: run.run_id.clone(),
        deployment_id: run.deployment_id.clone(),
        trigger_id: run.trigger_id.clone(),
        state: "completed".to_owned(),
        lease_fence: run.lease_fence,
        deployment_binding_digest: run.deployment_binding_digest.clone(),
        codex_session_ref: session,
    };
    let record = run_record(
        &completed,
        start.capability_digest.as_str(),
        start.entitlement_reference.as_str(),
        &tick.state,
    );
    let evidence = record.copy();
    let ghost shown = record@;
    let steps = and(
        and(
            and(
                and(
                    one(write_run(run.run_id.as_str(), record)),
                    write_active(
                        deployment.deployment_id.as_str(),
                        active_run_record(run.run_id.as_str(), "completed", lease, now_ms),
                    ),
                ),
                RunnerStep::PersistSchedule(tick.state.copy()),
            ),
            RunnerStep::Evidence { event_type: "agent_run.completed", payload: evidence },
        ),
        RunnerStep::ReleaseLease,
    );
    proof {
        assert(completed@ =~= completed_run(run@, text::option_text(session)));
        assert(steps_view(steps@) =~= completion_steps(
            deployment.deployment_id@,
            run@,
            shown,
            lease@,
            tick.state@,
            now_ms as int,
        ));
    }
    end_done(steps, receipt(deployment, "completed", &Some(run.run_id.clone())))
}

/// The pointer that a heartbeat writes while an agent runs.
pub fn persist_active_heartbeat(
    deployment: &AgentDeployment,
    run: &AgentRun,
    lease: &LeaseClaim,
    heartbeat_at_ms: i64,
) -> (r: RunnerStep)
    ensures
        r@ == active_write(
            deployment.deployment_id@,
            records::active_tree(run@.run_id, "running"@, lease@, heartbeat_at_ms as int),
        ),
{
    write_active(
        deployment.deployment_id.as_str(),
        active_run_record(run.run_id.as_str(), "running", lease, heartbeat_at_ms),
    )
}

/// The runtime of an agent, as the supervisor reaches it. It hands back a session and
/// nothing else of what the agent said.
pub trait AgentRuntimePort {
    /// Starts the agent of a run, or goes on with its session.
    fn start_or_resume(&self, run: &AgentRun, trigger: &Json) -> Result<Option<String>, String>;

    /// The same with the capability of the run, for a runtime that passes it on. Others
    /// never see it.
    fn start_or_resume_with_mcp_execution_context(
        &self,
        run: &AgentRun,
        trigger: &Json,
        _context: &AgentMcpExecutionCapability,
    ) -> Result<Option<String>, String> {
        self.start_or_resume(run, trigger)
    }
}

/// What happened to a running agent.
#[derive(Debug)]
pub enum AdapterEvent {
    /// It ended, with a session or with a code.
    Finished(Result<Option<String>, String>),
    /// It still runs and a heartbeat is due.
    StillRunning,
    /// Its end cannot be heard of any more.
    Disconnected,
}

/// What a running agent asks for.
#[derive(Debug)]
pub enum HeartbeatStep {
    Fail(String),
    /// The pointer is written under the renewed lease. Where `finished` says so, the
    /// agent has ended; else it is waited for again.
    Beat {
        write: RunnerStep,
        lease: LeaseClaim,
        finished: Option<Result<Option<String>, String>>,
    },
}

/// Keeps the lease of a deployment in force while an agent runs, so that no second
/// runner goes on with the same session. `renewed` is the renewed lease, where it could
/// be renewed.
pub fn decide_heartbeat(
    event: AdapterEvent,
    renewed: Option<LeaseClaim>,
    deployment: &AgentDeployment,
    run: &AgentRun,
    heartbeat_at_ms: i64,
) -> (r: HeartbeatStep)
    ensures
        match (event, renewed) {
            (AdapterEvent::Disconnected, _) => r matches HeartbeatStep::Fail(e) && e@
                == "agent_runtime_channel_closed"@,
            (_, None) => r matches HeartbeatStep::Fail(e) && e@ == "agent_run_lease_lost"@,
            (_, Some(claim)) => r matches HeartbeatStep::Beat { write, lease, finished } && lease
                == claim && write@ == active_write(
                deployment.deployment_id@,
                records::active_tree(run@.run_id, "running"@, claim@, heartbeat_at_ms as int),
            ) && finished == (match event {
                AdapterEvent::Finished(result) => Some(result),
                _ => None,
            }),
        },
{
    let finished: Option<Result<Option<String>, String>> = match event {
        AdapterEvent::Disconnected => {
            return HeartbeatStep::Fail("agent_runtime_channel_closed".to_owned());
        },
        AdapterEvent::Finished(result) => Some(result),
        AdapterEvent::StillRunning => None,
    };
    match renewed {
        Some(lease) => {
            let write = persist_active_heartbeat(deployment, run, &lease, heartbeat_at_ms);
            HeartbeatStep::Beat { write, lease, finished }
        },
        None => HeartbeatStep::Fail("agent_run_lease_lost".to_owned()),
    }
}

/// The time so many milliseconds after the start of a run.
pub fn elapsed_now_ms(started_at_ms: i64, elapsed_ms: u128) -> (r: i64)
    ensures
        r == crate::agent_runner::cron::clamp(
            started_at_ms + if elapsed_ms > i64::MAX {
                i64::MAX as int
            } else {
                elapsed_ms as int
            },
        ),
{
    let elapsed: i64 = if elapsed_ms > i64::MAX as u128 {
        i64::MAX
    } else {
        elapsed_ms as i64
    };
    match started_at_ms.checked_add(elapsed) {
        Some(n) => n,
        None => i64::MAX,
    }
}

/// Whether the supervisor passes over a deployment.
pub open spec fn is_supervised(d: AgentDeployment) -> bool {
    d.desired_state@ == "active"@ && d.executor == AgentExecutor::Supervised
}

/// The deployments that the supervisor passes over, in their order.
pub open spec fn supervised(list: Seq<AgentDeployment>) -> Seq<Seq<char>>
    decreases list.len(),
{
    if list.len() == 0 {
        Seq::empty()
    } else if is_supervised(list.last()) {
        supervised(list.drop_last()).push(list.last().deployment_id@)
    } else {
        supervised(list.drop_last())
    }
}

/// The places of the deployments that the supervisor passes over. A heartbeat that
/// does not come before the end of the lease is refused.
pub fn plan_supervision(deployments: &Vec<AgentDeployment>, timing: &AgentRunnerTiming) -> (r: Result<
    Vec<usize>,
    String,
>)
    ensures
        match r {
            Ok(places) => timing.is_valid() && (forall|k: int|
                0 <= k < places@.len() ==> (#[trigger] places@[k]) < deployments@.len())
                && places@.map_values(|i: usize| deployments@[i as int].deployment_id@) == supervised(
                deployments@,
            ) && (forall|k: int|
                0 <= k < places@.len() ==> is_supervised(deployments@[#[trigger] places@[k] as int])),
            Err(e) => !timing.is_valid() && e@ == "agent_runner_timing_invalid"@,
        },
{
    if !timing.valid() {
        return Err("agent_runner_timing_invalid".to_owned());
    }
    let mut places: Vec<usize> = Vec::new();
    let mut i: usize = 0;
    proof {
        assert(places@.map_values(|p: usize| deployments@[p as int].deployment_id@) =~= supervised(
            deployments@.take(0),
        ));
    }
    while i < deployments.len()
        invariant
            i <= deployments.len(),
            forall|k: int| 0 <= k < places@.len() ==> (#[trigger] places@[k]) < deployments@.len(),
            forall|k: int|
                0 <= k < places@.len() ==> is_supervised(deployments@[#[trigger] places@[k] as int]),
            places@.map_values(|p: usize| deployments@[p as int].deployment_id@) == supervised(
                deployments@.take(i as int),
            ),
        decreases deployments.len() - i,
    {
        let ghost shown = places@.map_values(|p: usize| deployments@[p as int].deployment_id@);
        proof {
            assert(deployments@.take(i + 1).drop_last() =~= deployments@.take(i as int));
            assert(deployments@.take(i + 1).last() == deployments@[i as int]);
        }
        if same(deployments[i].desired_state.as_str(), "active") && deployments[i].executor
            == AgentExecutor::Supervised {
            places.push(i);
            proof {
                assert(places@.map_values(|p: usize| deployments@[p as int].deployment_id@)
                    =~= shown.push(deployments@[i as int].deployment_id@));
            }
        }
        i += 1;
    }
    assert(deployments@.take(deployments@.len() as int) =~= deployments@);
    Ok(places)
}

/// The receipt of a pass: a failed one is reported without its details.
pub fn pass_receipt(deployment: &AgentDeployment, result: Result<Json, String>) -> (r: Json)
    ensures
        r@ == (match result {
            Ok(value) => value@,
            Err(code) => records::failure_tree(deployment.deployment_id@, code@),
        }),
{
    match result {
        Ok(value) => value,
        Err(code) => failure_receipt(deployment, code.as_str()),
    }
}

/// While a run is in flight and its lease has not ended, a further tick is coalesced
/// into it: nothing is started.
pub proof fn overlapping_tick_is_coalesced(
    deployment_id: Seq<char>,
    state: StateView,
    run_id: Seq<char>,
    lease: LeaseView,
    heartbeat_at_ms: int,
    now_ms: int,
)
    requires
        i64::MIN <= lease.expires_at_ms <= i64::MAX,
        now_ms < lease.expires_at_ms,
    ensures
        on_active(
            deployment_id,
            state,
            Some(records::active_tree(run_id, "running"@, lease, heartbeat_at_ms)),
            now_ms,
        ) matches ActiveView::Concluded(end) && end.result == Ok::<JsonTree, Seq<char>>(
            records::receipt_tree(deployment_id, "coalesced"@, Some(run_id)),
        ),
{
    active_tree_reads(run_id, "running"@, lease, heartbeat_at_ms);
    reveal_strlit("running");
    reveal_strlit("pending_reconcile");
    assert("running"@.len() == 7 && "pending_reconcile"@.len() == 17);
}

/// What the pointer to a run says, read back.
proof fn active_tree_reads(run_id: Seq<char>, state: Seq<char>, lease: LeaseView, heartbeat: int)
    ensures
        json::text_member(records::active_tree(run_id, state, lease, heartbeat), "runId"@) == Some(
            run_id,
        ),
        json::text_member(records::active_tree(run_id, state, lease, heartbeat), "state"@) == Some(
            state,
        ),
        i64::MIN <= lease.expires_at_ms <= i64::MAX ==> json::i64_member(
            records::active_tree(run_id, state, lease, heartbeat),
            "leaseExpiresAtMs"@,
        ) == Some(lease.expires_at_ms),
        i64::MIN <= lease.fencing_token <= i64::MAX ==> json::i64_member(
            records::active_tree(run_id, state, lease, heartbeat),
            "leaseFence"@,
        ) == Some(lease.fencing_token),
{
    reveal_strlit("runId");
    reveal_strlit("state");
    reveal_strlit("leaseExpiresAtMs");
    reveal_strlit("leaseFence");
    reveal_strlit("heartbeatAtMs");
    assert("runId"@[0] == 'r' && "state"@[0] == 's');
    assert("leaseExpiresAtMs"@.len() == 16 && "leaseFence"@.len() == 10 && "heartbeatAtMs"@.len()
        == 13);
}

/// A run that has been put in front of an operator is not retried: the next pass
/// ends with its receipt and starts nothing.
pub proof fn quarantined_run_is_not_retried(
    deployment_id: Seq<char>,
    state: StateView,
    run_id: Seq<char>,
    now_ms: int,
)
    ensures
        on_active(deployment_id, state, Some(records::quarantine_tree(run_id)), now_ms)
            == ActiveView::Concluded(
            done(
                seq![StepView::ReleaseLease],
                records::receipt_tree(deployment_id, "pending_reconcile"@, Some(run_id)),
            ),
        ),
{
    reveal_strlit("runId");
    reveal_strlit("state");
    assert("runId"@[0] == 'r' && "state"@[0] == 's');
}

/// A completed run is not run twice: a pass that finds its record ends with an
/// idempotent receipt.
pub proof fn completed_run_is_idempotent(
    deployment_id: Seq<char>,
    run: RunView,
    session: Option<Seq<char>>,
    key: Seq<char>,
    entitlement: Seq<char>,
    state: StateView,
    later: StateView,
)
    ensures
        on_existing(
            deployment_id,
            run.run_id,
            run.deployment_binding_digest,
            later,
            Some(
                run_record_tree(
                    records::run_tree(completed_run(run, session)),
                    run.deployment_binding_digest,
                    key,
                    entitlement,
                    state,
                ),
            ),
        ) == Some(
            done(
                seq![StepView::PersistSchedule(later), StepView::ReleaseLease],
                records::receipt_tree(deployment_id, "idempotent"@, Some(run.run_id)),
            ),
        ),
{
    run_record_reads(completed_run(run, session), run.deployment_binding_digest, key, entitlement, state);
}

/// What the record of a run says, read back.
proof fn run_record_reads(
    run: RunView,
    binding: Seq<char>,
    key: Seq<char>,
    entitlement: Seq<char>,
    state: StateView,
)
    ensures
        ({
            let record = run_record_tree(records::run_tree(run), binding, key, entitlement, state);
            &&& records::inner_text(record, "run"@, "runId"@) == Some(run.run_id)
            &&& records::inner_text(record, "run"@, "deploymentId"@) == Some(run.deployment_id)
            &&& records::inner_text(record, "run"@, "state"@) == Some(run.state)
            &&& session_of(record) == run.codex_session_ref
            &&& json::text_member(record, "bindingDigest"@) == Some(binding)
            &&& json::text_member(record, "mcpCapabilityDigest"@) == Some(key)
            &&& i64::MIN <= run.lease_fence <= i64::MAX ==> (json::member(
                record,
                "run"@,
            ) matches Some(inner) && json::i64_member(inner, "leaseFence"@) == Some(run.lease_fence))
        }),
{
    reveal_strlit("schemaVersion");
    reveal_strlit("kind");
    reveal_strlit("run");
    reveal_strlit("bindingDigest");
    reveal_strlit("mcpCapabilityDigest");
    reveal_strlit("entitlementRef");
    reveal_strlit("schedule");
    reveal_strlit("runId");
    reveal_strlit("deploymentId");
    reveal_strlit("triggerId");
    reveal_strlit("state");
    reveal_strlit("leaseFence");
    reveal_strlit("deploymentBindingDigest");
    reveal_strlit("codexSessionRef");
    assert("runId"@[0] == 'r' && "state"@[0] == 's');
    assert("run"@.len() == 3 && "bindingDigest"@.len() == 13 && "mcpCapabilityDigest"@.len() == 19
        && "entitlementRef"@.len() == 14 && "schedule"@.len() == 8);
    assert("deploymentId"@.len() == 12 && "triggerId"@.len() == 9 && "leaseFence"@.len() == 10
        && "deploymentBindingDigest"@.len() == 23 && "codexSessionRef"@.len() == 15);
}

/// The steps that start a run put it in flight: with what they write, and the lease
/// still running, the capability of the run is in force and names exactly this run,
/// its binding, mode and tools.
pub proof fn started_run_has_authority(
    d: AgentDeployment,
    run: RunView,
    state: StateView,
    lease: LeaseView,
    entitlement: Seq<char>,
    key: Seq<char>,
    heartbeat_at_ms: int,
    snapshot: capability::ExecutionSnapshot,
    known: Seq<String>,
)
    requires
        run.state == "running"@,
        run.deployment_id == d.deployment_id@,
        run.deployment_binding_digest == deployment::binding_digest(d),
        i64::MIN <= lease.expires_at_ms <= i64::MAX,
        0 <= snapshot.now_ms < lease.expires_at_ms,
        snapshot.capability matches Stored::Present(record) && capability::record_names(
            record,
            d,
            run.run_id,
            key,
        ),
        !text::is_blank(d.deployment_id@),
        !text::is_blank(run.run_id),
        !text::is_blank(deployment::binding_digest(d)),
        capability::mode_is_valid(d.mode@),
        deployment::tools_are_valid(
            snapshot.capability->Present_0.studio_tool_allowlist@,
            known,
        ),
        snapshot.run matches Some(r) && r@ == run_record_tree(
            records::run_tree(run),
            run.deployment_binding_digest,
            key,
            entitlement,
            state,
        ),
        snapshot.active matches Some(a) && a@ == records::active_tree(
            run.run_id,
            "running"@,
            lease,
            heartbeat_at_ms,
        ),
        snapshot.deployment == Stored::Present(d),
    ensures
        capability::context_of(snapshot, key, known) == Ok::<capability::ContextView, Seq<char>>(
            capability::ContextView {
                deployment_id: d.deployment_id@,
                run_id: run.run_id,
                binding_digest: deployment::binding_digest(d),
                mode: d.mode@,
                tools: deployment::canonical_tools(d.studio_tool_allowlist@),
                capability_digest: key,
            },
        ),
{
    active_tree_reads(run.run_id, "running"@, lease, heartbeat_at_ms);
    run_record_reads(run, run.deployment_binding_digest, key, entitlement, state);
}

} // verus!
