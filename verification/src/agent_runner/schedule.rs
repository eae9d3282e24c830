//! When a deployment is due: fixed intervals and cron expressions, with ticks that
//! were missed coalesced into one.

use vstd::prelude::*;

use crate::agent_runner::cron;
use crate::agent_runner::cron::{
    cron_due_at_or_after, cron_missed_tick_count, next_cron_due_after, CronFault, CronUtcSchedule,
};
use crate::agent_runner::deployment;
use crate::agent_runner::deployment::{AgentDeployment, SCHEMA_VERSION};
use crate::digest;
use crate::digest::short_hash;
use crate::json;
use crate::json::{json_text, Json, JsonMap, JsonTree};
use crate::text::same;

verus! {

/// When a deployment is due.
#[derive(Debug)]
pub enum DeploymentSchedule {
    Interval { seconds: u64 },
    CronUtc(CronUtcSchedule),
}

/// What is kept of a deployment's schedule.
#[derive(Debug)]
pub struct AgentScheduleState {
    pub schema_version: String,
    pub schedule_kind: String,
    pub schedule_digest: String,
    pub next_due_at_ms: i64,
    pub last_due_at_ms: Option<i64>,
    pub missed_tick_count: u64,
    pub missed_tick_count_capped: bool,
    pub updated_at_ms: i64,
}

/// What an [`AgentScheduleState`] says.
#[verifier::ext_equal]
pub struct StateView {
    pub schema_version: Seq<char>,
    pub schedule_kind: Seq<char>,
    pub schedule_digest: Seq<char>,
    pub next_due_at_ms: int,
    pub last_due_at_ms: Option<i64>,
    pub missed_tick_count: int,
    pub missed_tick_count_capped: bool,
    pub updated_at_ms: int,
}

impl View for AgentScheduleState {
    type V = StateView;

    open spec fn view(&self) -> StateView {
        StateView {
            schema_version: self.schema_version@,
            schedule_kind: self.schedule_kind@,
            schedule_digest: self.schedule_digest@,
            next_due_at_ms: self.next_due_at_ms as int,
            last_due_at_ms: self.last_due_at_ms,
            missed_tick_count: self.missed_tick_count as int,
            missed_tick_count_capped: self.missed_tick_count_capped,
            updated_at_ms: self.updated_at_ms as int,
        }
    }
}

impl AgentScheduleState {
    /// A copy of this state.
    pub fn copy(&self) -> (r: AgentScheduleState)
        ensures
            r == *self,
    {
        AgentScheduleState {
            schema_version: self.schema_version.clone(),
            schedule_kind: self.schedule_kind.clone(),
            schedule_digest: self.schedule_digest.clone(),
            next_due_at_ms: self.next_due_at_ms,
            last_due_at_ms: self.last_due_at_ms,
            missed_tick_count: self.missed_tick_count,
            missed_tick_count_capped: self.missed_tick_count_capped,
            updated_at_ms: self.updated_at_ms,
        }
    }
}

/// A tick that is due: the state after it and the time for which it was scheduled.
#[derive(Debug)]
pub struct ScheduleDue {
    pub state: AgentScheduleState,
    pub scheduled_for_ms: i64,
}

/// Whether a deployment is due now.
#[derive(Debug)]
pub enum ScheduleDecision {
    NotDue { state: AgentScheduleState, persist: bool },
    Due(ScheduleDue),
}

/// What a [`ScheduleDecision`] says.
pub enum DecisionView {
    NotDue(StateView, bool),
    Due(StateView, int),
}

impl View for ScheduleDecision {
    type V = DecisionView;

    open spec fn view(&self) -> DecisionView {
        match self {
            ScheduleDecision::NotDue { state, persist } => DecisionView::NotDue(state@, *persist),
            ScheduleDecision::Due(due) => DecisionView::Due(
                due.state@,
                due.scheduled_for_ms as int,
            ),
        }
    }
}

/// The interval of a number of seconds in milliseconds, where it fits.
pub open spec fn interval_ms(seconds: int) -> Option<int> {
    if 1_000 * seconds <= i64::MAX {
        Some(1_000 * seconds)
    } else {
        None
    }
}

fn interval_millis(seconds: u64) -> (r: Option<i64>)
    ensures
        match r {
            Some(n) => interval_ms(seconds as int) == Some(n as int),
            None => interval_ms(seconds as int) is None,
        },
{
    if seconds > 9_223_372_036_854_775 {
        None
    } else {
        Some((seconds * 1_000) as i64)
    }
}

/// Whether a deployment has a schedule.
pub open spec fn schedule_is_valid(d: AgentDeployment) -> bool {
    match d.cron_utc {
        Some(expression) => cron::expression_is_valid(expression@),
        None => d.interval_seconds >= 60 && interval_ms(d.interval_seconds as int) is Some,
    }
}

/// Whether `schedule` is the schedule of a deployment. A cron expression takes
/// precedence over the interval.
pub open spec fn is_schedule_of(schedule: DeploymentSchedule, d: AgentDeployment) -> bool {
    match (d.cron_utc, schedule) {
        (Some(expression), DeploymentSchedule::CronUtc(cron)) => cron.means(expression@),
        (None, DeploymentSchedule::Interval { seconds }) => seconds == d.interval_seconds,
        _ => false,
    }
}

/// The schedule of a deployment.
pub fn deployment_schedule(deployment: &AgentDeployment) -> (r: Result<DeploymentSchedule, String>)
    ensures
        match r {
            Ok(schedule) => schedule_is_valid(*deployment) && is_schedule_of(schedule, *deployment),
            Err(e) => !schedule_is_valid(*deployment) && e@ == "agent_deployment_invalid"@,
        },
{
    match &deployment.cron_utc {
        Some(expression) => match CronUtcSchedule::parse(expression.as_str()) {
            Some(cron) => Ok(DeploymentSchedule::CronUtc(cron)),
            None => Err("agent_deployment_invalid".to_owned()),
        },
        None => {
            if deployment.interval_seconds < 60 || interval_millis(
                deployment.interval_seconds,
            ).is_none() {
                return Err("agent_deployment_invalid".to_owned());
            }
            Ok(DeploymentSchedule::Interval { seconds: deployment.interval_seconds })
        },
    }
}

/// The kind of a schedule.
pub open spec fn kind_of(schedule: DeploymentSchedule) -> Seq<char> {
    match schedule {
        DeploymentSchedule::Interval { .. } => "interval"@,
        DeploymentSchedule::CronUtc(_) => "cron_utc"@,
    }
}

/// What identifies a schedule.
pub open spec fn schedule_tree(schedule: DeploymentSchedule) -> JsonTree {
    match schedule {
        DeploymentSchedule::Interval { seconds } => JsonTree::Object(
            map![
                "kind"@ => JsonTree::Text("interval"@),
                "intervalSeconds"@ => JsonTree::Int(seconds as int)
            ],
        ),
        DeploymentSchedule::CronUtc(cron) => JsonTree::Object(
            map![
                "kind"@ => JsonTree::Text("cron_utc"@),
                "expression"@ => JsonTree::Text(cron.expression@)
            ],
        ),
    }
}

/// The digest of what identifies a schedule.
pub open spec fn digest_of(schedule: DeploymentSchedule) -> Seq<char> {
    digest::short_digest(json::json_text_of(schedule_tree(schedule)))
}

impl DeploymentSchedule {
    /// The kind of the schedule.
    pub fn kind(&self) -> (r: &'static str)
        ensures
            r@ == kind_of(*self),
    {
        match self {
            DeploymentSchedule::Interval { .. } => "interval",
            DeploymentSchedule::CronUtc(_) => "cron_utc",
        }
    }

    /// The digest of what identifies the schedule.
    pub fn digest(&self) -> (r: String)
        ensures
            r@ == digest_of(*self),
    {
        let value = match self {
            DeploymentSchedule::Interval { seconds } => JsonMap::new().with(
                "kind",
                Json::text("interval"),
            ).with("intervalSeconds", Json::Large(*seconds)),
            DeploymentSchedule::CronUtc(cron) => JsonMap::new().with(
                "kind",
                Json::text("cron_utc"),
            ).with("expression", Json::text(cron.expression.as_str())),
        };
        let encoded = json_text(&Json::object(value));
        short_hash(encoded.as_str())
    }
}

/// The state of a schedule of which no tick has been due yet.
pub open spec fn initial_state(schedule: DeploymentSchedule) -> StateView {
    StateView {
        schema_version: SCHEMA_VERSION@,
        schedule_kind: kind_of(schedule),
        schedule_digest: digest_of(schedule),
        next_due_at_ms: 0,
        last_due_at_ms: None,
        missed_tick_count: 0,
        missed_tick_count_capped: false,
        updated_at_ms: 0,
    }
}

/// The state of a schedule of which no tick has been due yet.
pub fn initial_schedule_state(schedule: &DeploymentSchedule) -> (r: AgentScheduleState)
    ensures
        r@ == initial_state(*schedule),
{
    AgentScheduleState {
        schema_version: SCHEMA_VERSION.to_owned(),
        schedule_kind: schedule.kind().to_owned(),
        schedule_digest: schedule.digest(),
        next_due_at_ms: 0,
        last_due_at_ms: None,
        missed_tick_count: 0,
        missed_tick_count_capped: false,
        updated_at_ms: 0,
    }
}

/// An optional number as a JSON value.
pub open spec fn int_or_null(n: Option<i64>) -> JsonTree {
    match n {
        Some(v) => JsonTree::Int(v as int),
        None => JsonTree::Null,
    }
}

/// The record of a schedule state.
pub open spec fn state_tree(state: StateView) -> JsonTree {
    JsonTree::Object(
        map![
            "schemaVersion"@ => JsonTree::Text(state.schema_version),
            "scheduleKind"@ => JsonTree::Text(state.schedule_kind),
            "scheduleDigest"@ => JsonTree::Text(state.schedule_digest),
            "nextDueAtMs"@ => JsonTree::Int(state.next_due_at_ms),
            "lastDueAtMs"@ => int_or_null(state.last_due_at_ms),
            "missedTickCount"@ => JsonTree::Int(state.missed_tick_count),
            "missedTickCountCapped"@ => JsonTree::Bool(state.missed_tick_count_capped),
            "updatedAtMs"@ => JsonTree::Int(state.updated_at_ms)
        ],
    )
}

/// The record of a schedule state.
pub fn schedule_state_value(state: &AgentScheduleState) -> (r: Json)
    ensures
        r@ == state_tree(state@),
{
    Json::object(
        JsonMap::new().with("schemaVersion", Json::text(state.schema_version.as_str())).with(
            "scheduleKind",
            Json::text(state.schedule_kind.as_str()),
        ).with("scheduleDigest", Json::text(state.schedule_digest.as_str())).with(
            "nextDueAtMs",
            Json::Int(state.next_due_at_ms),
        ).with(
            "lastDueAtMs",
            match state.last_due_at_ms {
                Some(v) => Json::Int(v),
                None => Json::Null,
            },
        ).with("missedTickCount", Json::Large(state.missed_tick_count)).with(
            "missedTickCountCapped",
            Json::Bool(state.missed_tick_count_capped),
        ).with("updatedAtMs", Json::Int(state.updated_at_ms)),
    )
}

/// Whether a state belongs to a schedule.
pub open spec fn state_matches(state: StateView, schedule: DeploymentSchedule) -> bool {
    state.schedule_kind == kind_of(schedule) && state.schedule_digest == digest_of(schedule)
        && state.schema_version == SCHEMA_VERSION@
}

/// Whether a state predates the explicit schedule metadata and is for an interval:
/// its next due time stays valid.
pub open spec fn state_predates(state: StateView, schedule: DeploymentSchedule) -> bool {
    state.schedule_kind.len() == 0 && schedule is Interval
}

/// The state to go on from, and whether it differs from the stored one.
pub open spec fn normalized(schedule: DeploymentSchedule, state: StateView) -> (StateView, bool) {
    if state_predates(state, schedule) {
        (
            StateView {
                schema_version: SCHEMA_VERSION@,
                schedule_kind: kind_of(schedule),
                schedule_digest: digest_of(schedule),
                ..state
            },
            true,
        )
    } else if state_matches(state, schedule) {
        (state, false)
    } else {
        (initial_state(schedule), true)
    }
}

fn schedule_state_matches(state: &AgentScheduleState, schedule: &DeploymentSchedule) -> (r: bool)
    ensures
        r == (state_matches(state@, *schedule) || state_predates(state@, *schedule)),
{
    let kind_matches: bool = same(state.schedule_kind.as_str(), schedule.kind());
    let schedule_digest = schedule.digest();
    let digest_matches: bool = same(state.schedule_digest.as_str(), schedule_digest.as_str());
    let version_matches: bool = same(state.schema_version.as_str(), SCHEMA_VERSION);
    let is_interval: bool = matches!(schedule, DeploymentSchedule::Interval { .. });
    (kind_matches && digest_matches && version_matches) || (state.schedule_kind.as_str().is_empty()
        && is_interval)
}

fn normalized_schedule_state(schedule: &DeploymentSchedule, state: AgentScheduleState) -> (r: (
    AgentScheduleState,
    bool,
))
    ensures
        (r.0@, r.1) == normalized(*schedule, state@),
{
    let is_interval: bool = matches!(schedule, DeploymentSchedule::Interval { .. });
    if state.schedule_kind.as_str().is_empty() && is_interval {
        let mut upgraded = state;
        upgraded.schema_version = SCHEMA_VERSION.to_owned();
        upgraded.schedule_kind = schedule.kind().to_owned();
        upgraded.schedule_digest = schedule.digest();
        return (upgraded, true);
    }
    if schedule_state_matches(&state, schedule) {
        return (state, false);
    }
    (initial_schedule_state(schedule), true)
}

/// Whether no tick of a state has been due yet.
pub open spec fn is_fresh(state: StateView) -> bool {
    state.last_due_at_ms is None && state.next_due_at_ms == 0
}

/// The code of an invalid state.
pub open spec fn state_invalid() -> Seq<char> {
    "agent_schedule_state_invalid"@
}

/// The tick of an interval that is due now: missed ticks are coalesced into it.
pub open spec fn interval_tick(state: StateView, interval: int, now_ms: int) -> Result<
    (StateView, int),
    Seq<char>,
> {
    let scheduled = if is_fresh(state) {
        now_ms
    } else {
        state.next_due_at_ms
    };
    let missed = if is_fresh(state) {
        0
    } else {
        cron::clamp(now_ms - scheduled) / interval
    };
    let next = scheduled + interval * (missed + 1);
    if next > i64::MAX {
        Err(state_invalid())
    } else {
        Ok(
            (
                StateView {
                    last_due_at_ms: Some(scheduled as i64),
                    next_due_at_ms: next,
                    missed_tick_count: missed,
                    missed_tick_count_capped: false,
                    updated_at_ms: now_ms,
                    ..state
                },
                scheduled,
            ),
        )
    }
}

fn add_interval(start_ms: i64, interval_ms: i64, count: u64) -> (r: Result<i64, String>)
    requires
        interval_ms > 0,
    ensures
        match r {
            Ok(n) => n == start_ms + interval_ms * count,
            Err(e) => start_ms + interval_ms * count > i64::MAX && e@ == state_invalid(),
        },
{
    proof {
        assert(0 <= interval_ms * count <= 0x7fff_ffff_ffff_ffff * 0xffff_ffff_ffff_ffff)
            by (nonlinear_arith)
            requires
                0 <= interval_ms <= 0x7fff_ffff_ffff_ffff,
                0 <= count <= 0xffff_ffff_ffff_ffff,
        ;
    }
    let product: i128 = (interval_ms as i128) * (count as i128);
    let sum: i128 = (start_ms as i128) + product;
    if sum > i64::MAX as i128 {
        Err("agent_schedule_state_invalid".to_owned())
    } else {
        Ok(sum as i64)
    }
}

/// The tick of an interval that is due now.
pub fn interval_due(state: AgentScheduleState, interval_ms: i64, now_ms: i64) -> (r: Result<
    ScheduleDue,
    String,
>)
    requires
        interval_ms > 0,
        state.next_due_at_ms <= now_ms,
    ensures
        match r {
            Ok(due) => interval_tick(state@, interval_ms as int, now_ms as int) == Ok::<
                (StateView, int),
                Seq<char>,
            >((due.state@, due.scheduled_for_ms as int)),
            Err(e) => interval_tick(state@, interval_ms as int, now_ms as int) == Err::<
                (StateView, int),
                Seq<char>,
            >(e@),
        },
{
    let mut state = state;
    if state.last_due_at_ms.is_none() && state.next_due_at_ms == 0 {
        let next: i64 = match add_interval(now_ms, interval_ms, 1) {
            Ok(n) => n,
            Err(e) => {
                return Err(e);
            },
        };
        state.last_due_at_ms = Some(now_ms);
        state.next_due_at_ms = next;
        state.missed_tick_count = 0;
        state.missed_tick_count_capped = false;
        state.updated_at_ms = now_ms;
        return Ok(ScheduleDue { state, scheduled_for_ms: now_ms });
    }
    let scheduled_for_ms: i64 = state.next_due_at_ms;
    let elapsed_ms: i64 = match now_ms.checked_sub(scheduled_for_ms) {
        Some(n) => n,
        None => i64::MAX,
    };
    let missed: u64 = (elapsed_ms as u64) / (interval_ms as u64);
    proof {
        assert(0 <= (elapsed_ms as int) / (interval_ms as int) <= elapsed_ms) by (nonlinear_arith)
            requires
                elapsed_ms >= 0,
                interval_ms > 0,
        ;
    }
    let next: i64 = match add_interval(scheduled_for_ms, interval_ms, missed + 1) {
        Ok(n) => n,
        Err(e) => {
            return Err(e);
        },
    };
    state.last_due_at_ms = Some(scheduled_for_ms);
    state.next_due_at_ms = next;
    state.missed_tick_count = missed;
    state.missed_tick_count_capped = false;
    state.updated_at_ms = now_ms;
    Ok(ScheduleDue { state, scheduled_for_ms })
}

/// The tick of a cron expression that is due now.
pub open spec fn cron_tick(cron: CronUtcSchedule, state: StateView, now_ms: int) -> Result<
    (StateView, int),
    Seq<char>,
> {
    let scheduled: Result<int, CronFault> = if is_fresh(state) {
        cron::due_from(cron, now_ms)
    } else {
        Ok(state.next_due_at_ms)
    };
    match scheduled {
        Err(fault) => Err(fault.code()),
        Ok(scheduled) => if scheduled > now_ms {
            Err(state_invalid())
        } else {
            match cron::next_due(cron, now_ms) {
                Err(fault) => Err(fault.code()),
                Ok(next) => match cron::missed(cron, scheduled, now_ms) {
                    Err(fault) => Err(fault.code()),
                    Ok((count, capped)) => Ok(
                        (
                            StateView {
                                last_due_at_ms: Some(scheduled as i64),
                                next_due_at_ms: next,
                                missed_tick_count: count,
                                missed_tick_count_capped: capped,
                                updated_at_ms: now_ms,
                                ..state
                            },
                            scheduled,
                        ),
                    ),
                },
            }
        },
    }
}

fn cron_error<T>(fault: CronFault) -> (r: Result<T, String>)
    ensures
        r matches Err(e) && e@ == fault.code(),
{
    Err(fault.as_str().to_owned())
}

/// The tick of a cron expression that is due now.
pub fn cron_due(cron: &CronUtcSchedule, state: AgentScheduleState, now_ms: i64) -> (r: Result<
    ScheduleDue,
    String,
>)
    ensures
        match r {
            Ok(due) => cron_tick(*cron, state@, now_ms as int) == Ok::<(StateView, int), Seq<char>>(
                (due.state@, due.scheduled_for_ms as int),
            ),
            Err(e) => cron_tick(*cron, state@, now_ms as int) == Err::<(StateView, int), Seq<char>>(
                e@,
            ),
        },
{
    let mut state = state;
    let scheduled_for_ms: i64 = if state.last_due_at_ms.is_none() && state.next_due_at_ms == 0 {
        match cron_due_at_or_after(cron, now_ms) {
            Ok(n) => n,
            Err(fault) => {
                return cron_error(fault);
            },
        }
    } else {
        state.next_due_at_ms
    };
    if scheduled_for_ms > now_ms {
        return Err("agent_schedule_state_invalid".to_owned());
    }
    let next: i64 = match next_cron_due_after(cron, now_ms) {
        Ok(n) => n,
        Err(fault) => {
            return cron_error(fault);
        },
    };
    let (count, capped): (u64, bool) = match cron_missed_tick_count(cron, scheduled_for_ms, now_ms) {
        Ok(counted) => counted,
        Err(fault) => {
            return cron_error(fault);
        },
    };
    state.last_due_at_ms = Some(scheduled_for_ms);
    state.next_due_at_ms = next;
    state.missed_tick_count = count;
    state.missed_tick_count_capped = capped;
    state.updated_at_ms = now_ms;
    Ok(ScheduleDue { state, scheduled_for_ms })
}

/// Turns the outcome of a tick into a decision.
pub open spec fn due_decision(tick: Result<(StateView, int), Seq<char>>) -> Result<
    DecisionView,
    Seq<char>,
> {
    match tick {
        Ok((state, scheduled)) => Ok(DecisionView::Due(state, scheduled)),
        Err(code) => Err(code),
    }
}

/// Whether a cron expression is due.
pub open spec fn decide_cron(
    cron: CronUtcSchedule,
    state: StateView,
    now_ms: int,
    was_normalized: bool,
) -> Result<DecisionView, Seq<char>> {
    if is_fresh(state) {
        match cron::due_from(cron, now_ms) {
            Err(fault) => Err(fault.code()),
            Ok(first) => if first > now_ms {
                Ok(
                    DecisionView::NotDue(
                        StateView { next_due_at_ms: first, updated_at_ms: now_ms, ..state },
                        true,
                    ),
                )
            } else {
                due_decision(cron_tick(cron, state, now_ms))
            },
        }
    } else if state.next_due_at_ms > now_ms {
        Ok(DecisionView::NotDue(state, was_normalized))
    } else {
        due_decision(cron_tick(cron, state, now_ms))
    }
}

/// Whether a schedule is due, given what is stored of it.
pub open spec fn decide(
    schedule: DeploymentSchedule,
    stored: Option<StateView>,
    now_ms: int,
) -> Result<DecisionView, Seq<char>> {
    let (state, was_normalized) = match stored {
        Some(state) => normalized(schedule, state),
        None => normalized(schedule, initial_state(schedule)),
    };
    match schedule {
        DeploymentSchedule::Interval { seconds } => match interval_ms(seconds as int) {
            None => Err(state_invalid()),
            Some(interval) => if state.next_due_at_ms > now_ms {
                Ok(DecisionView::NotDue(state, was_normalized))
            } else {
                due_decision(interval_tick(state, interval, now_ms))
            },
        },
        DeploymentSchedule::CronUtc(cron) => decide_cron(cron, state, now_ms, was_normalized),
    }
}

/// What an optional stored state says.
pub open spec fn stored_view(stored: Option<AgentScheduleState>) -> Option<StateView> {
    match stored {
        Some(state) => Some(state@),
        None => None,
    }
}

fn cron_schedule_decision(
    cron: &CronUtcSchedule,
    state: AgentScheduleState,
    now_ms: i64,
    was_normalized: bool,
) -> (r: Result<ScheduleDecision, String>)
    ensures
        match r {
            Ok(decision) => decide_cron(*cron, state@, now_ms as int, was_normalized) == Ok::<
                DecisionView,
                Seq<char>,
            >(decision@),
            Err(e) => decide_cron(*cron, state@, now_ms as int, was_normalized) == Err::<
                DecisionView,
                Seq<char>,
            >(e@),
        },
{
    let mut state = state;
    if state.last_due_at_ms.is_none() && state.next_due_at_ms == 0 {
        let first: i64 = match cron_due_at_or_after(cron, now_ms) {
            Ok(n) => n,
            Err(fault) => {
                return cron_error(fault);
            },
        };
        if first > now_ms {
            state.next_due_at_ms = first;
            state.updated_at_ms = now_ms;
            return Ok(ScheduleDecision::NotDue { state, persist: true });
        }
    } else if state.next_due_at_ms > now_ms {
        return Ok(ScheduleDecision::NotDue { state, persist: was_normalized });
    }
    match cron_due(cron, state, now_ms) {
        Ok(due) => Ok(ScheduleDecision::Due(due)),
        Err(e) => Err(e),
    }
}

/// Decides whether a schedule is due, given what is stored of it.
pub fn schedule_decision(
    schedule: &DeploymentSchedule,
    stored: Option<AgentScheduleState>,
    now_ms: i64,
) -> (r: Result<ScheduleDecision, String>)
    requires
        schedule matches DeploymentSchedule::Interval { seconds } ==> seconds > 0,
    ensures
        match r {
            Ok(decision) => decide(*schedule, stored_view(stored), now_ms as int) == Ok::<
                DecisionView,
                Seq<char>,
            >(decision@),
            Err(e) => decide(*schedule, stored_view(stored), now_ms as int) == Err::<
                DecisionView,
                Seq<char>,
            >(e@),
        },
{
    let stored = match stored {
        Some(state) => state,
        None => initial_schedule_state(schedule),
    };
    let (state, was_normalized) = normalized_schedule_state(schedule, stored);
    match schedule {
        DeploymentSchedule::Interval { seconds } => {
            let interval: i64 = match interval_millis(*seconds) {
                Some(n) => n,
                None => {
                    return Err("agent_schedule_state_invalid".to_owned());
                },
            };
            if state.next_due_at_ms > now_ms {
                return Ok(ScheduleDecision::NotDue { state, persist: was_normalized });
            }
            match interval_due(state, interval, now_ms) {
                Ok(due) => Ok(ScheduleDecision::Due(due)),
                Err(e) => Err(e),
            }
        },
        DeploymentSchedule::CronUtc(cron) => cron_schedule_decision(
            cron,
            state,
            now_ms,
            was_normalized,
        ),
    }
}

/// A tick of an interval is for a time that has come, and the next one is in the
/// future by no more than the interval: however many ticks were missed, one run
/// makes up for all of them.
pub proof fn interval_tick_catches_up(state: StateView, interval: int, now_ms: int)
    requires
        interval > 0,
        state.next_due_at_ms <= now_ms <= i64::MAX,
        now_ms - state.next_due_at_ms <= i64::MAX,
    ensures
        interval_tick(state, interval, now_ms) matches Ok((after, scheduled)) ==> {
            &&& scheduled <= now_ms
            &&& now_ms < after.next_due_at_ms <= now_ms + interval
            &&& after.last_due_at_ms == Some(scheduled as i64)
            &&& (after.next_due_at_ms - scheduled) % interval == 0
            &&& after.missed_tick_count >= 0
        },
{
    if let Ok((after, scheduled)) = interval_tick(state, interval, now_ms) {
        let elapsed = now_ms - scheduled;
        let count = elapsed / interval;
        assert(elapsed == interval * count + elapsed % interval) by (nonlinear_arith)
            requires
                interval > 0,
                count == elapsed / interval,
        ;
        assert(0 <= elapsed % interval < interval) by (nonlinear_arith)
            requires
                interval > 0,
        ;
        assert(interval * (count + 1) == interval * count + interval) by (nonlinear_arith);
        assert(count >= 0) by (nonlinear_arith)
            requires
                interval > 0,
                elapsed >= 0,
                count == elapsed / interval,
        ;
        let steps = if is_fresh(state) {
            1
        } else {
            count + 1
        };
        assert(after.next_due_at_ms - scheduled == interval * steps);
        assert((interval * steps) % interval == 0) by (nonlinear_arith)
            requires
                interval > 0,
        ;
        if is_fresh(state) {
            assert(elapsed == 0);
            assert(count == 0) by (nonlinear_arith)
                requires
                    elapsed == 0,
                    interval > 0,
                    count == elapsed / interval,
            ;
        }
    }
}

/// A cron expression that has been due is next due at a later time.
pub proof fn cron_tick_moves_on(cron: CronUtcSchedule, state: StateView, now_ms: int)
    requires
        i64::MIN <= now_ms <= i64::MAX,
    ensures
        cron_tick(cron, state, now_ms) matches Ok((after, scheduled)) ==> scheduled <= now_ms
            < after.next_due_at_ms && after.last_due_at_ms == Some(scheduled as i64),
{
    cron::search_finds_the_earliest(
        cron,
        cron::minute_floor(now_ms) + 60_000,
        cron::MAX_CRON_LOOKAHEAD_MINUTES as nat,
    );
}

/// After a tick a schedule is not due again at the same time: the state that a due
/// decision leaves behind belongs to the schedule, lies in the future and is not due, so a
/// duplicate pass runs nothing. An interval whose stored due time lies further back than
/// the elapsed time can count is left out where one tick does not catch up with it.
pub proof fn due_only_once(
    schedule: DeploymentSchedule,
    stored: Option<StateView>,
    now_ms: int,
    after: StateView,
    scheduled: int,
)
    requires
        schedule matches DeploymentSchedule::Interval { seconds } ==> seconds > 0 && (stored matches Some(
            state,
        ) ==> now_ms - state.next_due_at_ms <= i64::MAX || now_ms < after.next_due_at_ms),
        i64::MIN <= now_ms <= i64::MAX,
        decide(schedule, stored, now_ms) == Ok::<DecisionView, Seq<char>>(
            DecisionView::Due(after, scheduled),
        ),
    ensures
        state_matches(after, schedule),
        after.last_due_at_ms is Some,
        now_ms < after.next_due_at_ms,
        decide(schedule, Some(after), now_ms) == Ok::<DecisionView, Seq<char>>(
            DecisionView::NotDue(after, false),
        ),
{
    let (state, _) = match stored {
        Some(s) => normalized(schedule, s),
        None => normalized(schedule, initial_state(schedule)),
    };
    match schedule {
        DeploymentSchedule::Interval { seconds } => {
            let interval = interval_ms(seconds as int)->Some_0;
            if now_ms - state.next_due_at_ms <= i64::MAX {
                interval_tick_catches_up(state, interval, now_ms);
            }
        },
        DeploymentSchedule::CronUtc(cron) => {
            cron_tick_moves_on(cron, state, now_ms);
        },
    }
    state_ahead_is_not_due(schedule, after, now_ms);
}

/// A state of a schedule that has been due and is next due in the future is not due, and
/// there is nothing to store.
pub proof fn state_ahead_is_not_due(schedule: DeploymentSchedule, state: StateView, now_ms: int)
    requires
        schedule matches DeploymentSchedule::Interval { seconds } ==> interval_ms(
            seconds as int,
        ) is Some,
        state_matches(state, schedule),
        state.last_due_at_ms is Some,
        now_ms < state.next_due_at_ms,
    ensures
        decide(schedule, Some(state), now_ms) == Ok::<DecisionView, Seq<char>>(
            DecisionView::NotDue(state, false),
        ),
{
    reveal_strlit("interval");
    reveal_strlit("cron_utc");
    assert("interval"@.len() == 8 && "cron_utc"@.len() == 8);
}

} // verus!
