//! What a schedule promises to whoever keeps its state: which passes run a tick, for
//! which time, and when the next one comes.

use vstd::prelude::*;

use crate::agent_runner::cron;
use crate::agent_runner::cron::CronUtcSchedule;
use crate::agent_runner::deployment::SCHEMA_VERSION;
use crate::agent_runner::schedule;
use crate::agent_runner::schedule::{DecisionView, DeploymentSchedule, StateView};

verus! {

/// Whether a state carries the version, the kind and the digest of a schedule.
pub open spec fn carries(state: StateView, s: DeploymentSchedule) -> bool {
    &&& state.schema_version == SCHEMA_VERSION@
    &&& state.schedule_digest == schedule::digest_of(s)
    &&& s is Interval ==> state.schedule_kind == "interval"@
    &&& s is CronUtc ==> state.schedule_kind == "cron_utc"@
}

/// Whether `m` is the start of a minute in which a cron expression is due.
pub open spec fn due_minute(c: CronUtcSchedule, m: int) -> bool {
    m % 60_000 == 0 && cron::calendar_of(m) is Some && c.due(cron::calendar_of(m)->Some_0)
}

/// Whether `m` is the first start of a due minute later than `now_ms`.
pub open spec fn first_due_after(c: CronUtcSchedule, now_ms: int, m: int) -> bool {
    &&& now_ms < m
    &&& due_minute(c, m)
    &&& forall|other: int| now_ms < other < m ==> !#[trigger] due_minute(c, other)
}

/// A tick whose time has come is never put off: where a state of the schedule names a due
/// time, whether or not a tick has been taken yet, and that time has come, the decision is
/// to run for exactly that time. The tick is then on record as the last one.
pub proof fn tick_that_has_come_is_taken(s: DeploymentSchedule, state: StateView, now_ms: int)
    requires
        carries(state, s),
        state.next_due_at_ms != 0 || state.last_due_at_ms is Some,
        i64::MIN <= state.next_due_at_ms <= now_ms <= i64::MAX,
    ensures
        !(schedule::decide(s, Some(state), now_ms) matches Ok(DecisionView::NotDue(_, _))),
        schedule::decide(s, Some(state), now_ms) matches Ok(DecisionView::Due(after, scheduled)) ==> {
            &&& scheduled == state.next_due_at_ms
            &&& after.last_due_at_ms == Some(state.next_due_at_ms as i64)
            &&& after.updated_at_ms == now_ms
            &&& carries(after, s)
        },
{
    reveal_strlit("interval");
    reveal_strlit("cron_utc");
    assert("interval"@.len() == 8 && "cron_utc"@.len() == 8);
}

/// A tick whose time has not come is left alone: the decision is not to run, the state
/// stays as it is, and there is nothing to store.
pub proof fn tick_that_is_ahead_waits(s: DeploymentSchedule, state: StateView, now_ms: int)
    requires
        carries(state, s),
        state.next_due_at_ms != 0 || state.last_due_at_ms is Some,
        s matches DeploymentSchedule::Interval { seconds } ==> 1_000 * seconds <= i64::MAX,
        now_ms < state.next_due_at_ms,
    ensures
        schedule::decide(s, Some(state), now_ms) == Ok::<DecisionView, Seq<char>>(
            DecisionView::NotDue(state, false),
        ),
{
    reveal_strlit("interval");
    reveal_strlit("cron_utc");
    assert("interval"@.len() == 8 && "cron_utc"@.len() == 8);
}

/// An interval of which nothing is stored is due at once, and again one interval later.
pub proof fn interval_starts_at_once(seconds: u64, now_ms: int)
    requires
        seconds > 0,
        0 <= now_ms,
        now_ms + 1_000 * seconds <= i64::MAX,
    ensures
        schedule::decide(DeploymentSchedule::Interval { seconds }, None, now_ms) matches Ok(
            DecisionView::Due(after, scheduled),
        ) && {
            &&& scheduled == now_ms
            &&& after.last_due_at_ms == Some(now_ms as i64)
            &&& after.next_due_at_ms == now_ms + 1_000 * seconds
            &&& after.missed_tick_count == 0
            &&& !after.missed_tick_count_capped
            &&& after.updated_at_ms == now_ms
            &&& carries(after, DeploymentSchedule::Interval { seconds })
        },
{
    reveal_strlit("interval");
    assert("interval"@.len() == 8);
    let interval: int = 1_000 * seconds;
    assert(interval * (0int + 1) == interval) by (nonlinear_arith);
}

/// An interval that comes to be looked at late runs once for the time it was due, counts
/// the whole intervals that have passed since as missed, and is next due on the same
/// raster, at the first point of it that is later than now.
pub proof fn late_interval_keeps_its_raster(seconds: u64, state: StateView, now_ms: int)
    requires
        carries(state, DeploymentSchedule::Interval { seconds }),
        state.next_due_at_ms != 0 || state.last_due_at_ms is Some,
        seconds > 0,
        1_000 * seconds <= i64::MAX,
        i64::MIN <= state.next_due_at_ms <= now_ms,
        now_ms + 1_000 * seconds <= i64::MAX,
        now_ms - state.next_due_at_ms <= i64::MAX,
    ensures
        schedule::decide(DeploymentSchedule::Interval { seconds }, Some(state), now_ms) matches Ok(
            DecisionView::Due(after, scheduled),
        ) && {
            &&& scheduled == state.next_due_at_ms
            &&& after.missed_tick_count >= 0
            &&& scheduled + 1_000 * seconds * after.missed_tick_count <= now_ms
            &&& now_ms < after.next_due_at_ms
            &&& after.next_due_at_ms == scheduled + 1_000 * seconds * (after.missed_tick_count + 1)
            &&& !after.missed_tick_count_capped
        },
{
    reveal_strlit("interval");
    assert("interval"@.len() == 8);
    let interval: int = 1_000 * seconds;
    let elapsed = now_ms - state.next_due_at_ms;
    let missed = elapsed / interval;
    assert(interval * missed <= elapsed < interval * (missed + 1) && missed >= 0 && interval * (missed
        + 1) == interval * missed + interval) by (nonlinear_arith)
        requires
            interval > 0,
            elapsed >= 0,
            missed == elapsed / interval,
    ;
    assert(state.next_due_at_ms + interval * (missed + 1) <= i64::MAX);
    assert(schedule::interval_tick(state, interval, now_ms) matches Ok((after, scheduled))
        && after.missed_tick_count == missed && after.next_due_at_ms == scheduled + interval * (missed
        + 1));
}

/// A cron expression of which nothing is stored runs at once only where this very minute
/// begins now and is due. Otherwise it waits for the first due minute, and the state to
/// store names that minute.
pub proof fn cron_starts_with_its_first_minute(c: CronUtcSchedule, now_ms: int)
    requires
        i64::MIN + 60_000 <= now_ms <= i64::MAX - 60_000,
    ensures
        match schedule::decide(DeploymentSchedule::CronUtc(c), None, now_ms) {
            Ok(DecisionView::Due(after, scheduled)) => {
                &&& scheduled == now_ms
                &&& due_minute(c, now_ms)
                &&& after.last_due_at_ms == Some(now_ms as i64)
                &&& first_due_after(c, now_ms, after.next_due_at_ms)
                &&& after.updated_at_ms == now_ms
                &&& carries(after, DeploymentSchedule::CronUtc(c))
            },
            Ok(DecisionView::NotDue(after, persist)) => {
                &&& persist
                &&& !due_minute(c, now_ms)
                &&& after.last_due_at_ms is None
                &&& first_due_after(c, now_ms, after.next_due_at_ms)
                &&& after.updated_at_ms == now_ms
                &&& carries(after, DeploymentSchedule::CronUtc(c))
            },
            Err(_) => true,
        },
{
    reveal_strlit("cron_utc");
    assert("cron_utc"@.len() == 8);
    let candidate = cron::minute_ceiling(now_ms);
    first_after(c, now_ms);
    assert(now_ms <= candidate < now_ms + 60_000 && candidate % 60_000 == 0);
    first_after(c, candidate);
    if now_ms % 60_000 == 0 {
        assert(cron::minute_floor(now_ms) == now_ms);
        assert(candidate == now_ms);
    } else {
        assert(now_ms / 60_000 * 60_000 < now_ms);
        assert(now_ms < now_ms / 60_000 * 60_000 + 60_000);
        assert(cron::minute_floor(now_ms) < now_ms);
    }
    match schedule::decide(DeploymentSchedule::CronUtc(c), None, now_ms) {
        Ok(DecisionView::NotDue(after, _)) => {
            let first = after.next_due_at_ms;
            assert forall|other: int| now_ms < other < first implies !#[trigger] due_minute(
                c,
                other,
            ) by {
                if other % 60_000 == 0 {
                    assert(candidate <= other);
                    if candidate < other {
                        assert(!due_minute(c, other));
                    }
                }
            }
        },
        _ => {},
    }
}

/// What [`cron::next_due`] finds is the first due minute after a point in time.
proof fn first_after(c: CronUtcSchedule, now_ms: int)
    requires
        i64::MIN + 60_000 <= now_ms <= i64::MAX,
    ensures
        cron::next_due(c, now_ms) matches Ok(m) ==> first_due_after(c, now_ms, m),
{
    cron::next_due_is_the_earliest(c, now_ms);
    if let Ok(m) = cron::next_due(c, now_ms) {
        assert forall|other: int| now_ms < other < m implies !#[trigger] due_minute(c, other) by {
            if other % 60_000 == 0 {
                assert(cron::calendar_of(other) matches Some(at) && !c.due(at));
            }
        }
    }
}

/// After a tick of a cron expression the next one is for the first due minute later than
/// now.
pub proof fn cron_goes_on_with_the_next_minute(c: CronUtcSchedule, state: StateView, now_ms: int)
    requires
        carries(state, DeploymentSchedule::CronUtc(c)),
        i64::MIN + 60_000 <= now_ms <= i64::MAX,
    ensures
        schedule::decide(DeploymentSchedule::CronUtc(c), Some(state), now_ms) matches Ok(
            DecisionView::Due(after, _),
        ) ==> first_due_after(c, now_ms, after.next_due_at_ms),
{
    reveal_strlit("cron_utc");
    assert("cron_utc"@.len() == 8);
    first_after(c, now_ms);
}

/// The due minutes that a count has seen, one after another.
proof fn counted(
    c: CronUtcSchedule,
    candidate: int,
    now_ms: int,
    count: int,
    budget: nat,
) -> (ticks: Seq<int>)
    requires
        candidate % 60_000 == 0,
        0 <= count < 1_024,
    ensures
        cron::count_missed(c, candidate, now_ms, count, budget) matches Ok((total, capped)) ==> {
            &&& total == count + ticks.len()
            &&& lists_due_minutes(c, ticks)
            &&& forall|i: int| 0 <= i < ticks.len() ==> candidate <= #[trigger] ticks[i] <= now_ms
            &&& !capped ==> forall|m: int|
                candidate <= m <= now_ms && #[trigger] due_minute(c, m) ==> ticks.contains(m)
            &&& capped ==> total == 1_024 || budget == 0 || candidate + 60_000 * (budget - 1)
                <= now_ms
        },
    decreases budget,
{
    if budget == 0 || candidate > now_ms || cron::calendar_of(candidate) is None {
        Seq::empty()
    } else {
        let at = cron::calendar_of(candidate)->Some_0;
        let head: Seq<int> = if c.due(at) {
            seq![candidate]
        } else {
            Seq::empty()
        };
        let grown = count + head.len();
        if grown >= 1_024 || candidate + 60_000 > i64::MAX {
            head
        } else {
            let rest = counted(c, candidate + 60_000, now_ms, grown, (budget - 1) as nat);
            let ticks = head + rest;
            if let Ok((total, capped)) = cron::count_missed(c, candidate, now_ms, count, budget) {
                assert forall|i: int, j: int| 0 <= i < j < ticks.len() implies ticks[i]
                    < ticks[j] by {
                    if i >= head.len() {
                        assert(ticks[i] == rest[i - head.len()]);
                    }
                    assert(ticks[j] == rest[j - head.len()]);
                }
                assert forall|i: int| 0 <= i < ticks.len() implies candidate <= #[trigger] ticks[i]
                    <= now_ms && due_minute(c, ticks[i]) by {
                    if i >= head.len() {
                        assert(ticks[i] == rest[i - head.len()]);
                    }
                }
                if !capped {
                    assert forall|m: int|
                        candidate <= m <= now_ms && #[trigger] due_minute(c, m) implies ticks.contains(
                        m,
                    ) by {
                        if m == candidate {
                            assert(ticks[0] == candidate);
                        } else {
                            assert(candidate + 60_000 <= m);
                            let k = choose|k: int| 0 <= k < rest.len() && rest[k] == m;
                            assert(ticks[k + head.len()] == m);
                        }
                    }
                }
            }
            ticks
        }
    }
}

/// Whether `ticks` are due minutes in ascending order.
pub open spec fn lists_due_minutes(c: CronUtcSchedule, ticks: Seq<int>) -> bool {
    &&& forall|i: int, j: int| 0 <= i < j < ticks.len() ==> ticks[i] < ticks[j]
    &&& forall|i: int| 0 <= i < ticks.len() ==> #[trigger] due_minute(c, ticks[i])
}

/// The number of ticks that a late run of a cron expression makes up for is the number of
/// due minutes after the one it runs for and up to now. Only where the count reaches 1,024
/// or looks back over more than seven days may it stop early, and says so.
pub proof fn cron_counts_the_missed_minutes(c: CronUtcSchedule, state: StateView, now_ms: int) -> (ticks:
    Seq<int>)
    requires
        carries(state, DeploymentSchedule::CronUtc(c)),
        state.next_due_at_ms != 0 || state.last_due_at_ms is Some,
        state.next_due_at_ms % 60_000 == 0,
        state.next_due_at_ms <= now_ms,
    ensures
        schedule::decide(DeploymentSchedule::CronUtc(c), Some(state), now_ms) matches Ok(
            DecisionView::Due(after, scheduled),
        ) ==> {
            &&& after.missed_tick_count == ticks.len()
            &&& lists_due_minutes(c, ticks)
            &&& forall|i: int| 0 <= i < ticks.len() ==> scheduled < #[trigger] ticks[i] <= now_ms
            &&& !after.missed_tick_count_capped ==> forall|m: int|
                scheduled < m <= now_ms && #[trigger] due_minute(c, m) ==> ticks.contains(m)
            &&& after.missed_tick_count_capped ==> ticks.len() == 1_024 || now_ms - scheduled
                >= 60_000 * 10_080
        },
{
    reveal_strlit("cron_utc");
    assert("cron_utc"@.len() == 8);
    let first = state.next_due_at_ms + 60_000;
    let ticks = counted(c, first, now_ms, 0, 10_080);
    if let Ok(DecisionView::Due(after, scheduled)) = schedule::decide(
        DeploymentSchedule::CronUtc(c),
        Some(state),
        now_ms,
    ) {
        assert(cron::count_missed(c, first, now_ms, 0, 10_080) == Ok::<
            (int, bool),
            cron::CronFault,
        >((after.missed_tick_count, after.missed_tick_count_capped)));
        if !after.missed_tick_count_capped {
            assert forall|m: int|
                scheduled < m <= now_ms && #[trigger] due_minute(c, m) implies ticks.contains(m) by {
                assert(first <= m);
            }
        }
    }
    ticks
}

proof fn search_reaches(c: CronUtcSchedule, candidate: int, budget: nat, m: int)
    requires
        candidate <= m < candidate + 60_000 * budget,
        m <= i64::MAX,
        (m - candidate) % 60_000 == 0,
        cron::calendar_of(m) is Some && c.due(cron::calendar_of(m)->Some_0),
        forall|k: int| candidate <= k <= m ==> #[trigger] cron::calendar_of(k) is Some,
    ensures
        cron::search(c, candidate, budget) is Ok,
    decreases budget,
{
    assert(cron::calendar_of(candidate) is Some);
    if !c.due(cron::calendar_of(candidate)->Some_0) {
        assert(candidate + 60_000 <= m);
        search_reaches(c, candidate + 60_000, (budget - 1) as nat, m);
    }
}

proof fn count_goes_through(
    c: CronUtcSchedule,
    candidate: int,
    now_ms: int,
    count: int,
    budget: nat,
)
    requires
        now_ms + 60_000 <= i64::MAX,
        forall|k: int| candidate <= k <= now_ms ==> #[trigger] cron::calendar_of(k) is Some,
    ensures
        cron::count_missed(c, candidate, now_ms, count, budget) is Ok,
    decreases budget,
{
    if budget > 0 && candidate <= now_ms {
        assert(cron::calendar_of(candidate) is Some);
        let grown = if c.due(cron::calendar_of(candidate)->Some_0) {
            count + 1
        } else {
            count
        };
        count_goes_through(c, candidate + 60_000, now_ms, grown, (budget - 1) as nat);
    }
}

/// A cron expression that comes due again within 366 days is answered with a tick once
/// its time has come, as far as the calendar reaches.
pub proof fn cron_with_a_next_minute_is_answered(
    c: CronUtcSchedule,
    state: StateView,
    now_ms: int,
    again: int,
)
    requires
        carries(state, DeploymentSchedule::CronUtc(c)),
        state.next_due_at_ms != 0 || state.last_due_at_ms is Some,
        i64::MIN + 60_000 <= state.next_due_at_ms <= now_ms,
        now_ms < again <= now_ms + 60_000 * 527_040,
        now_ms + 60_000 <= i64::MAX,
        again <= i64::MAX,
        due_minute(c, again),
        forall|k: int|
            state.next_due_at_ms <= k <= again ==> #[trigger] cron::calendar_of(k) is Some,
    ensures
        schedule::decide(DeploymentSchedule::CronUtc(c), Some(state), now_ms) matches Ok(
            DecisionView::Due(_, _),
        ),
{
    reveal_strlit("cron_utc");
    assert("cron_utc"@.len() == 8);
    let first = cron::minute_floor(now_ms) + 60_000;
    assert(first <= again);
    assert(now_ms < first <= now_ms + 60_000);
    assert((again - first) % 60_000 == 0);
    search_reaches(c, first, 527_040, again);
    count_goes_through(c, state.next_due_at_ms + 60_000, now_ms, 0, 10_080);
}

/// A state of another schedule is not gone on from: a changed schedule is decided as if
/// nothing were stored of it.
pub proof fn state_of_another_schedule_is_discarded(
    s: DeploymentSchedule,
    state: StateView,
    now_ms: int,
)
    requires
        !carries(state, s),
        s is Interval ==> state.schedule_kind.len() != 0,
    ensures
        match (schedule::decide(s, Some(state), now_ms), schedule::decide(s, None, now_ms)) {
            (Ok(DecisionView::NotDue(a, persist)), Ok(DecisionView::NotDue(b, _))) => persist && a
                == b,
            (a, b) => a == b,
        },
{
}

/// A state from before schedules had a kind goes on as the state of an interval: its due
/// time counts.
pub proof fn state_without_a_kind_keeps_its_due_time(seconds: u64, state: StateView, now_ms: int)
    requires
        state.schedule_kind.len() == 0,
        state.next_due_at_ms != 0 || state.last_due_at_ms is Some,
        1_000 * seconds <= i64::MAX,
    ensures
        match schedule::decide(DeploymentSchedule::Interval { seconds }, Some(state), now_ms) {
            Ok(DecisionView::NotDue(after, persist)) => {
                &&& now_ms < state.next_due_at_ms
                &&& persist
                &&& carries(after, DeploymentSchedule::Interval { seconds })
                &&& after.next_due_at_ms == state.next_due_at_ms
                &&& after.last_due_at_ms == state.last_due_at_ms
                &&& after.missed_tick_count == state.missed_tick_count
                &&& after.updated_at_ms == state.updated_at_ms
            },
            Ok(DecisionView::Due(after, scheduled)) => {
                &&& state.next_due_at_ms <= now_ms
                &&& scheduled == state.next_due_at_ms
                &&& carries(after, DeploymentSchedule::Interval { seconds })
            },
            Err(_) => state.next_due_at_ms <= now_ms,
        },
{
}

} // verus!
