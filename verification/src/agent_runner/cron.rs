//! Five-field cron expressions with minute resolution, read in UTC.

pub mod fields;

use chrono::{Datelike, TimeZone, Timelike};
use vstd::prelude::*;

use crate::text;
use crate::text::{join, parse_numeral, same, split, split_words};

verus! {

pub const MILLIS_PER_MINUTE: i64 = 60_000;

/// An expression has at most this many bytes.
pub const MAX_CRON_EXPRESSION_BYTES: usize = 160;

/// A field has at most this many terms.
pub const MAX_CRON_FIELD_TERMS: usize = 32;

/// A search for the next due minute looks at most this far: 366 days.
pub const MAX_CRON_LOOKAHEAD_MINUTES: u64 = 527_040;

/// A count of missed ticks stops here.
pub const MAX_COALESCED_TICKS: u64 = 1_024;

/// A count of missed ticks looks at most this far: 7 days.
pub const MAX_CRON_MISSED_SCAN_MINUTES: u64 = 10_080;

/// One field of a cron expression: which values it allows, from `minimum` on.
#[derive(Debug)]
pub struct CronField {
    pub minimum: u8,
    pub allowed: Vec<bool>,
}

/// A cron expression.
#[derive(Debug)]
pub struct CronUtcSchedule {
    pub expression: String,
    pub minute: CronField,
    pub hour: CronField,
    pub day_of_month: CronField,
    pub month: CronField,
    pub day_of_week: CronField,
}

/// The minute, hour, day, month and weekday (Sunday is 0) of a point in time in UTC.
pub type CalendarMinute = (u32, u32, u32, u32, u32);

/// The calendar minute of a number of milliseconds since 1970 in UTC, where the
/// calendar reaches that far.
pub uninterp spec fn calendar_of(timestamp_ms: int) -> Option<CalendarMinute>;

/// Calls `Utc.timestamp_millis_opt` of `chrono` and reads the minute, hour, day,
/// month and weekday off the result. These depend on the timestamp alone; the first
/// two and the weekday follow from it by division, and every timestamp from 1970 to
/// the end of the year 9999 has them.
#[verifier::external_body]
fn utc_calendar(timestamp_ms: i64) -> (r: Option<CalendarMinute>)
    ensures
        r == calendar_of(timestamp_ms as int),
        r matches Some(c) ==> c.0 == (timestamp_ms as int / 60_000) % 60 && c.1 == (timestamp_ms as int
            / 3_600_000) % 24 && 1 <= c.2 <= 31 && 1 <= c.3 <= 12 && c.4 == (timestamp_ms as int
            / 86_400_000 + 4) % 7,
        0 <= timestamp_ms <= 253_402_300_799_999 ==> r is Some,
{
    chrono::Utc.timestamp_millis_opt(timestamp_ms).single().map(
        |t| (t.minute(), t.hour(), t.day(), t.month(), t.weekday().num_days_from_sunday()),
    )
}

/// The number that `s` names as a bound between `minimum` and `maximum`.
pub open spec fn bound(s: Seq<char>, minimum: int, maximum: int) -> Option<int> {
    if text::is_numeral(s) && minimum <= text::number_of(s) <= maximum {
        Some(text::number_of(s) as int)
    } else {
        None
    }
}

/// The first and last value that the base of a term names.
pub open spec fn base_range(
    base: Seq<char>,
    minimum: int,
    maximum: int,
    stepped: bool,
) -> Option<(int, int)> {
    let parts = text::split_on(base, '-');
    if base == "*"@ {
        Some((minimum, maximum))
    } else if parts.len() == 2 {
        match (bound(parts[0], minimum, maximum), bound(parts[1], minimum, maximum)) {
            (Some(start), Some(end)) => if start <= end {
                Some((start, end))
            } else {
                None
            },
            _ => None,
        }
    } else if parts.len() == 1 {
        match bound(base, minimum, maximum) {
            Some(start) => Some(
                (
                    start,
                    if stepped {
                        maximum
                    } else {
                        start
                    },
                ),
            ),
            None => None,
        }
    } else {
        None
    }
}

/// The first and last value and the step that a term names.
pub open spec fn term_range(term: Seq<char>, minimum: int, maximum: int) -> Option<(int, int, int)> {
    let parts = text::split_on(term, '/');
    if parts.len() == 1 {
        match base_range(parts[0], minimum, maximum, false) {
            Some((start, end)) => Some((start, end, 1)),
            None => None,
        }
    } else if parts.len() == 2 && text::is_numeral(parts[1]) && 0 < text::number_of(parts[1])
        <= usize::MAX {
        match base_range(parts[0], minimum, maximum, true) {
            Some((start, end)) => Some((start, end, text::number_of(parts[1]) as int)),
            None => None,
        }
    } else {
        None
    }
}

/// The value that stands for `v`: with the alias, 7 is Sunday like 0.
pub open spec fn canonical(v: int, sunday_alias: bool) -> int {
    if sunday_alias && v == 7 {
        0
    } else {
        v
    }
}

/// Whether a term lists `v`.
pub open spec fn term_lists(
    term: Seq<char>,
    minimum: int,
    maximum: int,
    sunday_alias: bool,
    v: int,
) -> bool {
    term_range(term, minimum, maximum) matches Some((start, end, step)) && exists|c: int|
        start <= c <= end && (c - start) % step == 0 && #[trigger] canonical(c, sunday_alias) == v
}

/// Whether `value` is a well-formed field.
pub open spec fn field_is_valid(value: Seq<char>, minimum: int, maximum: int) -> bool {
    let terms = text::split_on(value, ',');
    terms.len() <= MAX_CRON_FIELD_TERMS && forall|i: int|
        0 <= i < terms.len() ==> term_range(#[trigger] terms[i], minimum, maximum) is Some
}

/// Whether a field lists `v`.
pub open spec fn field_lists(
    value: Seq<char>,
    minimum: int,
    maximum: int,
    sunday_alias: bool,
    v: int,
) -> bool {
    let terms = text::split_on(value, ',');
    exists|i: int|
        0 <= i < terms.len() && term_lists(#[trigger] terms[i], minimum, maximum, sunday_alias, v)
}

fn parse_cron_bound(value: &str, minimum: u8, maximum: u8) -> (r: Option<u8>)
    ensures
        match r {
            Some(n) => bound(value@, minimum as int, maximum as int) == Some(n as int),
            None => bound(value@, minimum as int, maximum as int) is None,
        },
{
    match parse_numeral(value, maximum as u64) {
        Some(n) => if n < minimum as u64 {
            None
        } else {
            Some(n as u8)
        },
        None => None,
    }
}

/// The values and the step of a term.
fn parse_term(term: &str, minimum: u8, maximum: u8) -> (r: Option<(u8, u8, usize)>)
    ensures
        match r {
            Some((start, end, step)) => term_range(term@, minimum as int, maximum as int) == Some(
                (start as int, end as int, step as int),
            ) && step > 0,
            None => term_range(term@, minimum as int, maximum as int) is None,
        },
{
    let parts = split(term, '/');
    let ghost shown = text::split_on(term@, '/');
    proof {
        assert(shown.len() == parts.len());
        assert(shown[0] == parts@[0]@);
    }
    if parts.len() > 2 {
        return None;
    }
    let stepped: bool = parts.len() == 2;
    let step: usize = if stepped {
        proof {
            assert(shown[1] == parts@[1]@);
        }
        match parse_numeral(parts[1].as_str(), usize::MAX as u64) {
            Some(n) => {
                if n == 0 {
                    return None;
                }
                n as usize
            },
            None => {
                return None;
            },
        }
    } else {
        1
    };
    let base: &str = parts[0].as_str();
    if same(base, "*") {
        return Some((minimum, maximum, step));
    }
    let ends = split(base, '-');
    let ghost shown_ends = text::split_on(base@, '-');
    proof {
        assert(shown_ends.len() == ends.len());
    }
    if ends.len() == 2 {
        proof {
            assert(shown_ends[0] == ends@[0]@);
            assert(shown_ends[1] == ends@[1]@);
        }
        match (
            parse_cron_bound(ends[0].as_str(), minimum, maximum),
            parse_cron_bound(ends[1].as_str(), minimum, maximum),
        ) {
            (Some(start), Some(end)) => if start <= end {
                Some((start, end, step))
            } else {
                None
            },
            _ => None,
        }
    } else if ends.len() == 1 {
        match parse_cron_bound(base, minimum, maximum) {
            Some(start) => Some(
                (
                    start,
                    if stepped {
                        maximum
                    } else {
                        start
                    },
                    step,
                ),
            ),
            None => None,
        }
    } else {
        None
    }
}

impl CronField {
    /// Whether the field allows `v`.
    pub open spec fn allows(self, v: int) -> bool {
        let at = if v < self.minimum {
            0
        } else {
            v - self.minimum
        };
        at < self.allowed@.len() && self.allowed@[at]
    }

    /// Allows `value`.
    fn mark(&mut self, value: u8, sunday_alias: bool)
        requires
            old(self).minimum <= canonical(value as int, sunday_alias) < old(self).minimum + old(
                self,
            ).allowed@.len(),
        ensures
            final(self).minimum == old(self).minimum,
            final(self).allowed@.len() == old(self).allowed@.len(),
            forall|v: int|
                final(self).minimum <= v < final(self).minimum + final(self).allowed@.len() ==> (
                #[trigger] final(self).allows(v) <==> old(self).allows(v) || v == canonical(
                    value as int,
                    sunday_alias,
                )),
    {
        let place: u8 = if sunday_alias && value == 7 {
            0
        } else {
            value
        };
        let index: usize = (place - self.minimum) as usize;
        self.allowed.set(index, true);
    }

    /// Allows every value that a term lists.
    fn add_term(&mut self, term: &str, minimum: u8, maximum: u8, sunday_alias: bool) -> (r: bool)
        requires
            minimum <= maximum < 250,
            old(self).minimum == minimum,
            sunday_alias ==> minimum == 0 && maximum == 7,
            old(self).allowed@.len() == maximum - minimum + 1 - (if sunday_alias {
                1int
            } else {
                0int
            }),
        ensures
            r == (term_range(term@, minimum as int, maximum as int) is Some),
            final(self).minimum == old(self).minimum,
            final(self).allowed@.len() == old(self).allowed@.len(),
            r ==> forall|v: int|
                minimum <= v < minimum + final(self).allowed@.len() ==> (#[trigger] final(self).allows(v)
                    <==> old(self).allows(v) || term_lists(
                    term@,
                    minimum as int,
                    maximum as int,
                    sunday_alias,
                    v,
                )),
    {
        let (start, end, step): (u8, u8, usize) = match parse_term(term, minimum, maximum) {
            Some(range) => range,
            None => {
                return false;
            },
        };
        let ghost before_term = *self;
        let ghost lo = minimum as int;
        let ghost n = self.allowed@.len();
        proof {
            range_bounds(term@, minimum as int, maximum as int);
        }
        let mut candidate: u64 = start as u64;
        proof {
            assert((start - start) % (step as int) == 0) by (nonlinear_arith)
                requires
                    step > 0,
            ;
        }
        while candidate <= end as u64
            invariant
                minimum <= start <= end <= maximum < 250,
                step > 0,
                term_range(term@, minimum as int, maximum as int) == Some(
                    (start as int, end as int, step as int),
                ),
                before_term == *old(self),
                sunday_alias ==> minimum == 0 && maximum == 7,
                self.minimum == minimum,
                lo == minimum,
                before_term.minimum == minimum,
                n == before_term.allowed@.len(),
                self.allowed@.len() == n,
                n == maximum - minimum + 1 - (if sunday_alias {
                    1int
                } else {
                    0int
                }),
                start <= candidate,
                (candidate - start) % (step as int) == 0,
                forall|v: int|
                    lo <= v < lo + n ==> (#[trigger] self.allows(v) <==> before_term.allows(v) || exists|
                        c: int,
                    |
                        start <= c <= end && c < candidate && (c - start) % (step as int) == 0
                            && #[trigger] canonical(c, sunday_alias) == v),
            decreases 1000 - candidate,
        {
            let ghost before_mark = *self;
            self.mark(candidate as u8, sunday_alias);
            let ghost here = candidate as int;
            proof {
                assert forall|v: int| lo <= v < lo + n implies (#[trigger] self.allows(v)
                    <==> before_term.allows(v) || exists|c: int|
                    start <= c <= end && c < here + step && (c - start) % (step as int) == 0
                        && #[trigger] canonical(c, sunday_alias) == v) by {
                    assert(before_mark.allows(v) <==> before_term.allows(v) || exists|c: int|
                        start <= c <= end && c < here && (c - start) % (step as int) == 0
                            && #[trigger] canonical(c, sunday_alias) == v);
                    if v == canonical(here, sunday_alias) {
                        assert(start <= here <= end && here < here + step && (here - start) % (
                        step as int) == 0);
                    }
                    if exists|c: int|
                        start <= c <= end && c < here + step && (c - start) % (step as int) == 0
                            && #[trigger] canonical(c, sunday_alias) == v {
                        let c = choose|c: int|
                            start <= c <= end && c < here + step && (c - start) % (step as int) == 0
                                && #[trigger] canonical(c, sunday_alias) == v;
                        if c > here {
                            no_step_between(c - start, here - start, step as int);
                        }
                    }
                }
                assert((here + step - start) % (step as int) == 0) by (nonlinear_arith)
                    requires
                        (here - start) % (step as int) == 0,
                        step > 0,
                ;
            }
            if step > 255 {
                proof {
                    assert forall|v: int| lo <= v < lo + n implies (#[trigger] self.allows(v)
                        <==> before_term.allows(v) || term_lists(
                        term@,
                        minimum as int,
                        maximum as int,
                        sunday_alias,
                        v,
                    )) by {
                        listed_below(term@, minimum as int, maximum as int, sunday_alias, v, here + step);
                    }
                }
                return true;
            }
            candidate = candidate + step as u64;
        }
        proof {
            assert forall|v: int| lo <= v < lo + n implies (#[trigger] self.allows(v)
                <==> before_term.allows(v) || term_lists(
                term@,
                minimum as int,
                maximum as int,
                sunday_alias,
                v,
            )) by {
                listed_below(term@, minimum as int, maximum as int, sunday_alias, v, candidate as int);
            }
        }
        true
    }
}

/// A term names values within its bounds.
proof fn range_bounds(term: Seq<char>, minimum: int, maximum: int)
    requires
        minimum <= maximum,
    ensures
        term_range(term, minimum, maximum) matches Some((start, end, step)) ==> minimum <= start <= end
            <= maximum,
{
}

/// Between a multiple of `step` and the next one there is none.
proof fn no_step_between(a: int, b: int, step: int)
    by (nonlinear_arith)
    requires
        step > 0,
        a % step == 0,
        b % step == 0,
        b < a,
    ensures
        a >= b + step,
{
    let x = a / step;
    let y = b / step;
    assert(a == step * x);
    assert(b == step * y);
    assert(x > y);
    assert(x >= y + 1);
}

/// Where `limit` is past the end of a term, the term lists what its values below `limit` are.
proof fn listed_below(
    term: Seq<char>,
    minimum: int,
    maximum: int,
    sunday_alias: bool,
    v: int,
    limit: int,
)
    requires
        term_range(term, minimum, maximum) matches Some((start, end, step)) && limit > end,
    ensures
        term_range(term, minimum, maximum) matches Some((start, end, step)) && (term_lists(
            term,
            minimum,
            maximum,
            sunday_alias,
            v,
        ) <==> exists|c: int|
            start <= c <= end && c < limit && (c - start) % step == 0 && #[trigger] canonical(
                c,
                sunday_alias,
            ) == v),
{
}

/// How many values a field can allow.
pub open spec fn field_size(minimum: int, maximum: int, sunday_alias: bool) -> int {
    maximum - minimum + 1 - if sunday_alias {
        1int
    } else {
        0int
    }
}

/// Whether `field` allows what the text of a field lists.
pub open spec fn field_matches_text(
    field: CronField,
    value: Seq<char>,
    minimum: int,
    maximum: int,
    sunday_alias: bool,
) -> bool {
    &&& field.minimum == minimum
    &&& field.allowed@.len() == field_size(minimum, maximum, sunday_alias)
    &&& forall|v: int|
        minimum <= v < minimum + field.allowed@.len() ==> (#[trigger] field.allows(v) <==> field_lists(
            value,
            minimum,
            maximum,
            sunday_alias,
            v,
        ))
}

impl CronField {
    /// Reads a field.
    fn parse(value: &str, minimum: u8, maximum: u8, sunday_alias: bool) -> (r: Option<CronField>)
        requires
            minimum <= maximum < 250,
            sunday_alias ==> minimum == 0 && maximum == 7,
        ensures
            match r {
                Some(field) => field_is_valid(value@, minimum as int, maximum as int)
                    && field_matches_text(
                    field,
                    value@,
                    minimum as int,
                    maximum as int,
                    sunday_alias,
                ),
                None => !field_is_valid(value@, minimum as int, maximum as int),
            },
    {
        let terms = split(value, ',');
        let ghost shown = text::split_on(value@, ',');
        let ghost lo = minimum as int;
        let ghost hi = maximum as int;
        proof {
            assert(shown.len() == terms.len());
        }
        if terms.len() > MAX_CRON_FIELD_TERMS {
            return None;
        }
        let size: usize = (maximum - minimum) as usize + if sunday_alias {
            0
        } else {
            1
        };
        let mut field = CronField { minimum, allowed: Vec::new() };
        let mut filled: usize = 0;
        while filled < size
            invariant
                filled <= size,
                field.minimum == minimum,
                field.allowed@.len() == filled,
                forall|j: int| 0 <= j < filled ==> !#[trigger] field.allowed@[j],
            decreases size - filled,
        {
            field.allowed.push(false);
            filled += 1;
        }
        let mut i: usize = 0;
        while i < terms.len()
            invariant
                minimum <= maximum < 250,
                sunday_alias ==> minimum == 0 && maximum == 7,
                i <= terms.len() <= MAX_CRON_FIELD_TERMS,
                lo == minimum,
                hi == maximum,
                shown == text::texts(terms@),
                shown == text::split_on(value@, ','),
                size == field_size(lo, hi, sunday_alias),
                field.minimum == minimum,
                field.allowed@.len() == size,
                forall|k: int| 0 <= k < i ==> term_range(#[trigger] shown[k], lo, hi) is Some,
                forall|v: int|
                    lo <= v < lo + size ==> (#[trigger] field.allows(v) <==> exists|k: int|
                        0 <= k < i && term_lists(#[trigger] shown[k], lo, hi, sunday_alias, v)),
            decreases terms.len() - i,
        {
            let ghost earlier = field;
            let term: &str = terms[i].as_str();
            proof {
                assert(shown[i as int] == term@);
            }
            if !field.add_term(term, minimum, maximum, sunday_alias) {
                proof {
                    assert(term_range(shown[i as int], lo, hi) is None);
                }
                return None;
            }
            proof {
                assert forall|v: int| lo <= v < lo + size implies (#[trigger] field.allows(v)
                    <==> exists|k: int|
                    0 <= k < i + 1 && term_lists(#[trigger] shown[k], lo, hi, sunday_alias, v)) by {
                    assert(earlier.allows(v) <==> exists|k: int|
                        0 <= k < i && term_lists(#[trigger] shown[k], lo, hi, sunday_alias, v));
                    if term_lists(term@, lo, hi, sunday_alias, v) {
                        assert(term_lists(shown[i as int], lo, hi, sunday_alias, v));
                    }
                }
            }
            i += 1;
        }
        Some(field)
    }

    /// Whether the field allows `value`.
    fn matches(&self, value: u32) -> (r: bool)
        requires
            value < 250,
        ensures
            r == self.allows(value as int),
    {
        let at: usize = if value < self.minimum as u32 {
            0
        } else {
            (value - self.minimum as u32) as usize
        };
        at < self.allowed.len() && self.allowed[at]
    }

    /// Whether the field allows everything.
    pub open spec fn allows_all(self) -> bool {
        forall|i: int| 0 <= i < self.allowed@.len() ==> #[trigger] self.allowed@[i]
    }

    /// Whether the field allows everything.
    fn is_all(&self) -> (r: bool)
        ensures
            r == self.allows_all(),
    {
        let mut i: usize = 0;
        while i < self.allowed.len()
            invariant
                i <= self.allowed.len(),
                forall|j: int| 0 <= j < i ==> #[trigger] self.allowed@[j],
            decreases self.allowed.len() - i,
        {
            if !self.allowed[i] {
                return false;
            }
            i += 1;
        }
        true
    }
}

/// The fields of an expression.
pub open spec fn fields_of(expression: Seq<char>) -> Seq<Seq<char>> {
    text::words(expression)
}

/// Whether `expression` is a cron expression of five fields.
pub open spec fn expression_is_valid(expression: Seq<char>) -> bool {
    let fields = fields_of(expression);
    &&& 0 < vstd::utf8::encode_utf8(expression).len() <= MAX_CRON_EXPRESSION_BYTES
    &&& fields.len() == 5
    &&& field_is_valid(fields[0], 0, 59)
    &&& field_is_valid(fields[1], 0, 23)
    &&& field_is_valid(fields[2], 1, 31)
    &&& field_is_valid(fields[3], 1, 12)
    &&& field_is_valid(fields[4], 0, 7)
}

impl CronUtcSchedule {
    /// Whether this schedule is what `expression` says.
    pub open spec fn means(self, expression: Seq<char>) -> bool {
        let fields = fields_of(expression);
        &&& self.expression@ == text::joined(fields, " "@)
        &&& field_matches_text(self.minute, fields[0], 0, 59, false)
        &&& field_matches_text(self.hour, fields[1], 0, 23, false)
        &&& field_matches_text(self.day_of_month, fields[2], 1, 31, false)
        &&& field_matches_text(self.month, fields[3], 1, 12, false)
        &&& field_matches_text(self.day_of_week, fields[4], 0, 7, true)
    }

    /// Reads a cron expression.
    pub fn parse(expression: &str) -> (r: Option<CronUtcSchedule>)
        ensures
            match r {
                Some(schedule) => expression_is_valid(expression@) && schedule.means(expression@),
                None => !expression_is_valid(expression@),
            },
    {
        let bytes: usize = expression.as_bytes().len();
        if bytes == 0 || bytes > MAX_CRON_EXPRESSION_BYTES {
            return None;
        }
        let fields = split_words(expression);
        let ghost shown = fields_of(expression@);
        if fields.len() != 5 {
            assert(shown.len() != 5);
            return None;
        }
        proof {
            assert(forall|k: int| 0 <= k < 5 ==> #[trigger] shown[k] == fields@[k]@);
            assert(shown[0] == fields@[0]@ && shown[1] == fields@[1]@ && shown[2] == fields@[2]@
                && shown[3] == fields@[3]@ && shown[4] == fields@[4]@);
        }
        match (
            CronField::parse(fields[0].as_str(), 0, 59, false),
            CronField::parse(fields[1].as_str(), 0, 23, false),
            CronField::parse(fields[2].as_str(), 1, 31, false),
            CronField::parse(fields[3].as_str(), 1, 12, false),
            CronField::parse(fields[4].as_str(), 0, 7, true),
        ) {
            (Some(minute), Some(hour), Some(day_of_month), Some(month), Some(day_of_week)) => Some(
                CronUtcSchedule {
                    expression: join(&fields, " "),
                    minute,
                    hour,
                    day_of_month,
                    month,
                    day_of_week,
                },
            ),
            _ => None,
        }
    }

    /// Whether the schedule is due in a calendar minute. Where both the day of the
    /// month and the weekday are restricted, one of them is enough.
    pub open spec fn due(self, at: CalendarMinute) -> bool {
        let day = self.day_of_month.allows(at.2 as int);
        let weekday = self.day_of_week.allows(at.4 as int);
        &&& self.minute.allows(at.0 as int)
        &&& self.hour.allows(at.1 as int)
        &&& self.month.allows(at.3 as int)
        &&& match (self.day_of_month.allows_all(), self.day_of_week.allows_all()) {
            (true, true) => true,
            (true, false) => weekday,
            (false, true) => day,
            (false, false) => day || weekday,
        }
    }

    /// Whether the schedule is due in a calendar minute.
    pub fn matches(&self, at: CalendarMinute) -> (r: bool)
        requires
            at.0 < 60 && at.1 < 24 && at.2 <= 31 && at.3 <= 12 && at.4 < 7,
        ensures
            r == self.due(at),
    {
        if !self.minute.matches(at.0) || !self.hour.matches(at.1) || !self.month.matches(at.3) {
            return false;
        }
        let day: bool = self.day_of_month.matches(at.2);
        let weekday: bool = self.day_of_week.matches(at.4);
        match (self.day_of_month.is_all(), self.day_of_week.is_all()) {
            (true, true) => true,
            (true, false) => weekday,
            (false, true) => day,
            (false, false) => day || weekday,
        }
    }
}

/// `n`, or the nearest number that fits in an `i64`.
pub open spec fn clamp(n: int) -> int {
    if n < i64::MIN {
        i64::MIN as int
    } else if n > i64::MAX {
        i64::MAX as int
    } else {
        n
    }
}

/// The start of the minute in which `ms` lies.
pub open spec fn minute_floor(ms: int) -> int {
    clamp(ms / 60_000 * 60_000)
}

/// The first start of a minute that is not before `ms`.
pub open spec fn minute_ceiling(ms: int) -> int {
    if minute_floor(ms) == ms {
        ms
    } else {
        clamp(minute_floor(ms) + 60_000)
    }
}

/// The start of the minute in which `value` lies.
pub fn floor_to_minute(value: i64) -> (r: i64)
    ensures
        r == minute_floor(value as int),
{
    let minutes: i64 = match value.checked_div_euclid(MILLIS_PER_MINUTE) {
        Some(n) => n,
        None => 0,
    };
    let product: i128 = (minutes as i128) * 60_000i128;
    if product < i64::MIN as i128 {
        i64::MIN
    } else {
        product as i64
    }
}

/// The first start of a minute that is not before `value`.
pub fn ceil_to_minute(value: i64) -> (r: i64)
    ensures
        r == minute_ceiling(value as int),
{
    let floor: i64 = floor_to_minute(value);
    if floor == value {
        floor
    } else {
        match floor.checked_add(MILLIS_PER_MINUTE) {
            Some(n) => n,
            None => i64::MAX,
        }
    }
}

/// Why a due time cannot be found.
#[derive(Clone, Copy, Debug, PartialEq, Eq, Structural)]
pub enum CronFault {
    /// The clock or the stored state is out of range.
    StateInvalid,
    /// The expression is not due within the time that is looked ahead.
    NextDueUnavailable,
}

impl CronFault {
    /// The code that is reported.
    pub open spec fn code(self) -> Seq<char> {
        match self {
            CronFault::StateInvalid => "agent_schedule_state_invalid"@,
            CronFault::NextDueUnavailable => "agent_cron_next_due_unavailable"@,
        }
    }

    /// The code that is reported.
    pub fn as_str(&self) -> (r: &'static str)
        ensures
            r@ == self.code(),
    {
        match self {
            CronFault::StateInvalid => "agent_schedule_state_invalid",
            CronFault::NextDueUnavailable => "agent_cron_next_due_unavailable",
        }
    }
}

/// The first due minute at or after `candidate` among `budget` minutes.
pub open spec fn search(cron: CronUtcSchedule, candidate: int, budget: nat) -> Result<int, CronFault>
    decreases budget,
{
    if budget == 0 {
        Err(CronFault::NextDueUnavailable)
    } else {
        match calendar_of(candidate) {
            None => Err(CronFault::StateInvalid),
            Some(at) => if cron.due(at) {
                Ok(candidate)
            } else if candidate + 60_000 > i64::MAX {
                Err(CronFault::StateInvalid)
            } else {
                search(cron, candidate + 60_000, (budget - 1) as nat)
            },
        }
    }
}

/// The first due minute after `after_ms`.
pub open spec fn next_due(cron: CronUtcSchedule, after_ms: int) -> Result<int, CronFault> {
    if minute_floor(after_ms) + 60_000 > i64::MAX {
        Err(CronFault::StateInvalid)
    } else {
        search(cron, minute_floor(after_ms) + 60_000, MAX_CRON_LOOKAHEAD_MINUTES as nat)
    }
}

/// The first due minute at or after `now_ms`.
pub open spec fn due_from(cron: CronUtcSchedule, now_ms: int) -> Result<int, CronFault> {
    let candidate = minute_ceiling(now_ms);
    match calendar_of(candidate) {
        None => Err(CronFault::StateInvalid),
        Some(at) => if cron.due(at) {
            Ok(candidate)
        } else {
            next_due(cron, candidate)
        },
    }
}

/// The due minutes from `candidate` to `now_ms` added to `count`, and whether the
/// count stopped before the end.
pub open spec fn count_missed(
    cron: CronUtcSchedule,
    candidate: int,
    now_ms: int,
    count: int,
    budget: nat,
) -> Result<(int, bool), CronFault>
    decreases budget,
{
    if budget == 0 {
        Ok((count, true))
    } else if candidate > now_ms {
        Ok((count, false))
    } else {
        match calendar_of(candidate) {
            None => Err(CronFault::StateInvalid),
            Some(at) => {
                let grown = if cron.due(at) {
                    count + 1
                } else {
                    count
                };
                if grown >= MAX_COALESCED_TICKS {
                    Ok((grown, true))
                } else if candidate + 60_000 > i64::MAX {
                    Err(CronFault::StateInvalid)
                } else {
                    count_missed(cron, candidate + 60_000, now_ms, grown, (budget - 1) as nat)
                }
            },
        }
    }
}

/// The due minutes after `scheduled_for_ms` that have passed by `now_ms`.
pub open spec fn missed(cron: CronUtcSchedule, scheduled_for_ms: int, now_ms: int) -> Result<
    (int, bool),
    CronFault,
> {
    if scheduled_for_ms + 60_000 > i64::MAX {
        Err(CronFault::StateInvalid)
    } else {
        count_missed(
            cron,
            scheduled_for_ms + 60_000,
            now_ms,
            0,
            MAX_CRON_MISSED_SCAN_MINUTES as nat,
        )
    }
}

/// Finds the first due minute after `after_ms`.
pub fn next_cron_due_after(cron: &CronUtcSchedule, after_ms: i64) -> (r: Result<i64, CronFault>)
    ensures
        match r {
            Ok(at) => next_due(*cron, after_ms as int) == Ok::<int, CronFault>(at as int),
            Err(e) => next_due(*cron, after_ms as int) == Err::<int, CronFault>(e),
        },
{
    let mut candidate: i64 = match floor_to_minute(after_ms).checked_add(MILLIS_PER_MINUTE) {
        Some(n) => n,
        None => {
            return Err(CronFault::StateInvalid);
        },
    };
    let mut budget: u64 = MAX_CRON_LOOKAHEAD_MINUTES;
    while budget > 0
        invariant
            next_due(*cron, after_ms as int) == search(*cron, candidate as int, budget as nat),
        decreases budget,
    {
        match utc_calendar(candidate) {
            None => {
                return Err(CronFault::StateInvalid);
            },
            Some(at) => {
                if cron.matches(at) {
                    return Ok(candidate);
                }
            },
        }
        candidate = match candidate.checked_add(MILLIS_PER_MINUTE) {
            Some(n) => n,
            None => {
                return Err(CronFault::StateInvalid);
            },
        };
        budget = budget - 1;
    }
    Err(CronFault::NextDueUnavailable)
}

/// Finds the first due minute at or after `now_ms`.
pub fn cron_due_at_or_after(cron: &CronUtcSchedule, now_ms: i64) -> (r: Result<i64, CronFault>)
    ensures
        match r {
            Ok(at) => due_from(*cron, now_ms as int) == Ok::<int, CronFault>(at as int),
            Err(e) => due_from(*cron, now_ms as int) == Err::<int, CronFault>(e),
        },
{
    let candidate: i64 = ceil_to_minute(now_ms);
    match utc_calendar(candidate) {
        None => Err(CronFault::StateInvalid),
        Some(at) => if cron.matches(at) {
            Ok(candidate)
        } else {
            next_cron_due_after(cron, candidate)
        },
    }
}

/// Counts the due minutes after `scheduled_for_ms` that have passed by `now_ms`. The
/// flag says that the count is only a lower bound.
pub fn cron_missed_tick_count(cron: &CronUtcSchedule, scheduled_for_ms: i64, now_ms: i64) -> (r: Result<
    (u64, bool),
    CronFault,
>)
    ensures
        match r {
            Ok((count, capped)) => missed(*cron, scheduled_for_ms as int, now_ms as int) == Ok::<
                (int, bool),
                CronFault,
            >((count as int, capped)),
            Err(e) => missed(*cron, scheduled_for_ms as int, now_ms as int) == Err::<
                (int, bool),
                CronFault,
            >(e),
        },
{
    let mut candidate: i64 = match scheduled_for_ms.checked_add(MILLIS_PER_MINUTE) {
        Some(n) => n,
        None => {
            return Err(CronFault::StateInvalid);
        },
    };
    let mut count: u64 = 0;
    let mut budget: u64 = MAX_CRON_MISSED_SCAN_MINUTES;
    while budget > 0
        invariant
            count < MAX_COALESCED_TICKS,
            missed(*cron, scheduled_for_ms as int, now_ms as int) == count_missed(
                *cron,
                candidate as int,
                now_ms as int,
                count as int,
                budget as nat,
            ),
        decreases budget,
    {
        if candidate > now_ms {
            return Ok((count, false));
        }
        match utc_calendar(candidate) {
            None => {
                return Err(CronFault::StateInvalid);
            },
            Some(at) => {
                if cron.matches(at) {
                    count = count + 1;
                }
            },
        }
        if count >= MAX_COALESCED_TICKS {
            return Ok((count, true));
        }
        candidate = match candidate.checked_add(MILLIS_PER_MINUTE) {
            Some(n) => n,
            None => {
                return Err(CronFault::StateInvalid);
            },
        };
        budget = budget - 1;
    }
    Ok((count, true))
}

/// The minute that a search finds is due, and no minute before it in the search is.
pub proof fn search_finds_the_earliest(cron: CronUtcSchedule, candidate: int, budget: nat)
    ensures
        search(cron, candidate, budget) matches Ok(at) ==> {
            &&& candidate <= at < candidate + 60_000 * budget
            &&& (at - candidate) % 60_000 == 0
            &&& calendar_of(at) matches Some(minute) && cron.due(minute)
            &&& forall|m: int|
                candidate <= m < at && (m - candidate) % 60_000 == 0 ==> (#[trigger] calendar_of(
                    m,
                ) matches Some(minute) && !cron.due(minute))
        },
    decreases budget,
{
    if budget > 0 {
        if let Some(minute) = calendar_of(candidate) {
            if !cron.due(minute) && candidate + 60_000 <= i64::MAX {
                search_finds_the_earliest(cron, candidate + 60_000, (budget - 1) as nat);
                if let Ok(at) = search(cron, candidate, budget) {
                    assert forall|m: int|
                        candidate <= m < at && (m - candidate) % 60_000 == 0 implies (
                    #[trigger] calendar_of(m) matches Some(inner) && !cron.due(inner)) by {
                        if m != candidate {
                            assert(m >= candidate + 60_000);
                            assert((m - (candidate + 60_000)) % 60_000 == 0);
                        }
                    }
                }
            }
        }
    }
}

/// The next due minute lies after the given time, is due, and is the first such minute.
pub proof fn next_due_is_the_earliest(cron: CronUtcSchedule, after_ms: int)
    requires
        i64::MIN + 60_000 <= after_ms <= i64::MAX,
    ensures
        next_due(cron, after_ms) matches Ok(at) ==> {
            &&& after_ms < at
            &&& at % 60_000 == 0
            &&& calendar_of(at) matches Some(minute) && cron.due(minute)
            &&& forall|m: int|
                after_ms < m < at && m % 60_000 == 0 ==> (#[trigger] calendar_of(m) matches Some(
                    minute,
                ) && !cron.due(minute))
        },
{
    let first = minute_floor(after_ms) + 60_000;
    search_finds_the_earliest(cron, first, MAX_CRON_LOOKAHEAD_MINUTES as nat);
    if let Ok(at) = next_due(cron, after_ms) {
        assert(first % 60_000 == 0);
        assert forall|m: int| after_ms < m < at && m % 60_000 == 0 implies (#[trigger] calendar_of(
            m,
        ) matches Some(minute) && !cron.due(minute)) by {
            assert(first <= m);
            assert((m - first) % 60_000 == 0);
        }
    }
}

/// A count of missed ticks is never above its cap, and where it is exact it is below it.
pub proof fn missed_count_is_capped(
    cron: CronUtcSchedule,
    candidate: int,
    now_ms: int,
    count: int,
    budget: nat,
)
    requires
        0 <= count < MAX_COALESCED_TICKS,
    ensures
        count_missed(cron, candidate, now_ms, count, budget) matches Ok((total, capped)) ==> count
            <= total <= MAX_COALESCED_TICKS && (!capped ==> total < MAX_COALESCED_TICKS),
    decreases budget,
{
    if budget > 0 && candidate <= now_ms {
        if let Some(at) = calendar_of(candidate) {
            let grown = if cron.due(at) {
                count + 1
            } else {
                count
            };
            if grown < MAX_COALESCED_TICKS && candidate + 60_000 <= i64::MAX {
                missed_count_is_capped(cron, candidate + 60_000, now_ms, grown, (budget - 1) as nat);
            }
        }
    }
}

} // verus!
