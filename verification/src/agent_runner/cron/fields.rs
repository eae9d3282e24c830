//! What the fields of a cron expression allow, by how they are written, and on which days
//! a schedule is due.

use vstd::prelude::*;

use crate::agent_runner::cron;
use crate::agent_runner::cron::{CalendarMinute, CronField, CronUtcSchedule};
use crate::text;

verus! {

/// A text without a separator is its only part.
pub proof fn whole_is_the_only_part(s: Seq<char>, sep: char)
    requires
        !s.contains(sep),
    ensures
        text::split_on(s, sep) == seq![s],
    decreases s.len(),
{
    if s.len() > 0 {
        let shorter = s.drop_last();
        assert forall|i: int| 0 <= i < shorter.len() implies shorter[i] != sep by {
            assert(shorter[i] == s[i]);
        }
        assert(!shorter.contains(sep));
        whole_is_the_only_part(shorter, sep);
        assert(s.last() == s[s.len() - 1]);
        assert(s.last() != sep);
        assert(shorter.push(s.last()) =~= s);
        assert(text::split_on(s, sep) =~= seq![s]);
    } else {
        assert(s =~= Seq::<char>::empty());
    }
}

/// What stands behind the last separator is the last part, and what stands before it has
/// the other parts.
pub proof fn last_part_stands_behind_the_last_separator(a: Seq<char>, sep: char, b: Seq<char>)
    requires
        !b.contains(sep),
    ensures
        text::split_on(a.push(sep) + b, sep) == text::split_on(a, sep).push(b),
    decreases b.len(),
{
    let s = a.push(sep) + b;
    if b.len() == 0 {
        assert(s =~= a.push(sep));
        assert(s.drop_last() =~= a);
        assert(b =~= Seq::<char>::empty());
    } else {
        let shorter = b.drop_last();
        assert forall|i: int| 0 <= i < shorter.len() implies shorter[i] != sep by {
            assert(shorter[i] == b[i]);
        }
        assert(!shorter.contains(sep));
        last_part_stands_behind_the_last_separator(a, sep, shorter);
        assert(s.drop_last() =~= a.push(sep) + shorter);
        assert(s.last() == b[b.len() - 1]);
        assert(s.last() != sep);
        assert(shorter.push(b.last()) =~= b);
        let earlier = text::split_on(a, sep).push(shorter);
        assert(earlier.drop_last() =~= text::split_on(a, sep));
        assert(text::split_on(s, sep) =~= text::split_on(a, sep).push(b));
    }
}

proof fn numeral_is_plain(s: Seq<char>)
    requires
        text::is_numeral(s),
    ensures
        !s.contains(','),
        !s.contains('/'),
        !s.contains('-'),
        s != "*"@,
{
    reveal_strlit("*");
    assert(text::is_digit(s[0]));
    assert("*"@[0] == '*');
    assert forall|i: int| 0 <= i < s.len() implies s[i] != ',' && s[i] != '/' && s[i] != '-' by {
        assert(text::is_digit(s[i]));
    }
}

proof fn star_is_plain()
    ensures
        !"*"@.contains(','),
        !"*"@.contains('/'),
        !"*"@.contains('-'),
{
    reveal_strlit("*");
    assert("*"@.len() == 1);
    assert("*"@[0] == '*');
}

/// Whether bounds are those of a field: the field of weekdays begins with the Sunday and
/// ends with it again.
pub open spec fn is_bounded(minimum: int, maximum: int, sunday_alias: bool) -> bool {
    0 <= minimum <= maximum && (sunday_alias ==> minimum == 0 && maximum == 7)
}

proof fn one_term_decides(
    field: CronField,
    value: Seq<char>,
    minimum: int,
    maximum: int,
    sunday_alias: bool,
    v: int,
)
    requires
        cron::field_matches_text(field, value, minimum, maximum, sunday_alias),
        !value.contains(','),
        minimum <= v < minimum + field.allowed@.len(),
    ensures
        field.allows(v) <==> cron::term_lists(value, minimum, maximum, sunday_alias, v),
{
    whole_is_the_only_part(value, ',');
    let terms = text::split_on(value, ',');
    assert(terms[0] == value);
    if cron::term_lists(value, minimum, maximum, sunday_alias, v) {
        assert(cron::term_lists(terms[0], minimum, maximum, sunday_alias, v));
    }
}

/// A field that is a star allows every value.
pub proof fn star_allows_every_value(
    field: CronField,
    minimum: int,
    maximum: int,
    sunday_alias: bool,
    v: int,
)
    requires
        cron::field_matches_text(field, "*"@, minimum, maximum, sunday_alias),
        is_bounded(minimum, maximum, sunday_alias),
        minimum <= v < minimum + field.allowed@.len(),
    ensures
        field.allows(v),
{
    star_is_plain();
    one_term_decides(field, "*"@, minimum, maximum, sunday_alias, v);
    whole_is_the_only_part("*"@, '/');
    assert(cron::canonical(v, sunday_alias) == v);
    assert((v - minimum) % 1 == 0);
}

/// A field that is a number allows that number alone; for weekdays seven is the Sunday.
pub proof fn number_allows_itself(
    field: CronField,
    value: Seq<char>,
    minimum: int,
    maximum: int,
    sunday_alias: bool,
    v: int,
)
    requires
        cron::field_matches_text(field, value, minimum, maximum, sunday_alias),
        is_bounded(minimum, maximum, sunday_alias),
        text::is_numeral(value),
        minimum <= text::number_of(value) <= maximum,
        minimum <= v < minimum + field.allowed@.len(),
    ensures
        field.allows(v) <==> v == text::number_of(value) || (sunday_alias && text::number_of(value)
            == 7 && v == 0),
{
    numeral_is_plain(value);
    one_term_decides(field, value, minimum, maximum, sunday_alias, v);
    whole_is_the_only_part(value, '/');
    whole_is_the_only_part(value, '-');
    let n = text::number_of(value) as int;
    assert(cron::base_range(value, minimum, maximum, false) == Some((n, n)));
    assert(cron::term_range(value, minimum, maximum) == Some((n, n, 1int)));
    let listed = cron::term_lists(value, minimum, maximum, sunday_alias, v);
    if v == n || (sunday_alias && n == 7 && v == 0) {
        assert(n <= n <= n && (n - n) % 1 == 0 && cron::canonical(n, sunday_alias) == v);
        assert(listed);
    }
    if listed {
        let c = choose|c: int|
            n <= c <= n && (c - n) % 1 == 0 && #[trigger] cron::canonical(c, sunday_alias) == v;
        assert(c == n);
    }
}

proof fn range_is_two_parts(a: Seq<char>, b: Seq<char>, value: Seq<char>)
    requires
        text::is_numeral(a),
        text::is_numeral(b),
        value == a.push('-') + b,
    ensures
        text::split_on(value, '-') == seq![a, b],
        !value.contains(','),
        !value.contains('/'),
        value != "*"@,
{
    reveal_strlit("*");
    numeral_is_plain(a);
    numeral_is_plain(b);
    whole_is_the_only_part(a, '-');
    last_part_stands_behind_the_last_separator(a, '-', b);
    assert(text::split_on(value, '-') =~= seq![a, b]);
    assert forall|i: int| 0 <= i < value.len() implies value[i] != ',' && value[i] != '/' by {
        if i < a.len() {
            assert(value[i] == a[i]);
        } else if i > a.len() {
            assert(value[i] == b[i - a.len() - 1]);
        } else {
            assert(value[i] == '-');
        }
    }
    assert(value.len() > 1);
}

/// A field that is a range allows what lies from its first number to its last; for
/// weekdays seven is the Sunday.
pub proof fn range_allows_what_lies_in_it(
    field: CronField,
    a: Seq<char>,
    b: Seq<char>,
    minimum: int,
    maximum: int,
    sunday_alias: bool,
    v: int,
)
    requires
        cron::field_matches_text(field, a.push('-') + b, minimum, maximum, sunday_alias),
        is_bounded(minimum, maximum, sunday_alias),
        text::is_numeral(a),
        text::is_numeral(b),
        minimum <= text::number_of(a) <= text::number_of(b) <= maximum,
        minimum <= v < minimum + field.allowed@.len(),
    ensures
        field.allows(v) <==> text::number_of(a) <= v <= text::number_of(b) || (sunday_alias
            && text::number_of(b) == 7 && v == 0),
{
    let value = a.push('-') + b;
    let from = text::number_of(a) as int;
    let to = text::number_of(b) as int;
    range_is_two_parts(a, b, value);
    one_term_decides(field, value, minimum, maximum, sunday_alias, v);
    whole_is_the_only_part(value, '/');
    assert(text::split_on(value, '-')[0] == a);
    assert(text::split_on(value, '-')[1] == b);
    assert(cron::base_range(value, minimum, maximum, false) == Some((from, to)));
    assert(cron::term_range(value, minimum, maximum) == Some((from, to, 1int)));
    let listed = cron::term_lists(value, minimum, maximum, sunday_alias, v);
    if from <= v <= to {
        assert((v - from) % 1 == 0 && cron::canonical(v, sunday_alias) == v);
        assert(listed);
    }
    if sunday_alias && to == 7 && v == 0 {
        assert((to - from) % 1 == 0 && cron::canonical(to, sunday_alias) == v);
        assert(listed);
    }
    if listed {
        let c = choose|c: int|
            from <= c <= to && (c - from) % 1 == 0 && #[trigger] cron::canonical(c, sunday_alias)
                == v;
        assert(from <= c <= to);
    }
}

/// A field that is a star with a step allows the first value and every so manieth behind it.
pub proof fn stepped_star_allows_every_so_manieth(
    field: CronField,
    step: Seq<char>,
    minimum: int,
    maximum: int,
    sunday_alias: bool,
    v: int,
)
    requires
        cron::field_matches_text(field, "*"@.push('/') + step, minimum, maximum, sunday_alias),
        is_bounded(minimum, maximum, sunday_alias),
        text::is_numeral(step),
        0 < text::number_of(step) <= usize::MAX,
        minimum <= v < minimum + field.allowed@.len(),
    ensures
        field.allows(v) <==> (v - minimum) % (text::number_of(step) as int) == 0,
{
    let value = "*"@.push('/') + step;
    let k = text::number_of(step) as int;
    star_is_plain();
    numeral_is_plain(step);
    reveal_strlit("*");
    assert forall|i: int| 0 <= i < value.len() implies value[i] != ',' by {
        if i == 0 {
            assert(value[i] == '*');
        } else if i > 1 {
            assert(value[i] == step[i - 2]);
        } else {
            assert(value[i] == '/');
        }
    }
    assert(!value.contains(','));
    one_term_decides(field, value, minimum, maximum, sunday_alias, v);
    whole_is_the_only_part("*"@, '/');
    last_part_stands_behind_the_last_separator("*"@, '/', step);
    assert(text::split_on(value, '/') =~= seq!["*"@, step]);
    assert(text::split_on(value, '/')[0] == "*"@);
    assert(text::split_on(value, '/')[1] == step);
    assert(cron::base_range("*"@, minimum, maximum, true) == Some((minimum, maximum)));
    assert(cron::term_range(value, minimum, maximum) == Some((minimum, maximum, k)));
    assert(cron::canonical(v, sunday_alias) == v);
    if sunday_alias && v == 0 {
        assert((v - minimum) % k == 0) by (nonlinear_arith)
            requires
                k > 0,
                v == 0,
                minimum == 0,
        ;
    }
}

/// A field that is a list allows what one of its terms allows.
pub proof fn list_allows_what_a_term_allows(
    earlier: Seq<char>,
    term: Seq<char>,
    minimum: int,
    maximum: int,
    sunday_alias: bool,
    v: int,
)
    requires
        !term.contains(','),
    ensures
        cron::field_lists(earlier.push(',') + term, minimum, maximum, sunday_alias, v)
            <==> cron::field_lists(earlier, minimum, maximum, sunday_alias, v) || cron::field_lists(
            term,
            minimum,
            maximum,
            sunday_alias,
            v,
        ),
{
    let value = earlier.push(',') + term;
    last_part_stands_behind_the_last_separator(earlier, ',', term);
    whole_is_the_only_part(term, ',');
    let before = text::split_on(earlier, ',');
    let terms = text::split_on(value, ',');
    assert(terms == before.push(term));
    assert(terms[before.len() as int] == term);
    assert(text::split_on(term, ',')[0] == term);
    if cron::field_lists(earlier, minimum, maximum, sunday_alias, v) {
        let i = choose|i: int|
            0 <= i < before.len() && cron::term_lists(
                #[trigger] before[i],
                minimum,
                maximum,
                sunday_alias,
                v,
            );
        assert(terms[i] == before[i]);
    }
    if cron::field_lists(term, minimum, maximum, sunday_alias, v) {
        assert(cron::term_lists(
            terms[before.len() as int],
            minimum,
            maximum,
            sunday_alias,
            v,
        ));
    }
    if cron::field_lists(value, minimum, maximum, sunday_alias, v) {
        let i = choose|i: int|
            0 <= i < terms.len() && cron::term_lists(
                #[trigger] terms[i],
                minimum,
                maximum,
                sunday_alias,
                v,
            );
        if i < before.len() {
            assert(terms[i] == before[i]);
        } else {
            assert(terms[i] == text::split_on(term, ',')[0]);
        }
    }
}

/// Whether a field leaves out a value.
pub open spec fn leaves_out_a_value(field: CronField) -> bool {
    exists|i: int| 0 <= i < field.allowed@.len() && !#[trigger] field.allowed@[i]
}

/// A schedule is due only in a minute, an hour and a month that its fields allow. Where
/// the weekdays are free the day of the month decides, where the days of the month are
/// free the weekday does, where both are free every day is one, and where neither is, a
/// day that meets one of them is one.
pub proof fn day_is_decided_by_what_is_restricted(schedule: CronUtcSchedule, at: CalendarMinute)
    ensures
        ({
            let in_time = schedule.minute.allows(at.0 as int) && schedule.hour.allows(at.1 as int)
                && schedule.month.allows(at.3 as int);
            let day = schedule.day_of_month.allows(at.2 as int);
            let weekday = schedule.day_of_week.allows(at.4 as int);
            let by_day = leaves_out_a_value(schedule.day_of_month);
            let by_weekday = leaves_out_a_value(schedule.day_of_week);
            &&& schedule.due(at) ==> in_time
            &&& !by_day && !by_weekday ==> (schedule.due(at) <==> in_time)
            &&& by_day && !by_weekday ==> (schedule.due(at) <==> in_time && day)
            &&& !by_day && by_weekday ==> (schedule.due(at) <==> in_time && weekday)
            &&& by_day && by_weekday ==> (schedule.due(at) <==> in_time && (day || weekday))
        }),
{
    let days = schedule.day_of_month;
    let weekdays = schedule.day_of_week;
    assert(days.allows_all() <==> !leaves_out_a_value(days));
    assert(weekdays.allows_all() <==> !leaves_out_a_value(weekdays));
}

/// A schedule reads its five fields in the order minute, hour, day of the month, month and
/// weekday.
pub proof fn fields_stand_in_order(schedule: CronUtcSchedule, expression: Seq<char>)
    requires
        schedule.means(expression),
    ensures
        ({
            let fields = text::words(expression);
            &&& cron::field_matches_text(schedule.minute, fields[0], 0, 59, false)
            &&& cron::field_matches_text(schedule.hour, fields[1], 0, 23, false)
            &&& cron::field_matches_text(schedule.day_of_month, fields[2], 1, 31, false)
            &&& cron::field_matches_text(schedule.month, fields[3], 1, 12, false)
            &&& cron::field_matches_text(schedule.day_of_week, fields[4], 0, 7, true)
        }),
{
}

/// The fields stand for as many values as there are minutes, hours, days, months and
/// weekdays.
pub proof fn fields_have_their_sizes(schedule: CronUtcSchedule, expression: Seq<char>)
    requires
        schedule.means(expression),
    ensures
        schedule.minute.allowed@.len() == 60,
        schedule.hour.allowed@.len() == 24,
        schedule.day_of_month.allowed@.len() == 31,
        schedule.month.allowed@.len() == 12,
        schedule.day_of_week.allowed@.len() == 7,
        schedule.minute.minimum == 0,
        schedule.hour.minimum == 0,
        schedule.day_of_month.minimum == 1,
        schedule.month.minimum == 1,
        schedule.day_of_week.minimum == 0,
{
}

} // verus!
