//! The laws of duration terms: a term is a decimal count followed by a unit
//! name, and the seconds of consecutive terms add up, with or without
//! whitespace between them (or between a count and its unit).

use crate::duration_helper::{
    conversion, initial_state, law_run_concat, spec_calc, spec_run, spec_step, spec_tally,
    unit_check, unit_for, DurationState, Outcome, TimeUnit,
};
use crate::text::{
    ascii_lower, ascii_text, digit_value, is_decimal_digit, lowercase_chars, whitespace_char,
};
use crate::time_delta::representable;
use vstd::prelude::*;

verus! {

/// Every character is an ASCII decimal digit.
pub open spec fn count_chars(d: Seq<char>) -> bool {
    forall|i: int| 0 <= i < d.len() ==> is_decimal_digit(#[trigger] d[i])
}

/// Every character can stand in a unit name: not a digit, not `-`, not
/// whitespace.
pub open spec fn unit_chars(u: Seq<char>) -> bool {
    forall|i: int|
        0 <= i < u.len() ==> !is_decimal_digit(#[trigger] u[i]) && u[i] != '-' && !whitespace_char(
            u[i],
        )
}

/// The number that a string of decimal digits spells.
pub open spec fn decimal_value(d: Seq<char>) -> int
    decreases d.len(),
{
    if d.len() == 0 {
        0
    } else {
        decimal_value(d.drop_last()) * 10 + digit_value(d.last())
    }
}

proof fn lemma_decimal_value_nonneg(d: Seq<char>)
    requires
        count_chars(d),
    ensures
        decimal_value(d) >= 0,
    decreases d.len(),
{
    if d.len() > 0 {
        assert(count_chars(d.drop_last())) by {
            assert forall|i: int| 0 <= i < d.drop_last().len() implies is_decimal_digit(
                #[trigger] d.drop_last()[i],
            ) by {
                assert(d.drop_last()[i] == d[i]);
            }
        }
        lemma_decimal_value_nonneg(d.drop_last());
        assert(is_decimal_digit(d[d.len() - 1]));
    }
}

/// Reading digits with nothing pending builds their number as the count, or
/// overflows when it does not fit an `i64`.
proof fn lemma_run_count(s: DurationState, d: Seq<char>)
    requires
        s.current_unit.len() == 0,
        s.count == 0,
        count_chars(d),
    ensures
        spec_run(s, d) == if decimal_value(d) <= i64::MAX {
            Outcome::Next(DurationState { count: decimal_value(d), ..s })
        } else {
            Outcome::Panic
        },
    decreases d.len(),
{
    if d.len() == 0 {
        assert(DurationState { count: 0, ..s } == s);
    } else {
        let p = d.drop_last();
        let c = d.last();
        assert(count_chars(p)) by {
            assert forall|i: int| 0 <= i < p.len() implies is_decimal_digit(#[trigger] p[i]) by {
                assert(p[i] == d[i]);
            }
        }
        assert(is_decimal_digit(d[d.len() - 1]));
        assert(d =~= p + seq![c]);
        lemma_run_count(s, p);
        lemma_decimal_value_nonneg(p);
        law_run_concat(s, p, seq![c]);
        let vp = decimal_value(p);
        let dv = digit_value(c);
        assert(0 <= dv <= 9);
        assert(decimal_value(d) == vp * 10 + dv);
        if vp <= i64::MAX {
            let t = DurationState { count: vp, ..s };
            assert(seq![c].drop_first() =~= Seq::<char>::empty());
            assert(seq![c][0] == c);
            assert(c != '-');
            assert(spec_run(t, seq![c]) == match spec_step(t, c, false) {
                Outcome::Next(t2) => spec_run(t2, Seq::<char>::empty()),
                o => o,
            });
        }
    }
}

/// Reading unit-name characters appends them to the unit name.
proof fn lemma_run_unit(s: DurationState, u: Seq<char>)
    requires
        unit_chars(u),
    ensures
        spec_run(s, u) == Outcome::Next(
            DurationState { current_unit: s.current_unit + u, ..s },
        ),
    decreases u.len(),
{
    if u.len() == 0 {
        assert(s.current_unit + u =~= s.current_unit);
        assert(DurationState { current_unit: s.current_unit, ..s } == s);
    } else {
        let t = DurationState { current_unit: s.current_unit.push(u[0]), ..s };
        assert(!is_decimal_digit(u[0]) && u[0] != '-' && !whitespace_char(u[0]));
        assert(unit_chars(u.drop_first())) by {
            assert forall|i: int| 0 <= i < u.drop_first().len() implies !is_decimal_digit(
                #[trigger] u.drop_first()[i],
            ) && u.drop_first()[i] != '-' && !whitespace_char(u.drop_first()[i]) by {
                assert(u.drop_first()[i] == u[i + 1]);
            }
        }
        lemma_run_unit(t, u.drop_first());
        assert(s.current_unit.push(u[0]) + u.drop_first() =~= s.current_unit + u);
    }
}

/// Reading a term with nothing pending leaves its count and unit name
/// pending.
proof fn lemma_run_term(s: DurationState, d: Seq<char>, u: Seq<char>)
    requires
        s.current_unit.len() == 0,
        s.count == 0,
        count_chars(d),
        unit_chars(u),
    ensures
        spec_run(s, d + u) == if decimal_value(d) <= i64::MAX {
            Outcome::Next(
                DurationState { duration: s.duration, current_unit: u, count: decimal_value(d) },
            )
        } else {
            Outcome::Panic
        },
{
    law_run_concat(s, d, u);
    lemma_run_count(s, d);
    if decimal_value(d) <= i64::MAX {
        let t = DurationState { count: decimal_value(d), ..s };
        lemma_run_unit(t, u);
        assert(t.current_unit + u =~= u);
    }
}

/// A digit after a pending unit name first tallies it; reading on from the
/// tallied state is the same.
proof fn lemma_run_after_tally(s: DurationState, t: DurationState, cs: Seq<char>)
    requires
        s.current_unit.len() != 0,
        spec_tally(s) == Outcome::Next(t),
        cs.len() != 0,
        is_decimal_digit(cs[0]),
    ensures
        t.current_unit.len() == 0,
        t.count == 0,
        spec_run(s, cs) == spec_run(t, cs),
{
    assert(cs[0] != '-');
    assert(spec_step(s, cs[0], false) == spec_step(t, cs[0], false));
}

/// The outcome of a single term `d + u` read from the start.
proof fn lemma_term_calc(d: Seq<char>, u: Seq<char>)
    requires
        count_chars(d),
        unit_chars(u),
        u.len() != 0,
    ensures
        spec_run(initial_state(), d + u) == if decimal_value(d) <= i64::MAX {
            Outcome::Next(DurationState { duration: 0, current_unit: u, count: decimal_value(d) })
        } else {
            Outcome::Panic
        },
{
    lemma_run_term(initial_state(), d, u);
}

/// Seconds in one of a unit, written out: a minute is 60 seconds, an hour
/// 60 minutes, a day 24 hours, a week 7 days, a month 30 days and a year 52
/// weeks.
pub open spec fn seconds_in(unit: TimeUnit) -> int {
    match unit {
        TimeUnit::Second => 1,
        TimeUnit::Minute => 60,
        TimeUnit::Hour => 60int * 60,
        TimeUnit::Day => 24int * 60 * 60,
        TimeUnit::Week => 7int * 24 * 60 * 60,
        TimeUnit::Month => 30int * 24 * 60 * 60,
        TimeUnit::Year => 52int * 7 * 24 * 60 * 60,
    }
}

/// Whether `name` names a unit of `secs` seconds.
pub open spec fn names_unit_of(name: Seq<char>, secs: nat) -> bool {
    unit_for(name) matches Some(u) && seconds_in(u) == secs
}

/// The unit names, by the seconds they stand for: `s`, `sec`, `secs`,
/// `second`, `seconds` a second; `m`, `min`, `mins`, `minute`, `minutes` a
/// minute; `h`, `hr`, `hrs`, `hour`, `hours` an hour; `d`, `day`, `days` a
/// day; `w`, `wk`, `wks`, `week`, `weeks` a week; `mon`, `month`, `months`
/// thirty days; `y`, `yr`, `yrs`, `year`, `years` fifty-two weeks.
pub proof fn law_unit_names()
    ensures
        names_unit_of("s"@, 1),
        names_unit_of("sec"@, 1),
        names_unit_of("secs"@, 1),
        names_unit_of("second"@, 1),
        names_unit_of("seconds"@, 1),
        names_unit_of("m"@, 60),
        names_unit_of("min"@, 60),
        names_unit_of("mins"@, 60),
        names_unit_of("minute"@, 60),
        names_unit_of("minutes"@, 60),
        names_unit_of("h"@, 60 * 60),
        names_unit_of("hr"@, 60 * 60),
        names_unit_of("hrs"@, 60 * 60),
        names_unit_of("hour"@, 60 * 60),
        names_unit_of("hours"@, 60 * 60),
        names_unit_of("d"@, 24 * 60 * 60),
        names_unit_of("day"@, 24 * 60 * 60),
        names_unit_of("days"@, 24 * 60 * 60),
        names_unit_of("w"@, 7 * 24 * 60 * 60),
        names_unit_of("wk"@, 7 * 24 * 60 * 60),
        names_unit_of("wks"@, 7 * 24 * 60 * 60),
        names_unit_of("week"@, 7 * 24 * 60 * 60),
        names_unit_of("weeks"@, 7 * 24 * 60 * 60),
        names_unit_of("mon"@, 30 * 24 * 60 * 60),
        names_unit_of("month"@, 30 * 24 * 60 * 60),
        names_unit_of("months"@, 30 * 24 * 60 * 60),
        names_unit_of("y"@, 52 * 7 * 24 * 60 * 60),
        names_unit_of("yr"@, 52 * 7 * 24 * 60 * 60),
        names_unit_of("yrs"@, 52 * 7 * 24 * 60 * 60),
        names_unit_of("year"@, 52 * 7 * 24 * 60 * 60),
        names_unit_of("years"@, 52 * 7 * 24 * 60 * 60),
{
    reveal_strlit("s");
    reveal_strlit("sec");
    reveal_strlit("secs");
    reveal_strlit("second");
    reveal_strlit("seconds");
    reveal_strlit("m");
    reveal_strlit("min");
    reveal_strlit("mins");
    reveal_strlit("minute");
    reveal_strlit("minutes");
    reveal_strlit("h");
    reveal_strlit("hr");
    reveal_strlit("hrs");
    reveal_strlit("hour");
    reveal_strlit("hours");
    reveal_strlit("d");
    reveal_strlit("day");
    reveal_strlit("days");
    reveal_strlit("w");
    reveal_strlit("wk");
    reveal_strlit("wks");
    reveal_strlit("week");
    reveal_strlit("weeks");
    reveal_strlit("mon");
    reveal_strlit("month");
    reveal_strlit("months");
    reveal_strlit("y");
    reveal_strlit("yr");
    reveal_strlit("yrs");
    reveal_strlit("year");
    reveal_strlit("years");
    assert("h"@[0] != "m"@[0]);
    assert("h"@[0] != "s"@[0]);
    assert("h"@[0] != "w"@[0]);
    assert("h"@[0] != "y"@[0]);
    assert("hr"@[0] != "wk"@[0]);
    assert("hr"@[0] != "yr"@[0]);
    assert("hrs"@[0] != "min"@[0]);
    assert("hrs"@[0] != "sec"@[0]);
    assert("hrs"@[0] != "mon"@[0]);
    assert("hrs"@[0] != "wks"@[0]);
    assert("hrs"@[0] != "yrs"@[0]);
    assert("hours"@[0] != "month"@[0]);
    assert("hours"@[0] != "weeks"@[0]);
    assert("hours"@[0] != "years"@[0]);
    assert("hour"@[0] != "mins"@[0]);
    assert("hour"@[0] != "secs"@[0]);
    assert("hour"@[0] != "week"@[0]);
    assert("hour"@[0] != "year"@[0]);
    assert("m"@[0] != "s"@[0]);
    assert("m"@[0] != "w"@[0]);
    assert("m"@[0] != "y"@[0]);
    assert("min"@[0] != "sec"@[0]);
    assert("min"@[1] != "mon"@[1]);
    assert("min"@[0] != "wks"@[0]);
    assert("min"@[0] != "yrs"@[0]);
    assert("mins"@[0] != "secs"@[0]);
    assert("mins"@[0] != "week"@[0]);
    assert("mins"@[0] != "year"@[0]);
    assert("minute"@[0] != "second"@[0]);
    assert("minute"@[1] != "months"@[1]);
    assert("minutes"@[0] != "seconds"@[0]);
    assert("s"@[0] != "w"@[0]);
    assert("s"@[0] != "y"@[0]);
    assert("sec"@[0] != "wks"@[0]);
    assert("sec"@[0] != "yrs"@[0]);
    assert("secs"@[0] != "week"@[0]);
    assert("secs"@[0] != "year"@[0]);
    assert("d"@[0] != "h"@[0]);
    assert("d"@[0] != "m"@[0]);
    assert("d"@[0] != "s"@[0]);
    assert("d"@[0] != "w"@[0]);
    assert("d"@[0] != "y"@[0]);
    assert("day"@[0] != "hrs"@[0]);
    assert("day"@[0] != "min"@[0]);
    assert("day"@[0] != "sec"@[0]);
    assert("day"@[0] != "mon"@[0]);
    assert("day"@[0] != "wks"@[0]);
    assert("day"@[0] != "yrs"@[0]);
    assert("days"@[0] != "hour"@[0]);
    assert("days"@[0] != "mins"@[0]);
    assert("days"@[0] != "secs"@[0]);
    assert("days"@[0] != "week"@[0]);
    assert("days"@[0] != "year"@[0]);
    assert("mon"@[0] != "sec"@[0]);
    assert("mon"@[0] != "wks"@[0]);
    assert("mon"@[0] != "yrs"@[0]);
    assert("month"@[0] != "weeks"@[0]);
    assert("month"@[0] != "years"@[0]);
    assert("months"@[0] != "second"@[0]);
    assert("w"@[0] != "y"@[0]);
    assert("wk"@[0] != "yr"@[0]);
    assert("wks"@[0] != "yrs"@[0]);
    assert("week"@[0] != "year"@[0]);
    assert("weeks"@[0] != "years"@[0]);
    assert("h"@.len() != "hr"@.len());
    assert("h"@.len() != "hrs"@.len());
    assert("h"@.len() != "hours"@.len());
    assert("h"@.len() != "hour"@.len());
    assert("hr"@.len() != "hrs"@.len());
    assert("hours"@.len() != "hr"@.len());
    assert("hours"@.len() != "hrs"@.len());
    assert("hour"@.len() != "hr"@.len());
    assert("hour"@.len() != "hrs"@.len());
    assert("hour"@.len() != "hours"@.len());
    assert("m"@.len() != "min"@.len());
    assert("m"@.len() != "mins"@.len());
    assert("m"@.len() != "minute"@.len());
    assert("m"@.len() != "minutes"@.len());
    assert("m"@.len() != "mon"@.len());
    assert("m"@.len() != "month"@.len());
    assert("m"@.len() != "months"@.len());
    assert("min"@.len() != "mins"@.len());
    assert("min"@.len() != "minute"@.len());
    assert("min"@.len() != "minutes"@.len());
    assert("min"@.len() != "month"@.len());
    assert("min"@.len() != "months"@.len());
    assert("mins"@.len() != "minute"@.len());
    assert("mins"@.len() != "minutes"@.len());
    assert("mins"@.len() != "mon"@.len());
    assert("mins"@.len() != "month"@.len());
    assert("mins"@.len() != "months"@.len());
    assert("minute"@.len() != "minutes"@.len());
    assert("minute"@.len() != "mon"@.len());
    assert("minute"@.len() != "month"@.len());
    assert("minutes"@.len() != "mon"@.len());
    assert("minutes"@.len() != "month"@.len());
    assert("minutes"@.len() != "months"@.len());
    assert("s"@.len() != "sec"@.len());
    assert("s"@.len() != "secs"@.len());
    assert("s"@.len() != "second"@.len());
    assert("s"@.len() != "seconds"@.len());
    assert("sec"@.len() != "secs"@.len());
    assert("sec"@.len() != "second"@.len());
    assert("sec"@.len() != "seconds"@.len());
    assert("second"@.len() != "secs"@.len());
    assert("second"@.len() != "seconds"@.len());
    assert("seconds"@.len() != "secs"@.len());
    assert("d"@.len() != "day"@.len());
    assert("d"@.len() != "days"@.len());
    assert("day"@.len() != "days"@.len());
    assert("mon"@.len() != "month"@.len());
    assert("mon"@.len() != "months"@.len());
    assert("month"@.len() != "months"@.len());
    assert("w"@.len() != "wk"@.len());
    assert("w"@.len() != "wks"@.len());
    assert("w"@.len() != "week"@.len());
    assert("w"@.len() != "weeks"@.len());
    assert("wk"@.len() != "wks"@.len());
    assert("week"@.len() != "wk"@.len());
    assert("week"@.len() != "wks"@.len());
    assert("week"@.len() != "weeks"@.len());
    assert("weeks"@.len() != "wk"@.len());
    assert("weeks"@.len() != "wks"@.len());
    assert("y"@.len() != "yr"@.len());
    assert("y"@.len() != "yrs"@.len());
    assert("y"@.len() != "year"@.len());
    assert("y"@.len() != "years"@.len());
    assert("yr"@.len() != "yrs"@.len());
    assert("year"@.len() != "yr"@.len());
    assert("year"@.len() != "yrs"@.len());
    assert("year"@.len() != "years"@.len());
    assert("years"@.len() != "yr"@.len());
    assert("years"@.len() != "yrs"@.len());
}

/// A single term is its count times its unit: the text of a decimal count
/// `d` followed by a unit name `u` stands for `n` times the seconds of the
/// unit that the lowercase of `u` names, where `n` is the count's value. It
/// overflows (no result) when `n` does not fit an `i64` or that amount is
/// beyond what a `TimeDelta` holds; a name that names no unit makes the
/// text invalid.
pub proof fn law_term_is_count_times_unit(d: Seq<char>, u: Seq<char>)
    requires
        count_chars(d),
        unit_chars(u),
        u.len() != 0,
    ensures
        unit_for(lowercase_chars(u)) matches Some(unit) ==> conversion(d + u) == if decimal_value(
            d,
        ) > i64::MAX || !representable(decimal_value(d) * seconds_in(unit)) {
            None
        } else {
            Some(Ok::<int, Seq<char>>(decimal_value(d) * seconds_in(unit)))
        },
        unit_for(lowercase_chars(u)) is None ==> conversion(d + u) == if decimal_value(d)
            > i64::MAX {
            None
        } else {
            Some(Err::<int, Seq<char>>("Invalid duration spec:"@ + (d + u)))
        },
{
    lemma_term_calc(d, u);
    lemma_decimal_value_nonneg(d);
    let n = decimal_value(d);
    if n <= i64::MAX {
        let t = DurationState { duration: 0, current_unit: u, count: n };
        assert(unit_check(t) == unit_for(lowercase_chars(u)));
        match unit_for(lowercase_chars(u)) {
            Some(unit) => {
                assert(crate::duration_helper::unit_seconds(unit) == seconds_in(unit));
                if n == 0 {
                    assert(n * seconds_in(unit) == 0);
                }
            },
            None => {},
        }
    }
}

/// The ASCII lowercase of a unit name is still a unit name, and lowering
/// it again changes nothing.
proof fn lemma_lower_unit_name(u: Seq<char>)
    requires
        unit_chars(u),
        ascii_text(u),
    ensures
        unit_chars(lowercase_chars(u)),
        ascii_text(lowercase_chars(u)),
        lowercase_chars(u).len() == u.len(),
        lowercase_chars(lowercase_chars(u)) == lowercase_chars(u),
{
    let l = lowercase_chars(u);
    assert(l == u.map_values(|c: char| ascii_lower(c)));
    assert forall|i: int| 0 <= i < l.len() implies (#[trigger] l[i] as int) < 0x80 && !is_decimal_digit(
        l[i],
    ) && l[i] != '-' && !whitespace_char(l[i]) && ascii_lower(l[i]) == l[i] by {
        assert(l[i] == ascii_lower(u[i]));
        assert((u[i] as int) < 0x80);
        assert(!is_decimal_digit(u[i]) && u[i] != '-' && !whitespace_char(u[i]));
    }
    assert(lowercase_chars(l) =~= l);
}

/// Ten to the power `k`.
pub open spec fn pow10(k: nat) -> int
    decreases k,
{
    if k == 0 {
        1
    } else {
        10 * pow10((k - 1) as nat)
    }
}

proof fn lemma_pow10_positive(k: nat)
    ensures
        pow10(k) >= 1,
    decreases k,
{
    if k > 0 {
        lemma_pow10_positive((k - 1) as nat);
    }
}

/// Reading digits after `-` (a count of -1, nothing pending) builds the
/// negative count `-(10^len + value)`, or overflows below `i64::MIN`.
proof fn lemma_run_negative_count(s: DurationState, d: Seq<char>)
    requires
        s.current_unit.len() == 0,
        s.count == -1,
        count_chars(d),
    ensures
        spec_run(s, d) == if -(pow10(d.len()) + decimal_value(d)) >= i64::MIN {
            Outcome::Next(DurationState { count: -(pow10(d.len()) + decimal_value(d)), ..s })
        } else {
            Outcome::Panic
        },
    decreases d.len(),
{
    if d.len() == 0 {
        assert(DurationState { count: -1, ..s } == s);
    } else {
        let p = d.drop_last();
        let c = d.last();
        assert(count_chars(p)) by {
            assert forall|i: int| 0 <= i < p.len() implies is_decimal_digit(#[trigger] p[i]) by {
                assert(p[i] == d[i]);
            }
        }
        assert(is_decimal_digit(d[d.len() - 1]));
        assert(d =~= p + seq![c]);
        lemma_run_negative_count(s, p);
        lemma_decimal_value_nonneg(p);
        lemma_pow10_positive(p.len());
        law_run_concat(s, p, seq![c]);
        let vp = -(pow10(p.len()) + decimal_value(p));
        let dv = digit_value(c);
        assert(0 <= dv <= 9);
        assert(decimal_value(d) == decimal_value(p) * 10 + dv);
        assert(pow10(d.len()) == 10 * pow10(p.len()));
        assert(-(pow10(d.len()) + decimal_value(d)) == vp * 10 - dv);
        if vp >= i64::MIN {
            let t = DurationState { count: vp, ..s };
            assert(seq![c].drop_first() =~= Seq::<char>::empty());
            assert(seq![c][0] == c);
            assert(c != '-');
            assert(spec_run(t, seq![c]) == match spec_step(t, c, false) {
                Outcome::Next(t2) => spec_run(t2, Seq::<char>::empty()),
                o => o,
            });
        }
    }
}

/// A term after `-` is negative, and its digits count from ten upward:
/// `-` starts a count of -1 that the digits extend, so `-d` is minus one
/// day and `-5d` minus fifteen days. The text `-` + `d` + `u` stands for
/// `-(10^len(d) + n)` times the unit's seconds, where `n` is the value of
/// `d`; it overflows when that count is below `i64::MIN` or the amount is
/// beyond what a `TimeDelta` holds.
pub proof fn law_minus_term(d: Seq<char>, u: Seq<char>, unit: TimeUnit)
    requires
        count_chars(d),
        unit_chars(u),
        u.len() != 0,
        unit_for(lowercase_chars(u)) == Some(unit),
    ensures
        conversion(seq!['-'] + d + u) == if -(pow10(d.len()) + decimal_value(d)) < i64::MIN
            || !representable(-(pow10(d.len()) + decimal_value(d)) * seconds_in(unit)) {
            None
        } else {
            Some(Ok::<int, Seq<char>>(-(pow10(d.len()) + decimal_value(d)) * seconds_in(unit)))
        },
{
    let text = seq!['-'] + d + u;
    let init = initial_state();
    let s1 = DurationState { count: -1, ..init };
    assert(text[0] == '-');
    assert(text.drop_first() =~= d + u);
    assert(!whitespace_char('-'));
    assert(spec_run(init, text) == match spec_step(init, '-', false) {
        Outcome::Next(t) => spec_run(t, d + u),
        o => o,
    });
    assert(spec_step(init, '-', false) == Outcome::Next(s1));
    law_run_concat(s1, d, u);
    lemma_run_negative_count(s1, d);
    lemma_decimal_value_nonneg(d);
    lemma_pow10_positive(d.len());
    let c = -(pow10(d.len()) + decimal_value(d));
    if c >= i64::MIN {
        let t = DurationState { count: c, ..s1 };
        lemma_run_unit(t, u);
        assert(t.current_unit + u =~= u);
        let tu = DurationState { duration: 0, current_unit: u, count: c };
        assert(unit_check(tu) == unit_for(lowercase_chars(u)));
        assert(crate::duration_helper::unit_seconds(unit) == seconds_in(unit));
    }
}

/// A count with no unit adds nothing: a text of digits alone stands for
/// zero seconds, unless its count overflows an `i64`.
pub proof fn law_bare_count(d: Seq<char>)
    requires
        count_chars(d),
    ensures
        conversion(d) == if decimal_value(d) > i64::MAX {
            None
        } else {
            Some(Ok::<int, Seq<char>>(0))
        },
{
    lemma_run_count(initial_state(), d);
}

/// Unit names are read case-insensitively: a term with an ASCII unit name
/// stands for the same seconds (or overflows alike) as the term with the
/// name lowered.
pub proof fn law_unit_case_irrelevant(d: Seq<char>, u: Seq<char>, x: int)
    requires
        count_chars(d),
        unit_chars(u),
        ascii_text(u),
        u.len() != 0,
    ensures
        conversion(d + u) == Some(Ok::<int, Seq<char>>(x)) <==> conversion(
            d + lowercase_chars(u),
        ) == Some(Ok::<int, Seq<char>>(x)),
        conversion(d + u) is None <==> conversion(d + lowercase_chars(u)) is None,
{
    lemma_lower_unit_name(u);
    law_term_is_count_times_unit(d, u);
    law_term_is_count_times_unit(d, lowercase_chars(u));
}

/// Terms add up: when the terms `da + ua` and `db + ub` (a count then a
/// unit name each) stand for `x` and `y` seconds and `x + y` is within range,
/// the text of both stands for `x + y` seconds, with or without whitespace
/// between them; and whitespace between a count and its unit changes
/// nothing.
pub proof fn law_terms_add_up(
    da: Seq<char>,
    ua: Seq<char>,
    db: Seq<char>,
    ub: Seq<char>,
    space: char,
    x: int,
    y: int,
)
    requires
        count_chars(da),
        count_chars(db),
        db.len() != 0,
        unit_chars(ua),
        unit_chars(ub),
        ua.len() != 0,
        ub.len() != 0,
        whitespace_char(space),
        conversion(da + ua) == Some(Ok::<int, Seq<char>>(x)),
        conversion(db + ub) == Some(Ok::<int, Seq<char>>(y)),
        representable(x + y),
    ensures
        conversion(da + ua + db + ub) == Some(Ok::<int, Seq<char>>(x + y)),
        conversion(da + ua + seq![space] + db + ub) == Some(Ok::<int, Seq<char>>(x + y)),
        conversion(da + seq![space] + ua) == Some(Ok::<int, Seq<char>>(x)),
{
    let a = da + ua;
    let b = db + ub;
    lemma_term_calc(da, ua);
    lemma_term_calc(db, ub);
    let va = decimal_value(da);
    let vb = decimal_value(db);
    assert(va <= i64::MAX);
    assert(vb <= i64::MAX);
    let ta = DurationState { duration: 0, current_unit: ua, count: va };
    let tb = DurationState { duration: 0, current_unit: ub, count: vb };
    let t1 = match spec_tally(ta) {
        Outcome::Next(t) => t,
        _ => ta,
    };
    assert(spec_tally(ta) == Outcome::Next(t1));
    assert(t1.duration == x);
    assert(spec_tally(tb) is Next);
    // b read after a's tally
    assert(db[0] == b[0]);
    lemma_run_after_tally(ta, t1, b);
    lemma_run_term(t1, db, ub);
    let tb2 = DurationState { duration: x, current_unit: ub, count: vb };
    assert(spec_run(t1, b) == Outcome::Next(tb2));
    assert(unit_check(tb2) == unit_check(tb));
    assert(spec_tally(tb2) == Outcome::Next(
        DurationState { duration: x + y, current_unit: Seq::empty(), count: 0 },
    ));
    // a + b
    assert(da + ua + db + ub =~= a + b);
    law_run_concat(initial_state(), a, b);
    // a + space + b
    let sb = seq![space] + b;
    assert(da + ua + seq![space] + db + ub =~= a + sb);
    law_run_concat(initial_state(), a, sb);
    assert(sb[0] == space);
    assert(sb.drop_first() =~= b);
    assert(spec_run(ta, sb) == match spec_step(ta, space, true) {
        Outcome::Next(t) => spec_run(t, b),
        o => o,
    });
    // da + space + ua
    let su = seq![space] + ua;
    assert(da + seq![space] + ua =~= da + su);
    law_run_concat(initial_state(), da, su);
    lemma_run_count(initial_state(), da);
    let s1 = DurationState { count: va, ..initial_state() };
    assert(su[0] == space);
    assert(su.drop_first() =~= ua);
    assert(spec_run(s1, su) == match spec_step(s1, space, true) {
        Outcome::Next(t) => spec_run(t, ua),
        o => o,
    });
    lemma_run_unit(s1, ua);
    assert(s1.current_unit + ua =~= ua);
}

} // verus!
