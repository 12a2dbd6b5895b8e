//! Parsing of human-written durations such as `1d`, `1d1h`, `90 min` or
//! `2weeks` into a number of seconds.
//!
//! The text is read one character at a time. Digits build up a count, other
//! characters build up a unit name, and whenever a count and a unit are
//! complete the count of that unit is added to the running total (a
//! "tally"). The model of this machine is [`DurationState`]; [`spec_step`],
//! [`spec_tally`] and [`spec_calc`] say what each move does, including the
//! inputs on which the arithmetic would overflow (`Outcome::Panic`).

use crate::text::{decimal_digit, digit_value, is_decimal_digit, is_whitespace, lowercase_chars, push_char, same_text, to_lowercase, whitespace_char};
use crate::time_delta::{add_days, add_hours, add_minutes, add_seconds, add_weeks, representable, zero_seconds, MAX_SECONDS};
use vstd::prelude::*;
use vstd::string::*;

verus! {

/// The units a duration may be written in.
#[derive(Clone, Copy, Debug, PartialEq, Eq, Structural)]
pub enum TimeUnit {
    Minute,
    Hour,
    Second,
    Day,
    Week,
    Month,
    Year,
}

impl TimeUnit {
    /// The unit that a lowercase unit name spells, if any.
    pub fn from_name(name: &str) -> (r: Option<TimeUnit>)
        ensures
            r == unit_for(name@),
    {
        if same_text(name, "h") || same_text(name, "hr") || same_text(name, "hrs") || same_text(
            name,
            "hours",
        ) || same_text(name, "hour") {
            Some(TimeUnit::Hour)
        } else if same_text(name, "m") || same_text(name, "min") || same_text(name, "mins")
            || same_text(name, "minute") || same_text(name, "minutes") {
            Some(TimeUnit::Minute)
        } else if same_text(name, "s") || same_text(name, "sec") || same_text(name, "secs")
            || same_text(name, "second") || same_text(name, "seconds") {
            Some(TimeUnit::Second)
        } else if same_text(name, "d") || same_text(name, "day") || same_text(name, "days") {
            Some(TimeUnit::Day)
        } else if same_text(name, "mon") || same_text(name, "month") || same_text(name, "months") {
            Some(TimeUnit::Month)
        } else if same_text(name, "w") || same_text(name, "wk") || same_text(name, "wks")
            || same_text(name, "week") || same_text(name, "weeks") {
            Some(TimeUnit::Week)
        } else if same_text(name, "y") || same_text(name, "yr") || same_text(name, "yrs")
            || same_text(name, "year") || same_text(name, "years") {
            Some(TimeUnit::Year)
        } else {
            None
        }
    }
}

/// The unit last recognised after a tally from state `s`, when `prev` was
/// the unit last recognised before: the pending unit name's unit where it
/// names one, else `prev`.
pub open spec fn unit_after_tally(s: DurationState, prev: TimeUnit) -> TimeUnit {
    if s.current_unit.len() == 0 {
        prev
    } else {
        match unit_check(s) {
            Some(u) => u,
            None => prev,
        }
    }
}

/// The unit last recognised after reading character `c` from state `s`
/// (`space` telling whether it is whitespace): the moves that tally change
/// it as [`unit_after_tally`] says, the others keep `prev`.
pub open spec fn unit_after_step(s: DurationState, c: char, space: bool, prev: TimeUnit) -> TimeUnit {
    if space || c == '-' || (is_decimal_digit(c) && s.current_unit.len() != 0) {
        unit_after_tally(s, prev)
    } else {
        prev
    }
}

/// Seconds in one unit; a month counts as 30 days and a year as 52 weeks.
pub open spec fn unit_seconds(u: TimeUnit) -> int {
    match u {
        TimeUnit::Second => 1,
        TimeUnit::Minute => 60,
        TimeUnit::Hour => 3600,
        TimeUnit::Day => 86400,
        TimeUnit::Week => 604800,
        TimeUnit::Month => 2592000,
        TimeUnit::Year => 31449600,
    }
}

/// The unit that a (lowercase) unit name stands for.
pub open spec fn unit_for(name: Seq<char>) -> Option<TimeUnit> {
    if name == "h"@ || name == "hr"@ || name == "hrs"@ || name == "hours"@ || name == "hour"@ {
        Some(TimeUnit::Hour)
    } else if name == "m"@ || name == "min"@ || name == "mins"@ || name == "minute"@ || name
        == "minutes"@ {
        Some(TimeUnit::Minute)
    } else if name == "s"@ || name == "sec"@ || name == "secs"@ || name == "second"@ || name
        == "seconds"@ {
        Some(TimeUnit::Second)
    } else if name == "d"@ || name == "day"@ || name == "days"@ {
        Some(TimeUnit::Day)
    } else if name == "mon"@ || name == "month"@ || name == "months"@ {
        Some(TimeUnit::Month)
    } else if name == "w"@ || name == "wk"@ || name == "wks"@ || name == "week"@ || name
        == "weeks"@ {
        Some(TimeUnit::Week)
    } else if name == "y"@ || name == "yr"@ || name == "yrs"@ || name == "year"@ || name
        == "years"@ {
        Some(TimeUnit::Year)
    } else {
        None
    }
}

/// The abstract state of the parser: the seconds tallied so far, the unit
/// name being read, and the count being read.
pub struct DurationState {
    pub duration: int,
    pub current_unit: Seq<char>,
    pub count: int,
}

/// What one move of the parser leads to.
pub enum Outcome {
    /// The move succeeds with this new state.
    Next(DurationState),
    /// The text is not a duration ("Invalid duration spec:...").
    Invalid,
    /// The total leaves the range of a `TimeDelta` ("Invalid duration ...").
    OutOfRange,
    /// The arithmetic overflows: the count does not fit an `i64`, or the
    /// amount of one unit is beyond what a `TimeDelta` holds.
    Panic,
}

/// Whether an integer fits an `i64`.
pub open spec fn fits_i64(x: int) -> bool {
    i64::MIN <= x <= i64::MAX
}

/// The state before any character is read.
pub open spec fn initial_state() -> DurationState {
    DurationState { duration: 0, current_unit: Seq::empty(), count: 0 }
}

/// The unit that the unit name stands for, or `None` when it is not a
/// unit (an empty name with a positive count is refused first).
pub open spec fn unit_check(s: DurationState) -> Option<TimeUnit> {
    if s.current_unit.len() == 0 && s.count > 0 {
        None
    } else {
        unit_for(lowercase_chars(s.current_unit))
    }
}

/// A tally: when a unit name has been read, add `count` of that unit to the
/// total and start afresh; with no unit name, nothing happens.
pub open spec fn spec_tally(s: DurationState) -> Outcome {
    if s.current_unit.len() == 0 {
        Outcome::Next(s)
    } else {
        match unit_check(s) {
            None => Outcome::Invalid,
            Some(u) => {
                if s.count == 0 {
                    Outcome::Next(DurationState { current_unit: Seq::empty(), count: 0, ..s })
                } else if !representable(s.count * unit_seconds(u)) {
                    Outcome::Panic
                } else if !representable(s.duration + s.count * unit_seconds(u)) {
                    Outcome::OutOfRange
                } else {
                    Outcome::Next(
                        DurationState {
                            duration: s.duration + s.count * unit_seconds(u),
                            current_unit: Seq::empty(),
                            count: 0,
                        },
                    )
                }
            },
        }
    }
}

/// Append a decimal digit to the count (a negative count grows downwards).
pub open spec fn push_digit(s: DurationState, d: int) -> Outcome {
    let tens = s.count * 10;
    if !fits_i64(tens) {
        Outcome::Panic
    } else {
        let n = if tens < 0 {
            tens - d
        } else {
            tens + d
        };
        if !fits_i64(n) {
            Outcome::Panic
        } else {
            Outcome::Next(DurationState { count: n, ..s })
        }
    }
}

/// Read one character; `space` is whether it is whitespace.
/// Whitespace tallies; `-` tallies and starts a count of -1; a digit tallies
/// a pending unit and extends the count; anything else extends the unit name.
pub open spec fn spec_step(s: DurationState, c: char, space: bool) -> Outcome {
    if space {
        spec_tally(s)
    } else if c == '-' {
        match spec_tally(s) {
            Outcome::Next(t) => Outcome::Next(DurationState { count: -1, ..t }),
            o => o,
        }
    } else if is_decimal_digit(c) {
        let pre = if s.current_unit.len() != 0 {
            spec_tally(s)
        } else {
            Outcome::Next(s)
        };
        match pre {
            Outcome::Next(t) => push_digit(t, digit_value(c)),
            o => o,
        }
    } else {
        Outcome::Next(DurationState { current_unit: s.current_unit.push(c), ..s })
    }
}

/// Read all characters in turn, stopping at the first that fails.
pub open spec fn spec_run(s: DurationState, cs: Seq<char>) -> Outcome
    decreases cs.len(),
{
    if cs.len() == 0 {
        Outcome::Next(s)
    } else {
        match spec_step(s, cs[0], whitespace_char(cs[0])) {
            Outcome::Next(t) => spec_run(t, cs.drop_first()),
            o => o,
        }
    }
}

/// Read the whole text from the initial state, then tally what is pending.
pub open spec fn spec_calc(text: Seq<char>) -> Outcome {
    match spec_run(initial_state(), text) {
        Outcome::Next(t) => spec_tally(t),
        o => o,
    }
}

/// The message of a failed move, for the duration text `text`.
pub open spec fn failure_text(o: Outcome, text: Seq<char>) -> Seq<char> {
    if o is Invalid {
        "Invalid duration spec:"@ + text
    } else {
        "Invalid duration "@ + text
    }
}

/// How a move's result and new state follow from its outcome.
pub open spec fn settles(
    o: Outcome,
    r: Option<Result<(), String>>,
    before: DurationState,
    after: DurationState,
    text: Seq<char>,
) -> bool {
    match o {
        Outcome::Panic => r is None,
        Outcome::Next(t) => r == Some(Ok::<(), String>(())) && after == t,
        _ => r matches Some(Err(m)) && m@ == failure_text(o, text) && after == before,
    }
}

/// The number of seconds that `text` stands for, or the message that
/// `convert` answers with.
pub open spec fn conversion(text: Seq<char>) -> Option<Result<int, Seq<char>>> {
    match spec_calc(text) {
        Outcome::Panic => None,
        Outcome::Next(t) => Some(Ok(t.duration)),
        o => Some(Err(failure_text(o, text))),
    }
}

/// Whether an `i64` result agrees with a conversion.
pub open spec fn agrees(c: Result<int, Seq<char>>, r: Result<i64, String>) -> bool {
    match c {
        Ok(secs) => r matches Ok(v) && v == secs,
        Err(msg) => r matches Err(m) && m@ == msg,
    }
}

/// A tally settles what it reads: once a tally has succeeded, tallying
/// again changes nothing.
pub proof fn law_tally_settles(s: DurationState)
    requires
        spec_tally(s) is Next,
    ensures
        spec_tally(s) matches Outcome::Next(t) && spec_tally(t) == Outcome::Next(t),
{
}

/// Any spelling of a unit tallies alike: two states with the same total
/// and count whose (non-empty) unit names stand for the same unit tally to
/// the same outcome.
pub proof fn law_spelling_irrelevant(s1: DurationState, s2: DurationState)
    requires
        s1.duration == s2.duration,
        s1.count == s2.count,
        s1.current_unit.len() != 0,
        s2.current_unit.len() != 0,
        unit_check(s1) == unit_check(s2),
    ensures
        spec_tally(s1) == spec_tally(s2),
{
}

/// Reading a text in two pieces is reading the whole text: the run of
/// `a + b` is the run of `a` followed, where it succeeds, by the run of `b`.
pub proof fn law_run_concat(s: DurationState, a: Seq<char>, b: Seq<char>)
    ensures
        spec_run(s, a + b) == match spec_run(s, a) {
            Outcome::Next(t) => spec_run(t, b),
            o => o,
        },
    decreases a.len(),
{
    if a.len() == 0 {
        assert(a + b =~= b);
    } else {
        assert((a + b)[0] == a[0]);
        assert((a + b).drop_first() =~= a.drop_first() + b);
        match spec_step(s, a[0], whitespace_char(a[0])) {
            Outcome::Next(t) => {
                law_run_concat(t, a.drop_first(), b);
            },
            _ => {},
        }
    }
}

/// The total stays representable: every state that a run reaches from a
/// representable total has a representable total.
pub proof fn law_run_keeps_range(s: DurationState, cs: Seq<char>)
    requires
        representable(s.duration),
    ensures
        spec_run(s, cs) matches Outcome::Next(t) ==> representable(t.duration),
    decreases cs.len(),
{
    if cs.len() > 0 {
        match spec_step(s, cs[0], whitespace_char(cs[0])) {
            Outcome::Next(t) => {
                law_run_keeps_range(t, cs.drop_first());
            },
            _ => {},
        }
    }
}

/// The parser's working state for one duration text.
pub struct DurationHelper {
    spec: String,
    duration: i64,
    current_unit: String,
    unit: TimeUnit,
    count: i64,
}

/// Whether `count` units is an amount that a `TimeDelta` holds.
fn amount_fits(count: i64, u: TimeUnit) -> (r: bool)
    ensures
        r == representable(count * unit_seconds(u)),
{
    let per: i64 = match u {
        TimeUnit::Second => 1,
        TimeUnit::Minute => 60,
        TimeUnit::Hour => 3600,
        TimeUnit::Day => 86400,
        TimeUnit::Week => 604800,
        TimeUnit::Month => 2592000,
        TimeUnit::Year => 31449600,
    };
    match count.checked_mul(per) {
        None => false,
        Some(p) => -MAX_SECONDS <= p && p <= MAX_SECONDS,
    }
}

impl DurationHelper {
    /// The abstract state of the parser.
    pub closed spec fn model(&self) -> DurationState {
        DurationState {
            duration: self.duration as int,
            current_unit: self.current_unit@,
            count: self.count as int,
        }
    }

    /// The duration text being parsed.
    pub closed spec fn text(&self) -> Seq<char> {
        self.spec@
    }

    /// The unit last recognised.
    pub closed spec fn last_unit(&self) -> TimeUnit {
        self.unit
    }

    /// The tallied total is a representable number of seconds.
    pub closed spec fn wf(&self) -> bool {
        representable(self.duration as int)
    }

    /// A parser at the start of `duration`.
    pub fn start(duration: &str) -> (r: DurationHelper)
        ensures
            r.wf(),
            r.model() == initial_state(),
            r.text() == duration@,
    {
        let r = DurationHelper {
            duration: zero_seconds(),
            spec: duration.to_owned(),
            count: 0,
            unit: TimeUnit::Second,
            current_unit: String::new(),
        };
        assert(r.model().current_unit =~= Seq::<char>::empty());
        r
    }

    /// The "not a duration" error.
    fn invalid(&self) -> (r: Result<(), String>)
        ensures
            r matches Err(m) && m@ == failure_text(Outcome::Invalid, self.text()),
    {
        Err(String::from_str("Invalid duration spec:").concat(self.spec.as_str()))
    }

    /// The "out of range" error.
    fn out_of_range(&self) -> (r: String)
        ensures
            r@ == failure_text(Outcome::OutOfRange, self.text()),
    {
        String::from_str("Invalid duration ").concat(self.spec.as_str())
    }

    /// Recognise the pending unit name (case-insensitively).
    fn check_unit(&mut self) -> (r: Result<(), String>)
        ensures
            final(self).model() == old(self).model(),
            final(self).text() == old(self).text(),
            final(self).wf() == old(self).wf(),
            match unit_check(old(self).model()) {
                Some(u) => r is Ok && final(self).last_unit() == u,
                None => r matches Err(m) && m@ == failure_text(Outcome::Invalid, old(self).text())
                    && final(self).last_unit() == old(self).last_unit(),
            },
    {
        if self.current_unit.as_str().is_empty() {
            if self.count > 0 {
                return self.invalid();
            }
        }
        let lower = to_lowercase(self.current_unit.as_str());
        match TimeUnit::from_name(lower.as_str()) {
            Some(u) => {
                self.unit = u;
                Ok(())
            },
            None => self.invalid(),
        }
    }

    /// Whether a tally now would overflow: the pending unit name names a
    /// unit and the pending count of it is beyond what a `TimeDelta` holds.
    pub fn tally_would_panic(&self) -> (r: bool)
        ensures
            r == (spec_tally(self.model()) is Panic),
    {
        if self.current_unit.as_str().is_empty() {
            return false;
        }
        let lower = to_lowercase(self.current_unit.as_str());
        match TimeUnit::from_name(lower.as_str()) {
            None => false,
            Some(u) => self.count != 0 && !amount_fits(self.count, u),
        }
    }

    /// Add the pending count of the pending unit to the total, and start a
    /// new count and unit name. With no pending unit name nothing happens.
    /// Fails when the unit name is not a unit, or when the total would leave
    /// the range of a `TimeDelta`; the state is then unchanged.
    pub fn tally(&mut self) -> (r: Result<(), String>)
        requires
            old(self).wf(),
            !(spec_tally(old(self).model()) is Panic),
        ensures
            final(self).wf(),
            final(self).text() == old(self).text(),
            final(self).last_unit() == unit_after_tally(old(self).model(), old(self).last_unit()),
            settles(
                spec_tally(old(self).model()),
                Some(r),
                old(self).model(),
                final(self).model(),
                old(self).text(),
            ),
    {
        if self.current_unit.as_str().is_empty() {
            return Ok(());
        }
        match self.check_unit() {
            Ok(()) => {},
            Err(e) => return Err(e),
        }
        if self.count != 0 {
            let d = match self.unit {
                TimeUnit::Second => add_seconds(self.duration, self.count),
                TimeUnit::Minute => add_minutes(self.duration, self.count),
                TimeUnit::Hour => add_hours(self.duration, self.count),
                TimeUnit::Day => add_days(self.duration, self.count),
                TimeUnit::Week => add_weeks(self.duration, self.count),
                TimeUnit::Month => add_days(self.duration, self.count * 30),
                TimeUnit::Year => {
                    assert(self.count * 52 * 604800 == self.count * 31449600);
                    add_weeks(self.duration, self.count * 52)
                },
            };
            match d {
                Some(d) => self.duration = d,
                None => return Err(self.out_of_range()),
            }
        }
        self.current_unit = String::new();
        self.count = 0;
        assert(self.model().current_unit =~= Seq::<char>::empty());
        Ok(())
    }

    /// Read one character; `space` is whether it is whitespace.
    /// `None` where the arithmetic of the move would overflow.
    pub fn step(&mut self, c: char, space: bool) -> (r: Option<Result<(), String>>)
        requires
            old(self).wf(),
        ensures
            final(self).wf(),
            final(self).text() == old(self).text(),
            r is None ==> final(self).last_unit() == old(self).last_unit(),
            r is Some ==> final(self).last_unit() == unit_after_step(
                old(self).model(),
                c,
                space,
                old(self).last_unit(),
            ),
            settles(
                spec_step(old(self).model(), c, space),
                r,
                old(self).model(),
                final(self).model(),
                old(self).text(),
            ),
    {
        if space {
            if self.tally_would_panic() {
                return None;
            }
            Some(self.tally())
        } else if c == '-' {
            if self.tally_would_panic() {
                return None;
            }
            match self.tally() {
                Ok(()) => {},
                Err(e) => return Some(Err(e)),
            }
            self.count = -1;
            Some(Ok(()))
        } else if decimal_digit(c) {
            if !self.current_unit.as_str().is_empty() {
                if self.tally_would_panic() {
                    return None;
                }
                match self.tally() {
                    Ok(()) => {},
                    Err(e) => return Some(Err(e)),
                }
            }
            let d: i64 = ((c as u32) - ('0' as u32)) as i64;
            match self.count.checked_mul(10) {
                None => None,
                Some(tens) => {
                    let n = if tens < 0 {
                        tens.checked_sub(d)
                    } else {
                        tens.checked_add(d)
                    };
                    match n {
                        None => None,
                        Some(n) => {
                            self.count = n;
                            Some(Ok(()))
                        },
                    }
                },
            }
        } else {
            push_char(&mut self.current_unit, c);
            Some(Ok(()))
        }
    }

    /// Calculate the number of seconds in the duration text (1day =
    /// 24*60*60): read the whole text and tally what is pending; `None` where
    /// the arithmetic would overflow. The text itself is kept.
    fn calc(&mut self) -> (r: Option<Result<i64, String>>)
        requires
            old(self).wf(),
            old(self).model() == initial_state(),
        ensures
            final(self).wf(),
            final(self).text() == old(self).text(),
            match spec_calc(old(self).text()) {
                Outcome::Panic => r is None,
                Outcome::Next(t) => r matches Some(Ok(v)) && v == t.duration && final(self).model()
                    == t,
                o => r matches Some(Err(m)) && m@ == failure_text(o, old(self).text()),
            },
    {
        let ghost text = self.text();
        assert(text.skip(0) =~= text);
        let n = self.spec.as_str().unicode_len();
        let mut i: usize = 0;
        while i < n
            invariant
                self.wf(),
                self.text() == text,
                old(self).text() == text,
                n == text.len(),
                i <= n,
                spec_run(initial_state(), text) == spec_run(self.model(), text.skip(i as int)),
            decreases n - i,
        {
            let c = self.spec.as_str().get_char(i);
            let space = is_whitespace(c);
            proof {
                assert(text.skip(i as int)[0] == c);
                assert(text.skip(i as int).drop_first() =~= text.skip(i + 1));
            }
            let ghost before = self.model();
            let moved = self.step(c, space);
            proof {
                assert(spec_run(before, text.skip(i as int)) == match spec_step(before, c, space) {
                    Outcome::Next(t) => spec_run(t, text.skip(i + 1)),
                    o => o,
                });
            }
            match moved {
                None => return None,
                Some(Err(e)) => return Some(Err(e)),
                Some(Ok(())) => {},
            }
            i = i + 1;
        }
        assert(text.skip(i as int) =~= Seq::<char>::empty());
        if self.tally_would_panic() {
            return None;
        }
        match self.tally() {
            Err(e) => Some(Err(e)),
            Ok(()) => Some(Ok(self.duration)),
        }
    }

    /// Convert a duration text into a number of seconds.
    ///
    /// Counts and units may follow each other (`1d1h`) or be parted by
    /// whitespace; units are read case-insensitively. A count without a unit
    /// adds nothing, and `-` starts a count of -1 (so `-d` is minus a day).
    /// Texts whose arithmetic would overflow are left out by `requires`;
    /// [`DurationHelper::would_panic`] tells them apart.
    pub fn convert(duration: &str) -> (r: Result<i64, String>)
        requires
            !(spec_calc(duration@) is Panic),
        ensures
            conversion(duration@) matches Some(c) && agrees(c, r),
    {
        let mut t = DurationHelper::start(duration);
        match t.calc() {
            Some(Ok(secs)) => Ok(secs),
            Some(Err(e)) => Err(e),
            None => Err(String::new()),
        }
    }

    /// Whether converting `duration` would overflow: a count that does not
    /// fit an `i64`, or an amount of one unit beyond what a `TimeDelta` holds.
    pub fn would_panic(duration: &str) -> (r: bool)
        ensures
            r == (spec_calc(duration@) is Panic),
            r == (conversion(duration@) is None),
    {
        let mut t = DurationHelper::start(duration);
        t.calc().is_none()
    }
}

} // verus!
