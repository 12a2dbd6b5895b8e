//! Whole-second arithmetic on `chrono::TimeDelta`.
//!
//! A `TimeDelta` holds at most `i64::MAX` milliseconds either way, so a whole
//! number of seconds `s` is representable exactly when
//! `-MAX_SECONDS <= s <= MAX_SECONDS`. Each function below builds the
//! deltas that the duration parser adds up, adds them with `checked_add`,
//! and reads the sum back with `num_seconds`.

use chrono::TimeDelta;
use vstd::prelude::*;

verus! {

/// The largest whole number of seconds that a `TimeDelta` holds
/// (`i64::MAX / 1000`).
pub const MAX_SECONDS: i64 = 9223372036854775;

/// Whether a whole number of seconds is representable as a `TimeDelta`.
pub open spec fn representable(secs: int) -> bool {
    -MAX_SECONDS <= secs <= MAX_SECONDS
}

/// The result of `checked_add` on whole-second deltas, read in seconds.
pub open spec fn checked_total(secs: int) -> Option<i64> {
    if representable(secs) {
        Some(secs as i64)
    } else {
        None
    }
}

/// `TimeDelta::zero().num_seconds()`: the empty delta holds no seconds.
#[verifier::external_body]
pub(crate) fn zero_seconds() -> (r: i64)
    ensures
        r == 0,
{
    TimeDelta::zero().num_seconds()
}

/// `TimeDelta::seconds(total).checked_add(&TimeDelta::seconds(count))`,
/// read back with `num_seconds`. `TimeDelta::seconds` panics outside the
/// representable range; `checked_add` gives `None` when the sum leaves it.
#[verifier::external_body]
pub(crate) fn add_seconds(total: i64, count: i64) -> (r: Option<i64>)
    requires
        representable(total as int),
        representable(count as int),
    ensures
        r == checked_total(total + count),
{
    match TimeDelta::seconds(total).checked_add(&TimeDelta::seconds(count)) {
        Some(d) => Some(d.num_seconds()),
        None => None,
    }
}

/// `TimeDelta::seconds(total).checked_add(&TimeDelta::minutes(count))`,
/// read back with `num_seconds`. `TimeDelta::minutes` panics when
/// `count * 60` overflows or is not representable.
#[verifier::external_body]
pub(crate) fn add_minutes(total: i64, count: i64) -> (r: Option<i64>)
    requires
        representable(total as int),
        representable(count * 60),
    ensures
        r == checked_total(total + count * 60),
{
    match TimeDelta::seconds(total).checked_add(&TimeDelta::minutes(count)) {
        Some(d) => Some(d.num_seconds()),
        None => None,
    }
}

/// `TimeDelta::seconds(total).checked_add(&TimeDelta::hours(count))`,
/// read back with `num_seconds`. `TimeDelta::hours` panics when
/// `count * 3600` overflows or is not representable.
#[verifier::external_body]
pub(crate) fn add_hours(total: i64, count: i64) -> (r: Option<i64>)
    requires
        representable(total as int),
        representable(count * 3600),
    ensures
        r == checked_total(total + count * 3600),
{
    match TimeDelta::seconds(total).checked_add(&TimeDelta::hours(count)) {
        Some(d) => Some(d.num_seconds()),
        None => None,
    }
}

/// `TimeDelta::seconds(total).checked_add(&TimeDelta::days(count))`,
/// read back with `num_seconds`. `TimeDelta::days` panics when
/// `count * 86400` overflows or is not representable.
#[verifier::external_body]
pub(crate) fn add_days(total: i64, count: i64) -> (r: Option<i64>)
    requires
        representable(total as int),
        representable(count * 86400),
    ensures
        r == checked_total(total + count * 86400),
{
    match TimeDelta::seconds(total).checked_add(&TimeDelta::days(count)) {
        Some(d) => Some(d.num_seconds()),
        None => None,
    }
}

/// `TimeDelta::seconds(total).checked_add(&TimeDelta::weeks(count))`,
/// read back with `num_seconds`. `TimeDelta::weeks` panics when
/// `count * 604800` overflows or is not representable.
#[verifier::external_body]
pub(crate) fn add_weeks(total: i64, count: i64) -> (r: Option<i64>)
    requires
        representable(total as int),
        representable(count * 604800),
    ensures
        r == checked_total(total + count * 604800),
{
    match TimeDelta::seconds(total).checked_add(&TimeDelta::weeks(count)) {
        Some(d) => Some(d.num_seconds()),
        None => None,
    }
}

} // verus!
