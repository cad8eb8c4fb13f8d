//! How long until a departure, in whole minutes, with chrono's arithmetic on
//! Unix timestamps. Reading the clock is left to the caller.

use vstd::prelude::*;
use crate::models::Departure;

verus! {

/// The first second that chrono represents (`DateTime::<Utc>::MIN_UTC`,
/// the first day of year -262143).
pub open spec fn chrono_min_secs() -> int {
    -8_334_601_228_800
}

/// The last whole second that chrono represents (`DateTime::<Utc>::MAX_UTC`,
/// the last day of year 262142).
pub open spec fn chrono_max_secs() -> int {
    8_210_266_876_799
}

/// Whether chrono represents the Unix second `secs`, which is when
/// `chrono::DateTime::from_timestamp(secs, 0)` gives a date: from the first
/// day of year -262143 to the last second of year 262142.
pub open spec fn chrono_in_range(secs: i64) -> bool {
    chrono_min_secs() <= secs <= chrono_max_secs()
}

/// Division truncated toward zero, as Rust's `/` on integers does it.
pub open spec fn div_toward_zero(a: int, b: int) -> int {
    if a >= 0 {
        a / b
    } else {
        -((-a) / b)
    }
}

/// The whole minutes from the instant `now_secs` s + `now_nanos` ns to the
/// instant `dep_secs` s (Unix time), truncated toward zero.
pub open spec fn minutes_between(dep_secs: int, now_secs: int, now_nanos: int) -> int {
    div_toward_zero(
        dep_secs * 1_000_000_000 - (now_secs * 1_000_000_000 + now_nanos),
        60_000_000_000,
    )
}

/// The departure second that a time in milliseconds stands for: the whole
/// seconds (truncated toward zero), or the Unix epoch where chrono cannot
/// represent that instant.
pub open spec fn departure_secs(time_ms: i64) -> int {
    let s = div_toward_zero(time_ms as int, 1000);
    if chrono_in_range(s as i64) {
        s
    } else {
        0
    }
}

/// Trusted: asks whether `chrono::DateTime::from_timestamp(secs, 0)` is
/// `Some`. Claimed of chrono: it is exactly when the day of `secs` lies in
/// chrono's contiguous date range, years -262143 to 262142 (`MIN_YEAR`,
/// `MAX_YEAR`), that is from `MIN_UTC` to `MAX_UTC`, which
/// `chrono_in_range` writes out as bounds on the second.
#[verifier::external_body]
fn timestamp_in_range(secs: i64) -> (r: bool)
    ensures
        r == chrono_in_range(secs),
{
    chrono::DateTime::from_timestamp(secs, 0).is_some()
}

/// Trusted: builds `chrono::DateTime::from_timestamp(dep_secs, 0)` and
/// `DateTime::from_timestamp(now_secs, now_nanos)`, and calls
/// `signed_duration_since(..).num_minutes()` on them. Claimed of chrono:
/// a nanosecond part
/// below one second never makes `from_timestamp` fail where the whole
/// second is representable; `signed_duration_since` is the exact
/// difference of the two instants; and `num_minutes` truncates the whole
/// seconds (themselves truncated toward zero) divided by 60 toward zero.
#[verifier::external_body]
fn chrono_minutes_between(dep_secs: i64, now_secs: i64, now_nanos: u32) -> (r: i64)
    requires
        chrono_in_range(dep_secs),
        chrono_in_range(now_secs),
        now_nanos < 1_000_000_000,
    ensures
        r == minutes_between(dep_secs as int, now_secs as int, now_nanos as int),
{
    let dep = chrono::DateTime::from_timestamp(dep_secs, 0).unwrap();
    let now = chrono::DateTime::from_timestamp(now_secs, now_nanos).unwrap();
    dep.signed_duration_since(now).num_minutes()
}

/// The departure second for a time in milliseconds: whole seconds,
/// truncated toward zero, or the Unix epoch where chrono cannot represent
/// the instant.
pub fn departure_seconds(time_ms: i64) -> (r: i64)
    ensures
        r == departure_secs(time_ms),
{
    let s: i64 = time_ms / 1000;
    assert(s == div_toward_zero(time_ms as int, 1000));
    if timestamp_in_range(s) {
        s
    } else {
        0
    }
}

/// The whole minutes until a departure at `time_ms` (Unix milliseconds),
/// seen at the instant `now_secs` s + `now_nanos` ns: truncated toward
/// zero, negative once the departure is past. A departure time that chrono
/// cannot represent counts as the Unix epoch.
pub fn minutes_until(time_ms: i64, now_secs: i64, now_nanos: u32) -> (r: i64)
    requires
        chrono_in_range(now_secs),
        now_nanos < 1_000_000_000,
    ensures
        r == minutes_between(departure_secs(time_ms), now_secs as int, now_nanos as int),
{
    let dep = departure_seconds(time_ms);
    chrono_minutes_between(dep, now_secs, now_nanos)
}

impl Departure {
    /// The whole minutes until this departure, seen at the instant
    /// `now_secs` s + `now_nanos` ns; `None` where that instant is not one
    /// that chrono represents (or the nanoseconds are a second or more).
    pub fn time_to_departure(&self, now_secs: i64, now_nanos: u32) -> (r: Option<i64>)
        ensures
            r is Some <==> (chrono_in_range(now_secs) && now_nanos < 1_000_000_000),
            r is Some ==> r->Some_0 == minutes_between(
                departure_secs(self.time_ms),
                now_secs as int,
                now_nanos as int,
            ),
    {
        if now_nanos < 1_000_000_000 && timestamp_in_range(now_secs) {
            Some(minutes_until(self.time_ms, now_secs, now_nanos))
        } else {
            None
        }
    }
}


/// The minutes until a departure are the whole minutes of the exact
/// difference, truncated toward zero: never more than the difference away
/// from it, less than a minute short of it, and of the same sign.
pub proof fn lemma_minutes_truncate(dep_secs: int, now_secs: int, now_nanos: int)
    ensures
        ({
            let diff = dep_secs * 1_000_000_000 - (now_secs * 1_000_000_000 + now_nanos);
            let r = minutes_between(dep_secs, now_secs, now_nanos);
            &&& diff >= 0 ==> r >= 0 && r * 60_000_000_000 <= diff < (r + 1) * 60_000_000_000
            &&& diff < 0 ==> r <= 0 && (r - 1) * 60_000_000_000 < diff <= r * 60_000_000_000
        }),
{
}

/// The departure second is the second that holds the time in milliseconds,
/// counted toward zero (for a negative time the window reaches up to the
/// second), where chrono represents that second; the Unix epoch otherwise.
pub proof fn lemma_departure_secs(time_ms: i64)
    ensures
        forall|q: i64|
            ((time_ms >= 0 && q * 1000 <= time_ms < q * 1000 + 1000) || (time_ms < 0 && q * 1000
                - 1000 < time_ms <= q * 1000)) ==> (#[trigger] chrono_in_range(q) ==> departure_secs(
                time_ms,
            ) == q) && (!chrono_in_range(q) ==> departure_secs(time_ms) == 0),
        exists|q: i64|
            (time_ms >= 0 && q * 1000 <= time_ms < q * 1000 + 1000) || (time_ms < 0 && q * 1000
                - 1000 < time_ms <= #[trigger] (q * 1000)),
{
    let q: i64 = div_toward_zero(time_ms as int, 1000) as i64;
    assert((time_ms >= 0 && q * 1000 <= time_ms < q * 1000 + 1000) || (time_ms < 0 && q * 1000
        - 1000 < time_ms <= q * 1000));
}

} // verus!
