//! Points on the time line, at nanosecond resolution and without a time zone.

use vstd::prelude::*;

verus! {

/// Seconds since the epoch of the first instant that can be represented
/// (midnight of January 1 of the year -262143).
pub const MIN_SECONDS: i64 = -8_334_601_228_800;

/// Seconds since the epoch of the last second that can be represented
/// (the last second of December 31 of the year 262142).
pub const MAX_SECONDS: i64 = 8_210_266_876_799;

/// Nanoseconds in a second.
pub const NANOS_PER_SECOND: u32 = 1_000_000_000;

/// Nanoseconds in a minute.
pub open spec fn nanos_per_minute() -> int {
    60_000_000_000
}

/// Nanoseconds in a day of 86 400 seconds.
pub open spec fn nanos_per_day() -> int {
    86_400_000_000_000
}

/// The instant, in nanoseconds since the epoch, that lies `nanos`
/// nanoseconds after the whole second `secs`.
pub open spec fn instant_of(secs: int, nanos: int) -> int {
    secs * 1_000_000_000 + nanos
}

/// Whether an instant, in nanoseconds since the epoch, can be held by a
/// [`Timestamp`].
pub open spec fn representable(instant: int) -> bool {
    instant_of(MIN_SECONDS as int, 0) <= instant < instant_of(MAX_SECONDS + 1, 0)
}

/// Whether a pair of seconds and nanoseconds is the normal form of a
/// representable instant.
pub open spec fn valid_parts(secs: int, nanos: int) -> bool {
    MIN_SECONDS <= secs <= MAX_SECONDS && 0 <= nanos < 1_000_000_000
}

/// The number of whole days that lie between `earlier` and `later`, both in
/// nanoseconds since the epoch. A part of a day is dropped, so the result is
/// rounded toward zero; it is negative where `later` precedes `earlier`.
pub open spec fn whole_days(later: int, earlier: int) -> int {
    let delta = later - earlier;
    if delta >= 0 {
        delta / nanos_per_day()
    } else {
        -((-delta) / nanos_per_day())
    }
}

/// Calls `chrono::TimeDelta::try_minutes` and
/// `chrono::NaiveDateTime::checked_add_signed` on the date and time that
/// `chrono::DateTime::from_timestamp` makes of `secs` and `nanos`.
///
/// Trusted: away from leap seconds chrono adds exactly sixty seconds per
/// minute and leaves the nanoseconds alone, and it answers `None` exactly
/// when the sum falls outside the years -262143 to 262142.
#[verifier::external_body]
fn chrono_plus_minutes(secs: i64, nanos: u32, minutes: i64) -> (result: Option<(i64, u32)>)
    requires
        valid_parts(secs as int, nanos as int),
    ensures
        result == (if MIN_SECONDS <= secs + 60 * minutes <= MAX_SECONDS {
            Some(((secs + 60 * minutes) as i64, nanos))
        } else {
            None
        }),
{
    let start = chrono::DateTime::from_timestamp(secs, nanos)?.naive_utc();
    let end = start.checked_add_signed(chrono::TimeDelta::try_minutes(minutes)?)?.and_utc();
    Some((end.timestamp(), end.timestamp_subsec_nanos()))
}

/// Calls `chrono::NaiveDateTime::signed_duration_since` and
/// `chrono::TimeDelta::num_days` on the two dates and times that
/// `chrono::DateTime::from_timestamp` makes of the arguments.
///
/// Trusted: away from leap seconds the difference is exact, and `num_days`
/// divides its whole seconds by 86 400, rounding toward zero.
#[verifier::external_body]
fn chrono_whole_days(later_secs: i64, later_nanos: u32, earlier_secs: i64, earlier_nanos: u32) -> (result: i64)
    requires
        valid_parts(later_secs as int, later_nanos as int),
        valid_parts(earlier_secs as int, earlier_nanos as int),
    ensures
        result == whole_days(
            instant_of(later_secs as int, later_nanos as int),
            instant_of(earlier_secs as int, earlier_nanos as int),
        ),
{
    let later = chrono::DateTime::from_timestamp(later_secs, later_nanos).unwrap().naive_utc();
    let earlier = chrono::DateTime::from_timestamp(earlier_secs, earlier_nanos).unwrap().naive_utc();
    later.signed_duration_since(earlier).num_days()
}

/// A date and time of day without a time zone, as whole seconds since
/// 1970-01-01T00:00:00 and the nanoseconds into that second.
///
/// Its view is the instant in nanoseconds since the epoch.
#[derive(Clone, Copy, Debug, PartialEq, Eq)]
pub struct Timestamp {
    secs: i64,
    nanos: u32,
}

impl View for Timestamp {
    type V = int;

    closed spec fn view(&self) -> int {
        instant_of(self.secs as int, self.nanos as int)
    }
}

impl Timestamp {
    #[verifier::type_invariant]
    spec fn well_formed(self) -> bool {
        valid_parts(self.secs as int, self.nanos as int)
    }

    /// The timestamp `nanos` nanoseconds after the whole second `secs`, or
    /// `None` where the parts are out of range.
    pub fn new(secs: i64, nanos: u32) -> (result: Option<Timestamp>)
        ensures
            result.is_some() <==> valid_parts(secs as int, nanos as int),
            result.is_some() ==> result.unwrap()@ == instant_of(secs as int, nanos as int),
    {
        if MIN_SECONDS <= secs && secs <= MAX_SECONDS && nanos < NANOS_PER_SECOND {
            Some(Timestamp { secs, nanos })
        } else {
            None
        }
    }

    /// Whole seconds since the epoch, rounded down.
    pub fn seconds(&self) -> (result: i64)
        ensures
            result == self@ / 1_000_000_000,
            MIN_SECONDS <= result <= MAX_SECONDS,
    {
        proof {
            use_type_invariant(self);
        }
        self.secs
    }

    /// Nanoseconds into the second.
    pub fn subsec_nanos(&self) -> (result: u32)
        ensures
            result == self@ % 1_000_000_000,
    {
        proof {
            use_type_invariant(self);
        }
        self.nanos
    }

    /// The timestamp `minutes` minutes later (earlier, where negative), or
    /// `None` where that instant cannot be represented.
    pub fn plus_minutes(&self, minutes: i64) -> (result: Option<Timestamp>)
        ensures
            result.is_some() <==> representable(self@ + minutes * nanos_per_minute()),
            result.is_some() ==> result.unwrap()@ == self@ + minutes * nanos_per_minute(),
    {
        proof {
            use_type_invariant(self);
        }
        match chrono_plus_minutes(self.secs, self.nanos, minutes) {
            Some((secs, nanos)) => Some(Timestamp { secs, nanos }),
            None => None,
        }
    }

    /// The number of whole days from `earlier` to this timestamp.
    pub fn whole_days_since(&self, earlier: &Timestamp) -> (result: i64)
        ensures
            result == whole_days(self@, earlier@),
    {
        proof {
            use_type_invariant(self);
            use_type_invariant(earlier);
        }
        chrono_whole_days(self.secs, self.nanos, earlier.secs, earlier.nanos)
    }
}

} // verus!
