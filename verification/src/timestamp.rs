//! Instants on the UTC time line, read as Unix seconds and nanoseconds, and the whole
//! seconds between two of them as chrono measures them.

use vstd::prelude::*;

verus! {

/// Whether chrono has a UTC date-time with this Unix reading: `secs` whole seconds since
/// 1970-01-01T00:00:00Z and `nanos` nanoseconds into that second. It stands for
/// `chrono::DateTime::from_timestamp(secs, nanos).is_some()`.
pub uninterp spec fn is_utc_reading(secs: int, nanos: int) -> bool;

/// The whole seconds that chrono counts from the first reading to the second when they
/// differ and at least one of them lies inside a leap second. It stands for
/// `last.signed_duration_since(first).num_seconds()` on such readings.
pub uninterp spec fn leap_second_span(
    first_secs: int,
    first_nanos: int,
    last_secs: int,
    last_nanos: int,
) -> int;

/// An instant on the UTC time line.
///
/// The reading is the one chrono gives for a `DateTime<Utc>`: whole seconds since the Unix
/// epoch, and nanoseconds into that second. A nanosecond count of one billion or more means
/// that the instant lies inside a leap second.
#[derive(Clone, Copy, Debug, PartialEq, Eq)]
pub struct Timestamp {
    secs: i64,
    nanos: u32,
}

/// Nanoseconds from `first` to `last` on a time line without leap seconds.
pub open spec fn nanos_between(first: Timestamp, last: Timestamp) -> int {
    (last.secs() - first.secs()) * 1_000_000_000 + (last.nanos() - first.nanos())
}

/// The whole seconds in a span of `nanos` nanoseconds, rounded toward zero.
pub open spec fn whole_seconds(nanos: int) -> int {
    if nanos >= 0 {
        nanos / 1_000_000_000
    } else {
        -((-nanos) / 1_000_000_000)
    }
}

/// The whole seconds from `first` to `last`, negative when `last` is the earlier one.
///
/// Between two readings outside leap seconds, and from a reading to itself, this is the
/// difference of the readings rounded toward zero. Otherwise it is whatever chrono's
/// leap-second rules give.
pub open spec fn seconds_between(first: Timestamp, last: Timestamp) -> int {
    if leap_rules_apply(first, last) {
        leap_second_span(first.secs(), first.nanos(), last.secs(), last.nanos())
    } else {
        whole_seconds(nanos_between(first, last))
    }
}

/// Whether chrono's leap-second rules bear on the span from `first` to `last`: the
/// readings differ and at least one of them lies inside a leap second.
pub open spec fn leap_rules_apply(first: Timestamp, last: Timestamp) -> bool {
    (first.in_leap_second() || last.in_leap_second()) && !first.same_reading(last)
}

/// Calls `chrono::DateTime::from_timestamp` and reports whether it returned a date-time.
///
/// Trusted: the answer is the one `is_utc_reading` stands for. Nothing else is claimed of
/// it: which seconds are in range and which nanosecond counts are taken is chrono's rule.
#[verifier::external_body]
fn utc_reading_exists(secs: i64, nanos: u32) -> (r: bool)
    ensures
        r == is_utc_reading(secs as int, nanos as int),
{
    chrono::DateTime::from_timestamp(secs, nanos).is_some()
}

/// Turns both readings back into date-times with `chrono::DateTime::from_timestamp` and
/// calls `DateTime::signed_duration_since` and `TimeDelta::num_seconds` on them.
///
/// Trusted: for two readings outside leap seconds, and for a reading and itself, chrono
/// subtracts the readings and drops the fraction of a second toward zero; with a leap
/// second involved the result is only named. Both readings must be ones chrono has a
/// date-time for, which every `Timestamp` is: then neither conversion fails, and the
/// difference of two such date-times is always within the range of chrono's `TimeDelta`.
#[verifier::external_body]
fn chrono_seconds_between(first: Timestamp, last: Timestamp) -> (r: i64)
    requires
        first.is_valid(),
        last.is_valid(),
    ensures
        leap_rules_apply(first, last) ==> r == leap_second_span(
            first.secs(),
            first.nanos(),
            last.secs(),
            last.nanos(),
        ),
        !leap_rules_apply(first, last) ==> r == whole_seconds(nanos_between(first, last)),
{
    let start = chrono::DateTime::from_timestamp(first.secs, first.nanos).unwrap();
    let end = chrono::DateTime::from_timestamp(last.secs, last.nanos).unwrap();
    end.signed_duration_since(start).num_seconds()
}

impl Timestamp {
    /// Whole seconds since 1970-01-01T00:00:00Z.
    pub closed spec fn secs(self) -> int {
        self.secs as int
    }

    /// Nanoseconds into the second; one billion or more inside a leap second.
    pub closed spec fn nanos(self) -> int {
        self.nanos as int
    }

    /// Every timestamp carries a reading that chrono has a date-time for.
    #[verifier::type_invariant]
    pub closed spec fn is_valid(self) -> bool {
        is_utc_reading(self.secs as int, self.nanos as int)
    }

    /// Whether the instant lies inside a leap second.
    pub open spec fn in_leap_second(self) -> bool {
        self.nanos() >= 1_000_000_000
    }

    /// Whether the two timestamps carry the same reading.
    pub open spec fn same_reading(self, other: Timestamp) -> bool {
        self.secs() == other.secs() && self.nanos() == other.nanos()
    }

    /// The timestamp with the given reading, if chrono has a date-time for it: the seconds
    /// must fall within the years chrono can represent, and a nanosecond count of one
    /// billion or more is only taken in the last second of a minute.
    pub fn new(secs: i64, nanos: u32) -> (r: Option<Timestamp>)
        ensures
            r is Some <==> is_utc_reading(secs as int, nanos as int),
            r matches Some(t) ==> t.secs() == secs && t.nanos() == nanos,
    {
        if utc_reading_exists(secs, nanos) {
            Some(Timestamp { secs, nanos })
        } else {
            None
        }
    }

    /// Whole seconds since the Unix epoch.
    pub fn unix_seconds(&self) -> (r: i64)
        ensures
            r == self.secs(),
    {
        self.secs
    }

    /// Nanoseconds into the second.
    pub fn subsec_nanos(&self) -> (r: u32)
        ensures
            r == self.nanos(),
    {
        self.nanos
    }

    /// The whole seconds from this instant to `later`; negative when `later` is in fact
    /// the earlier of the two.
    pub fn seconds_until(&self, later: &Timestamp) -> (r: i64)
        ensures
            r == seconds_between(*self, *later),
    {
        proof {
            use_type_invariant(self);
            use_type_invariant(later);
        }
        chrono_seconds_between(*self, *later)
    }
}

} // verus!
