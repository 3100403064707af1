//! Instants in UTC, as the service reports and expects them.
use vstd::prelude::*;

verus! {

/// The first day (counted from 1970-01-01 as day 0) that `chrono` can
/// represent: 1 January of the year -262143.
pub open spec fn chrono_first_day() -> int {
    -96465292
}

/// The last day (counted from 1970-01-01 as day 0) that `chrono` can
/// represent: 31 December of the year 262142.
pub open spec fn chrono_last_day() -> int {
    95026236
}

/// Whether `chrono` can represent the UTC instant `secs` seconds (and
/// `nanos` nanoseconds) after the Unix epoch: its day lies between the
/// first and last day of `chrono`'s years, and the nanoseconds are below
/// one billion, or below two billion in the last second of a minute (a
/// leap second).
pub open spec fn chrono_timestamp_in_range(secs: i64, nanos: u32) -> bool {
    &&& chrono_first_day() <= secs / 86400 <= chrono_last_day()
    &&& (nanos < 1_000_000_000 || (nanos < 2_000_000_000 && secs % 60 == 59))
}

/// What `chrono` reads from `text` under the `strftime`-style `format`,
/// taken as a UTC instant: seconds and nanoseconds since the Unix epoch, or
/// `None` where the text does not fit the format.
pub uninterp spec fn chrono_naive_parse(text: Seq<char>, format: Seq<char>) -> Option<(i64, u32)>;

/// The RFC 3339 text that `chrono` writes for a UTC instant, such as
/// `2025-01-01T23:59:59+00:00`.
pub uninterp spec fn chrono_rfc3339(secs: i64, nanos: u32) -> Seq<char>;

/// The instant `chrono` reaches when it adds the span of `delta_secs`
/// seconds and `delta_nanos` nanoseconds to a UTC instant, or `None` where
/// the result leaves its range. Where the instant is not a leap second this
/// is [`shifted`].
pub uninterp spec fn chrono_add_span(secs: i64, nanos: u32, delta_secs: i64, delta_nanos: u32) -> Option<
    (i64, u32),
>;

/// Whether `chrono`'s `TimeDelta` can hold the span of `secs` seconds and
/// `nanos` nanoseconds (a positive part below one second): at most
/// `i64::MAX` milliseconds either way.
pub open spec fn span_in_range(secs: i64, nanos: u32) -> bool {
    &&& nanos < 1_000_000_000
    &&& -9_223_372_036_854_776 <= secs <= 9_223_372_036_854_775
    &&& secs == 9_223_372_036_854_775 ==> nanos <= 807_000_000
    &&& secs == -9_223_372_036_854_776 ==> nanos >= 193_000_000
}

/// The instant `secs`, `nanos` moved by the span `delta_secs`,
/// `delta_nanos`: the two added as numbers of nanoseconds, where the sum is
/// an instant `chrono` can represent.
pub open spec fn shifted(secs: i64, nanos: u32, delta_secs: i64, delta_nanos: u32) -> Option<(i64, u32)> {
    let total = (secs + delta_secs) * 1_000_000_000 + nanos + delta_nanos;
    let s = total / 1_000_000_000;
    let f = total % 1_000_000_000;
    if i64::MIN <= s <= i64::MAX && chrono_timestamp_in_range(s as i64, f as u32) {
        Some((s as i64, f as u32))
    } else {
        None
    }
}

/// Whether `DateTime::<Utc>::from_timestamp(secs, nanos)` gives an instant.
///
/// Trusted: `from_timestamp` splits `secs` into a day and a second of the
/// day (Euclidean division by 86400), accepts the day where its year lies
/// in `chrono`'s year range, and accepts the time where the nanoseconds are
/// below one billion, or below two billion in the 59th second of a minute;
/// the contract states exactly that.
#[verifier::external_body]
fn timestamp_in_range(secs: i64, nanos: u32) -> (r: bool)
    ensures
        r == chrono_timestamp_in_range(secs, nanos),
{
    chrono::DateTime::from_timestamp(secs, nanos).is_some()
}

/// `NaiveDateTime::parse_from_str(text, format)`, read as UTC
/// (`and_utc`) and converted to seconds and nanoseconds.
///
/// Trusted: the result is the named function of the two texts. Its one
/// stated fact, that a parsed instant is in range, is `chrono`'s documented
/// round trip between `timestamp` and `from_timestamp`.
#[verifier::external_body]
fn naive_parse(text: &str, format: &str) -> (r: std::result::Result<(i64, u32), chrono::ParseError>)
    ensures
        r is Ok <==> chrono_naive_parse(text@, format@) is Some,
        r matches Ok(t) ==> chrono_naive_parse(text@, format@) == Some(t)
            && chrono_timestamp_in_range(t.0, t.1),
{
    match chrono::NaiveDateTime::parse_from_str(text, format) {
        Ok(naive) => Ok((naive.and_utc().timestamp(), naive.and_utc().timestamp_subsec_nanos())),
        Err(e) => Err(e),
    }
}

/// `DateTime::<Utc>::to_rfc3339` of an instant in range.
///
/// Trusted: the result is the named function of the instant.
#[verifier::external_body]
fn rfc3339(secs: i64, nanos: u32) -> (r: String)
    requires
        chrono_timestamp_in_range(secs, nanos),
    ensures
        r@ == chrono_rfc3339(secs, nanos),
{
    chrono::DateTime::from_timestamp(secs, nanos).unwrap().to_rfc3339()
}

/// `DateTime::<Utc>::checked_add_signed` with the `TimeDelta` of
/// `delta_secs` seconds and `delta_nanos` nanoseconds (`TimeDelta::new`).
///
/// Trusted: the result is the named function of its arguments, and an
/// instant it gives is in range. For an instant that is not a leap second,
/// `chrono` adds the time of day and the span as nanoseconds, carries whole
/// days into the date, and fails exactly where the date leaves its range;
/// the contract states that result as [`shifted`]. What it does from within
/// a leap second is left to the name.
#[verifier::external_body]
fn add_span(secs: i64, nanos: u32, delta_secs: i64, delta_nanos: u32) -> (r: Option<(i64, u32)>)
    requires
        chrono_timestamp_in_range(secs, nanos),
        span_in_range(delta_secs, delta_nanos),
    ensures
        r == chrono_add_span(secs, nanos, delta_secs, delta_nanos),
        r matches Some(t) ==> chrono_timestamp_in_range(t.0, t.1),
        nanos < 1_000_000_000 ==> r == shifted(secs, nanos, delta_secs, delta_nanos),
{
    let start = chrono::DateTime::from_timestamp(secs, nanos).unwrap();
    let span = chrono::TimeDelta::new(delta_secs, delta_nanos).unwrap();
    let moved = start.checked_add_signed(span)?;
    Some((moved.timestamp(), moved.timestamp_subsec_nanos()))
}

/// A span of time as `chrono`'s `TimeDelta` holds it: whole seconds (of
/// either sign) and a positive part below one second.
#[derive(Debug, Clone, Copy, PartialEq, Eq, Structural)]
pub struct TimeSpan {
    secs: i64,
    nanos: u32,
}

impl TimeSpan {
    /// Only spans that `chrono` can hold are values of this type.
    #[verifier::type_invariant]
    spec fn in_range(self) -> bool {
        span_in_range(self.secs, self.nanos)
    }

    /// The whole seconds.
    pub closed spec fn spec_secs(self) -> i64 {
        self.secs
    }

    /// The nanoseconds beyond the whole seconds.
    pub closed spec fn spec_nanos(self) -> u32 {
        self.nanos
    }

    /// The span of `secs` seconds and `nanos` nanoseconds, where `chrono`
    /// can hold it.
    pub fn new(secs: i64, nanos: u32) -> (r: Option<TimeSpan>)
        ensures
            r is Some <==> span_in_range(secs, nanos),
            r matches Some(t) ==> t.spec_secs() == secs && t.spec_nanos() == nanos,
    {
        if nanos >= 1_000_000_000 || secs < -9_223_372_036_854_776 || secs > 9_223_372_036_854_775 {
            return None;
        }
        if secs == 9_223_372_036_854_775 && nanos > 807_000_000 {
            return None;
        }
        if secs == -9_223_372_036_854_776 && nanos < 193_000_000 {
            return None;
        }
        Some(TimeSpan { secs, nanos })
    }

    /// The whole seconds.
    pub fn secs(&self) -> (r: i64)
        ensures
            r == self.spec_secs(),
    {
        self.secs
    }

    /// The nanoseconds beyond the whole seconds.
    pub fn nanos(&self) -> (r: u32)
        ensures
            r == self.spec_nanos(),
    {
        self.nanos
    }
}

/// A UTC instant: seconds and nanoseconds after 1970-01-01T00:00:00Z.
#[derive(Debug, Clone, Copy, PartialEq, Eq, Structural)]
pub struct UtcDateTime {
    secs: i64,
    nanos: u32,
}

/// Seconds in a day.
pub const SECONDS_PER_DAY: i64 = 86400;

/// The last second of the UTC day that contains second `secs`.
pub open spec fn end_of_day_secs(secs: int) -> int {
    (secs / 86400) * 86400 + 86399
}

/// Where `chrono` puts `now` moved by `span`: the sum of the two, counted
/// in nanoseconds, unless `now` is a leap second.
pub open spec fn moved(now: UtcDateTime, span: TimeSpan) -> Option<(i64, u32)> {
    if now.spec_nanos() < 1_000_000_000 {
        shifted(now.spec_secs(), now.spec_nanos(), span.spec_secs(), span.spec_nanos())
    } else {
        chrono_add_span(now.spec_secs(), now.spec_nanos(), span.spec_secs(), span.spec_nanos())
    }
}

impl UtcDateTime {
    /// Only instants that `chrono` can represent are values of this type.
    #[verifier::type_invariant]
    spec fn in_range(self) -> bool {
        chrono_timestamp_in_range(self.secs, self.nanos)
    }

    /// Seconds since the epoch.
    pub closed spec fn spec_secs(self) -> i64 {
        self.secs
    }

    /// Nanoseconds within the second.
    pub closed spec fn spec_nanos(self) -> u32 {
        self.nanos
    }

    /// The instant `secs` seconds and `nanos` nanoseconds after the epoch,
    /// where `chrono` can represent it.
    pub fn from_timestamp(secs: i64, nanos: u32) -> (r: Option<UtcDateTime>)
        ensures
            r is Some <==> chrono_timestamp_in_range(secs, nanos),
            r matches Some(t) ==> t.spec_secs() == secs && t.spec_nanos() == nanos,
    {
        if timestamp_in_range(secs, nanos) {
            Some(UtcDateTime { secs, nanos })
        } else {
            None
        }
    }

    /// Seconds since the epoch.
    pub fn secs(&self) -> (r: i64)
        ensures
            r == self.spec_secs(),
    {
        self.secs
    }

    /// Nanoseconds within the second.
    pub fn nanos(&self) -> (r: u32)
        ensures
            r == self.spec_nanos(),
    {
        self.nanos
    }

    /// Reads a date and time written as `format` describes, taken as UTC.
    pub fn parse_naive(text: &str, format: &str) -> (r: std::result::Result<UtcDateTime, chrono::ParseError>)
        ensures
            r is Ok <==> chrono_naive_parse(text@, format@) is Some,
            r matches Ok(t) ==> chrono_naive_parse(text@, format@) == Some((t.spec_secs(), t.spec_nanos())),
    {
        match naive_parse(text, format) {
            Ok((secs, nanos)) => Ok(UtcDateTime { secs, nanos }),
            Err(e) => Err(e),
        }
    }

    /// The RFC 3339 text of this instant.
    pub fn to_rfc3339(&self) -> (r: String)
        ensures
            r@ == chrono_rfc3339(self.spec_secs(), self.spec_nanos()),
    {
        proof {
            use_type_invariant(self);
        }
        rfc3339(self.secs, self.nanos)
    }

    /// This instant moved by `span`, where `chrono` can represent the
    /// result.
    pub fn checked_add(&self, span: TimeSpan) -> (r: Option<UtcDateTime>)
        ensures
            match r {
                Some(t) => moved(*self, span) == Some((t.spec_secs(), t.spec_nanos())),
                None => moved(*self, span) is None,
            },
    {
        proof {
            use_type_invariant(self);
            use_type_invariant(&span);
        }
        match add_span(self.secs, self.nanos, span.secs, span.nanos) {
            Some((secs, nanos)) => Some(UtcDateTime { secs, nanos }),
            None => None,
        }
    }

    /// 23:59:59 on the UTC day of this instant.
    pub fn end_of_day(&self) -> (r: UtcDateTime)
        ensures
            r.spec_secs() == end_of_day_secs(self.spec_secs() as int),
            r.spec_nanos() == 0,
    {
        proof {
            use_type_invariant(self);
        }
        let rem = self.secs % SECONDS_PER_DAY;
        let into_day = if rem < 0 { rem + SECONDS_PER_DAY } else { rem };
        let left_in_day = (SECONDS_PER_DAY - 1) - into_day;
        assert(self.secs + left_in_day == end_of_day_secs(self.secs as int)) by (nonlinear_arith)
            requires
                rem == self.secs % 86400 || (rem < 0 && rem + 86400 == self.secs % 86400),
                into_day == self.secs % 86400,
                left_in_day == 86399 - into_day,
        ;
        let secs = self.secs;
        assert(end_of_day_secs(secs as int) / 86400 == secs / 86400) by (nonlinear_arith)
            requires
                end_of_day_secs(secs as int) == (secs / 86400) * 86400 + 86399,
        ;
        assert(end_of_day_secs(secs as int) <= 95026236 * 86400 + 86399) by (nonlinear_arith)
            requires
                end_of_day_secs(secs as int) == (secs / 86400) * 86400 + 86399,
                secs / 86400 <= 95026236,
        ;
        UtcDateTime { secs: self.secs + left_in_day, nanos: 0 }
    }
}

} // verus!
