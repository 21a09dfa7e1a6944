//! Time values as the billing rules hold them: Unix timestamps in seconds.
//! The calls into `time`, `chrono` and the system clock stand here.

use vstd::prelude::*;

verus! {

/// Seconds in a day.
pub const SECONDS_PER_DAY: i64 = 86400;

/// Whether `time::OffsetDateTime::from_unix_timestamp` accepts a timestamp:
/// it must lie between the first moment of `Date::MIN` (-9999-01-01) and the
/// last of `Date::MAX` (9999-12-31) in UTC, the range of `time` without its
/// `large-dates` feature.
pub open spec fn valid_unix_timestamp(ts: i64) -> bool {
    -377_705_116_800 <= ts <= 253_402_300_799
}

/// Whether `time::OffsetDateTime::from_unix_timestamp(ts)` succeeds.
#[verifier::external_body]
pub(crate) fn unix_timestamp_valid(ts: i64) -> (r: bool)
    ensures
        r == valid_unix_timestamp(ts),
{
    time::OffsetDateTime::from_unix_timestamp(ts).is_ok()
}

/// A timestamp read as a date-time, or `now` where it cannot be one: what
/// `from_unix_timestamp(ts).unwrap_or(now)` keeps.
pub open spec fn timestamp_or(ts: i64, now: i64) -> i64 {
    if valid_unix_timestamp(ts) { ts } else { now }
}

/// `from_unix_timestamp(ts).unwrap_or(now)`, in seconds.
pub fn timestamp_or_now(ts: i64, now: i64) -> (r: i64)
    ensures
        r == timestamp_or(ts, now),
{
    if unix_timestamp_valid(ts) { ts } else { now }
}

/// The text `time::OffsetDateTime` displays for a timestamp in UTC
/// (`2024-01-31 0:00:00.0 +00:00:00`).
pub uninterp spec fn datetime_display(ts: i64) -> Seq<char>;

/// Displays a timestamp as `time::OffsetDateTime` does in UTC.
#[verifier::external_body]
fn datetime_text(ts: i64) -> (r: String)
    requires
        valid_unix_timestamp(ts),
    ensures
        r@ == datetime_display(ts),
{
    match time::OffsetDateTime::from_unix_timestamp(ts) {
        Ok(dt) => dt.to_string(),
        Err(_) => String::new(),
    }
}

/// The current time from `time::OffsetDateTime::now_utc`, whole seconds.
/// Nothing is promised of its value, which is the time; it is a moment that
/// `time` represents, since it comes from an `OffsetDateTime`.
#[verifier::external_body]
pub(crate) fn now_utc_seconds() -> (r: i64)
    ensures
        valid_unix_timestamp(r),
{
    time::OffsetDateTime::now_utc().unix_timestamp()
}

/// A moment that `time::OffsetDateTime` can represent, in Unix seconds.
#[derive(Debug, Clone, Copy, PartialEq, Eq)]
pub struct Timestamp {
    secs: i64,
}

impl View for Timestamp {
    type V = i64;

    closed spec fn view(&self) -> i64 {
        self.secs
    }
}

impl Timestamp {
    #[verifier::type_invariant]
    closed spec fn representable(self) -> bool {
        valid_unix_timestamp(self.secs)
    }

    /// `OffsetDateTime::from_unix_timestamp(secs).ok()`.
    pub fn from_unix(secs: i64) -> (r: Option<Timestamp>)
        ensures
            r is Some <==> valid_unix_timestamp(secs),
            r matches Some(t) ==> t@ == secs,
    {
        if unix_timestamp_valid(secs) {
            Some(Timestamp { secs })
        } else {
            None
        }
    }

    /// `OffsetDateTime::from_unix_timestamp(secs).unwrap_or(fallback)`.
    pub fn from_unix_or(secs: i64, fallback: Timestamp) -> (r: Timestamp)
        ensures
            r@ == (if valid_unix_timestamp(secs) { secs } else { fallback@ }),
    {
        match Timestamp::from_unix(secs) {
            Some(t) => t,
            None => fallback,
        }
    }

    /// The current time.
    pub fn now() -> (r: Timestamp)
        ensures
            valid_unix_timestamp(r@),
    {
        Timestamp { secs: now_utc_seconds() }
    }

    /// The Unix seconds of the moment.
    pub fn unix(&self) -> (r: i64)
        ensures
            r == self@,
            valid_unix_timestamp(r),
    {
        proof {
            use_type_invariant(self);
        }
        self.secs
    }

    /// The text `OffsetDateTime` displays for the moment.
    pub fn display(&self) -> (r: String)
        ensures
            r@ == datetime_display(self@),
    {
        proof {
            use_type_invariant(self);
        }
        datetime_text(self.secs)
    }
}

/// Bound on the Unix seconds of any `chrono::DateTime`: its years run from
/// -262143 to 262142, whose timestamps lie strictly within 2^43 seconds of
/// the epoch.
pub const CHRONO_TIMESTAMP_BOUND: i64 = 8_796_093_022_208;

/// The current time from `chrono::Utc::now`, whole seconds. Of its value
/// only the range of `chrono`'s dates is promised: it is the time.
#[verifier::external_body]
pub(crate) fn chrono_now_seconds() -> (r: i64)
    ensures
        -CHRONO_TIMESTAMP_BOUND < r < CHRONO_TIMESTAMP_BOUND,
{
    chrono::Utc::now().timestamp()
}

/// Seconds since the Unix epoch from the system clock, `None` when the clock
/// reads before the epoch. Nothing is promised of the value: it is the time.
#[verifier::external_body]
pub(crate) fn system_clock_seconds() -> (r: Option<u64>) {
    match std::time::SystemTime::now().duration_since(std::time::UNIX_EPOCH) {
        Ok(d) => Some(d.as_secs()),
        Err(_) => None,
    }
}

/// Whole days in a span of seconds, rounded toward zero as
/// `time::Duration::whole_days` does.
pub open spec fn whole_days(secs: int) -> int {
    if secs >= 0 { secs / 86400 } else { -((-secs) / 86400) }
}

/// `time::Duration::whole_days` of a span of seconds.
pub fn whole_days_of(secs: i64) -> (r: i64)
    ensures
        r == whole_days(secs as int),
{
    if secs >= 0 {
        secs / SECONDS_PER_DAY
    } else {
        let m: i128 = 0i128 - (secs as i128);
        (0i128 - m / (SECONDS_PER_DAY as i128)) as i64
    }
}

} // verus!
