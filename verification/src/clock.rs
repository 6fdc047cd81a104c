//! Points in time, the system clock, and how a point in time reads on a
//! clock in Melbourne.
//!
//! Time is kept as plain integers so that the arithmetic on it is verified.
//! The two things that only the time-zone database and the operating system
//! know are asked of `chrono` and `chrono-tz` here, and nowhere else.

use chrono::TimeZone;
use vstd::prelude::*;

verus! {

/// The timestamp of the first second that can be rendered:
/// midnight on 1 January of the year -262143, UTC.
pub const EARLIEST_SECS: i64 = -8_334_601_228_800;

/// The timestamp of the last second that can be rendered:
/// the last second of the year 262142, UTC.
pub const LATEST_SECS: i64 = 8_210_266_876_799;

/// One second, in nanoseconds.
pub const NANOS_PER_SEC: u32 = 1_000_000_000;

/// Whether the second with timestamp `secs` lies in the years that can be rendered.
pub open spec fn renderable(secs: int) -> bool {
    EARLIEST_SECS <= secs <= LATEST_SECS
}

/// A point in time: whole seconds since 1970-01-01T00:00:00Z, leap seconds
/// not counted, and the nanoseconds past that second.
#[derive(Clone, Copy, Debug, PartialEq, Eq)]
pub struct Instant {
    secs: i64,
    nanos: u32,
}

impl Instant {
    #[verifier::type_invariant]
    spec fn valid(self) -> bool {
        self.nanos < NANOS_PER_SEC
    }

    /// The whole seconds since the epoch.
    pub closed spec fn spec_secs(self) -> i64 {
        self.secs
    }

    /// The nanoseconds past the whole second.
    pub closed spec fn spec_nanos(self) -> u32 {
        self.nanos
    }

    /// Whether the sub-second part is below one second, as it is in every
    /// `Instant` that executable code holds.
    pub open spec fn wf(self) -> bool {
        self.spec_nanos() < NANOS_PER_SEC
    }

    /// The instant `nanos` nanoseconds past the second `secs`, or `None`
    /// where `nanos` is a second or more.
    pub fn new(secs: i64, nanos: u32) -> (r: Option<Instant>)
        ensures
            r is Some <==> nanos < NANOS_PER_SEC,
            r matches Some(at) ==> at.spec_secs() == secs && at.spec_nanos() == nanos && at.wf(),
    {
        if nanos < NANOS_PER_SEC {
            Some(Instant { secs, nanos })
        } else {
            None
        }
    }

    /// The whole seconds since the epoch.
    #[verifier::when_used_as_spec(spec_secs)]
    pub fn secs(self) -> (r: i64)
        ensures
            r == self.spec_secs(),
    {
        self.secs
    }

    /// The nanoseconds past the whole second.
    #[verifier::when_used_as_spec(spec_nanos)]
    pub fn nanos(self) -> (r: u32)
        ensures
            r == self.spec_nanos(),
            r < NANOS_PER_SEC,
    {
        proof {
            use_type_invariant(&self);
        }
        self.nanos
    }
}

/// The start of 1970, as a ghost value.
pub proof fn epoch() -> (at: Instant)
    ensures
        at.spec_secs() == 0,
        at.spec_nanos() == 0,
        at.wf(),
{
    Instant { secs: 0, nanos: 0 }
}

/// The RFC 3339 text, with UTC offset, of the wall-clock time in Melbourne at
/// `nanos` nanoseconds past the second with timestamp `secs`.
///
/// This is what `chrono` and the time-zone database of `chrono-tz` make of the
/// instant; it is not defined here.
pub uninterp spec fn melbourne_rfc3339(secs: int, nanos: int) -> Seq<char>;

/// Renders an instant as Melbourne wall-clock time.
///
/// Calls `TimeZone::timestamp_opt` on `chrono_tz::Australia::Melbourne`, then
/// `DateTime::to_rfc3339`. Trusted: `timestamp_opt` gives a single date-time
/// exactly for the seconds between `EARLIEST_SECS` and `LATEST_SECS`, the
/// years that `chrono` can hold, when `nanos` is below one second; and the
/// text depends on `secs` and `nanos` alone, the zone's rules being compiled
/// into `chrono-tz`.
#[verifier::external_body]
pub(crate) fn render_melbourne(secs: i64, nanos: u32) -> (r: Option<String>)
    requires
        nanos < NANOS_PER_SEC,
    ensures
        r is Some <==> renderable(secs as int),
        r matches Some(text) ==> text@ == melbourne_rfc3339(secs as int, nanos as int),
{
    match chrono_tz::Australia::Melbourne.timestamp_opt(secs, nanos) {
        chrono::MappedLocalTime::Single(at) => Some(at.to_rfc3339()),
        chrono::MappedLocalTime::Ambiguous(_, _) => None,
        chrono::MappedLocalTime::None => None,
    }
}

/// Reads the system clock.
///
/// Calls `chrono::Utc::now`, then `DateTime::timestamp` and
/// `DateTime::timestamp_subsec_nanos`. Trusted: the clock's reading is never
/// in a leap second, so its sub-second part is below one second, and it lies
/// in the years that can be rendered. `Utc::now` panics where the system
/// clock is set before 1970.
#[verifier::external_body]
pub(crate) fn now_utc() -> (r: Instant)
    ensures
        r.wf(),
        renderable(r.spec_secs() as int),
{
    let now = chrono::Utc::now();
    Instant { secs: now.timestamp(), nanos: now.timestamp_subsec_nanos() }
}

} // verus!
