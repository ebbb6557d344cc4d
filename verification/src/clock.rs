//! Points in time, and the arithmetic on them that decides when a run is out of date.
//!
//! The civil calendar, the time zone and the arithmetic are those of the `jiff` crate.

use jiff::tz::TimeZone;
use jiff::{Span, Timestamp, Zoned};
use std::time::Instant;
use vstd::prelude::*;

verus! {

/// Nanoseconds in one second.
pub const NANOS_PER_SECOND: i128 = 1_000_000_000;

/// The earliest point in time, in nanoseconds since the Unix epoch.
pub const MIN_NANOS: i128 = -377_705_023_201_000_000_000;

/// The latest point in time, in nanoseconds since the Unix epoch.
pub const MAX_NANOS: i128 = 253_402_207_200_999_999_999;

/// Whether a number of nanoseconds since the Unix epoch is a point in time.
pub open spec fn in_range(nanos: int) -> bool {
    MIN_NANOS <= nanos <= MAX_NANOS
}

/// The point in time `seconds` seconds after `nanos`.
pub open spec fn plus_seconds(nanos: int, seconds: int) -> int {
    nanos + seconds * NANOS_PER_SECOND
}

/// The whole seconds in a number of nanoseconds, rounded toward zero.
pub open spec fn whole_seconds(nanos: int) -> int {
    if nanos >= 0 {
        nanos / (NANOS_PER_SECOND as int)
    } else {
        -((-nanos) / (NANOS_PER_SECOND as int))
    }
}

/// The seconds that are left of a number of nanoseconds once whole hours and whole minutes are
/// taken away, rounded toward zero and with the sign of `nanos`.
pub open spec fn seconds_component(nanos: int) -> int {
    if nanos >= 0 {
        whole_seconds(nanos) % 60
    } else {
        -(whole_seconds(-nanos) % 60)
    }
}

/// Calls `jiff::Zoned::now` and takes from it the nanoseconds since the Unix epoch and the
/// text that its `Display` gives.
///
/// Claimed: the point in time is one that `jiff` can represent; the call panics where the clock of
/// the machine is set to another. Nothing is claimed of which one it is, nor of the text, which
/// rests on the clock and the time zone of the machine.
#[verifier::external_body]
fn zoned_now() -> (now: (i128, String))
    ensures
        in_range(now.0 as int),
{
    let zoned = Zoned::now();
    (zoned.timestamp().as_nanosecond(), zoned.to_string())
}

/// Calls `jiff`'s addition of a `Span` to a `Zoned`, on the zoned time in UTC at `nanos` and the
/// span of `seconds` seconds.
///
/// Claimed: a span of seconds is absolute time, so the sum lies that many seconds later. The
/// addition panics where the sum is out of range.
#[verifier::external_body]
fn zoned_plus_seconds(nanos: i128, seconds: u32) -> (sum: i128)
    requires
        in_range(nanos as int),
        in_range(plus_seconds(nanos as int, seconds as int)),
    ensures
        sum == plus_seconds(nanos as int, seconds as int),
{
    let zoned = Timestamp::from_nanosecond(nanos).unwrap().to_zoned(TimeZone::UTC);
    (zoned + Span::new().seconds(seconds)).timestamp().as_nanosecond()
}

/// Calls `jiff`'s subtraction of one `Zoned` from another, in UTC, and `Span::get_seconds` on the
/// difference.
///
/// Claimed: the difference is spread over hours, minutes and seconds, so its seconds are those
/// beyond the last whole minute, with the sign of the difference.
#[verifier::external_body]
fn zoned_difference_seconds(later: i128, earlier: i128) -> (seconds: i64)
    requires
        in_range(later as int),
        in_range(earlier as int),
    ensures
        seconds == seconds_component(later - earlier),
{
    let later = Timestamp::from_nanosecond(later).unwrap().to_zoned(TimeZone::UTC);
    let earlier = Timestamp::from_nanosecond(earlier).unwrap().to_zoned(TimeZone::UTC);
    (later - earlier).get_seconds()
}

/// Calls `jiff::Zoned::duration_since`, in UTC, and `SignedDuration::as_secs` on the duration.
///
/// Claimed: the result is the number of whole seconds between the two, rounded toward zero.
#[verifier::external_body]
fn zoned_seconds_since(later: i128, earlier: i128) -> (seconds: i64)
    requires
        in_range(later as int),
        in_range(earlier as int),
    ensures
        seconds == whole_seconds(later - earlier),
{
    let later = Timestamp::from_nanosecond(later).unwrap().to_zoned(TimeZone::UTC);
    let earlier = Timestamp::from_nanosecond(earlier).unwrap().to_zoned(TimeZone::UTC);
    later.duration_since(&earlier).as_secs()
}

/// What a [`Moment`] stands for.
pub struct MomentView {
    /// Nanoseconds since the Unix epoch.
    pub nanos: int,
    /// How the moment is written out.
    pub text: Seq<char>,
}

/// A point in time, together with how it is written out in its time zone.
#[derive(Debug)]
pub struct Moment {
    nanos: i128,
    text: String,
}

impl View for Moment {
    type V = MomentView;

    closed spec fn view(&self) -> MomentView {
        MomentView { nanos: self.nanos as int, text: self.text@ }
    }
}

impl Clone for Moment {
    fn clone(&self) -> (moment: Self)
        ensures
            moment == *self,
    {
        proof {
            use_type_invariant(self);
        }
        Moment { nanos: self.nanos, text: self.text.clone() }
    }
}

impl Moment {
    #[verifier::type_invariant]
    spec fn representable(self) -> bool {
        in_range(self.nanos as int)
    }

    /// The moment at `nanos` nanoseconds since the Unix epoch, written out as `text`, where that
    /// is in range.
    pub fn new(nanos: i128, text: String) -> (moment: Option<Moment>)
        ensures
            moment is Some <==> in_range(nanos as int),
            moment matches Some(m) ==> m@ == (MomentView { nanos: nanos as int, text: text@ }),
    {
        if MIN_NANOS <= nanos && nanos <= MAX_NANOS {
            Some(Moment { nanos, text })
        } else {
            None
        }
    }

    /// The present moment, by the clock and the time zone of the machine.
    pub fn now() -> (moment: Moment)
        ensures
            clock_reads(moment@),
            in_range(moment@.nanos),
    {
        let (nanos, text) = zoned_now();
        proof {
            assert(call_ensures(zoned_now, (), (nanos, text)));
        }
        Moment { nanos, text }
    }

    /// Nanoseconds since the Unix epoch.
    pub fn nanos(&self) -> (nanos: i128)
        ensures
            nanos == self@.nanos,
            in_range(nanos as int),
    {
        proof {
            use_type_invariant(self);
        }
        self.nanos
    }

    /// How the moment is written out.
    pub fn text(&self) -> (text: &str)
        ensures
            text@ == self@.text,
    {
        self.text.as_str()
    }

    /// Whether `seconds` seconds after this moment have passed by `now`.
    pub fn passed_by(&self, seconds: u32, now: &Moment) -> (passed: bool)
        requires
            in_range(plus_seconds(self@.nanos, seconds as int)),
        ensures
            passed == (plus_seconds(self@.nanos, seconds as int) <= now@.nanos),
    {
        proof {
            use_type_invariant(self);
        }
        zoned_plus_seconds(self.nanos, seconds) <= now.nanos
    }

    /// Whether `seconds` seconds after this moment is still a point in time.
    pub fn can_add(&self, seconds: u32) -> (fits: bool)
        ensures
            fits == in_range(plus_seconds(self@.nanos, seconds as int)),
    {
        proof {
            use_type_invariant(self);
        }
        self.nanos + (seconds as i128) * NANOS_PER_SECOND <= MAX_NANOS
    }

    /// The seconds, beyond the last whole minute, from `earlier` to this moment.
    pub fn seconds_component_since(&self, earlier: &Moment) -> (seconds: i64)
        ensures
            seconds == seconds_component(self@.nanos - earlier@.nanos),
    {
        proof {
            use_type_invariant(self);
            use_type_invariant(earlier);
        }
        zoned_difference_seconds(self.nanos, earlier.nanos)
    }

    /// The whole seconds from `earlier` to this moment.
    pub fn seconds_since(&self, earlier: &Moment) -> (seconds: i64)
        ensures
            seconds == whole_seconds(self@.nanos - earlier@.nanos),
    {
        proof {
            use_type_invariant(self);
            use_type_invariant(earlier);
        }
        zoned_seconds_since(self.nanos, earlier.nanos)
    }
}

/// Whether `moment` is what the clock and the time zone of the machine may have given.
pub closed spec fn clock_reads(moment: MomentView) -> bool {
    exists|read: (i128, String)| #[trigger]
        call_ensures(zoned_now, (), read) && moment == (MomentView {
            nanos: read.0 as int,
            text: read.1@,
        })
}

/// Whether `now` is a moment that [`Moment::now`] may have given.
pub open spec fn now_reads(now: Moment) -> bool {
    call_ensures(Moment::now, (), now)
}

/// A reading of the monotonic clock, which `std` keeps opaque.
#[verifier::external_type_specification]
#[verifier::external_body]
pub struct ExInstant(Instant);

/// A length of time, in seconds and nanoseconds.
#[derive(Clone, Copy, Debug, PartialEq, Eq, Structural)]
pub struct TimeSpan {
    pub secs: u64,
    pub nanos: u32,
}

impl TimeSpan {
    /// The length in nanoseconds.
    pub open spec fn total_nanos(self) -> int {
        self.secs * NANOS_PER_SECOND + self.nanos
    }

    /// Whether this length is no shorter than `other`.
    pub fn reaches(self, other: TimeSpan) -> (reached: bool)
        ensures
            reached == (self.total_nanos() >= other.total_nanos()),
    {
        (self.secs as i128) * NANOS_PER_SECOND + (self.nanos as i128) >= (other.secs as i128)
            * NANOS_PER_SECOND + (other.nanos as i128)
    }
}

/// Calls `std::time::Instant::now`. Nothing is claimed of the reading.
#[verifier::external_body]
fn instant_now() -> (now: Instant) {
    Instant::now()
}

/// Calls `std::time::Instant::elapsed`.
///
/// Claimed: the nanoseconds beyond the last whole second are fewer than one second. How long it
/// is rests on the clock.
#[verifier::external_body]
fn instant_elapsed(since: &Instant) -> (elapsed: TimeSpan)
    ensures
        elapsed.nanos < NANOS_PER_SECOND,
{
    let elapsed = since.elapsed();
    TimeSpan { secs: elapsed.as_secs(), nanos: elapsed.subsec_nanos() }
}

/// Whether `now` is a reading that the monotonic clock may have given.
pub closed spec fn instant_reads(now: Instant) -> bool {
    call_ensures(instant_now, (), now)
}

/// Whether `elapsed` is what the monotonic clock may have given as the time since `since`.
pub closed spec fn elapsed_reads(since: Instant, elapsed: TimeSpan) -> bool {
    call_ensures(instant_elapsed, (&since,), elapsed)
}

/// Reads the monotonic clock.
pub(crate) fn read_instant() -> (now: Instant)
    ensures
        instant_reads(now),
{
    instant_now()
}

/// Reads how much time has passed, by the monotonic clock, since `since`.
pub(crate) fn read_elapsed(since: &Instant) -> (elapsed: TimeSpan)
    ensures
        elapsed_reads(*since, elapsed),
{
    instant_elapsed(since)
}

} // verus!
