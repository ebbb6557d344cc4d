//! What the arithmetic on moments gives.

use crate::clock::{in_range, Moment, TimeSpan};
use vstd::prelude::*;

verus! {

/// The nanoseconds of a number of seconds.
pub open spec fn nanos_of(seconds: int) -> int {
    1_000_000_000 * seconds
}

/// A moment is what it was made of, and it can be made of what lies between the years -9999 and
/// 9999.
pub proof fn law_moments_keep_what_they_are_made_of(
    nanos: i128,
    text: String,
    made: Option<Moment>,
    number: i128,
    words: &str,
)
    requires
        call_ensures(Moment::new, (nanos, text), made),
        made is Some ==> call_ensures(Moment::nanos, (&made->0,), number),
        made is Some ==> call_ensures(Moment::text, (&made->0,), words),
    ensures
        made is Some <==> -377_705_023_201_000_000_000 <= nanos <= 253_402_207_200_999_999_999,
        made is Some ==> number == nanos && words@ == text@,
{
}

/// A number of seconds has passed if and only if the two moments are at least as far apart.
pub proof fn law_seconds_pass_when_they_are_over(
    moment: Moment,
    seconds: u32,
    now: Moment,
    passed: bool,
)
    requires
        call_ensures(Moment::passed_by, (&moment, seconds, &now), passed),
    ensures
        passed <==> now@.nanos - moment@.nanos >= nanos_of(seconds as int),
{
}

/// Seconds can be added as long as the last point in time is not passed.
pub proof fn law_seconds_can_be_added_up_to_the_last_moment(
    moment: Moment,
    seconds: u32,
    fits: bool,
)
    requires
        in_range(moment@.nanos),
        call_ensures(Moment::can_add, (&moment, seconds), fits),
    ensures
        fits <==> moment@.nanos + nanos_of(seconds as int) <= 253_402_207_200_999_999_999,
{
}

/// Whether `seconds` is a number of nanoseconds in whole seconds, rounded toward zero.
pub open spec fn rounds_to(nanos: int, seconds: int) -> bool {
    if nanos >= 0 {
        nanos_of(seconds) <= nanos < nanos_of(seconds + 1)
    } else {
        nanos_of(seconds - 1) < nanos <= nanos_of(seconds)
    }
}

/// Whether `seconds` is what a number of nanoseconds has beyond the last whole minute.
pub open spec fn beyond_minutes(nanos: int, seconds: int) -> bool {
    &&& nanos >= 0 ==> 0 <= seconds < 60
    &&& nanos <= 0 ==> -60 < seconds <= 0
    &&& exists|minutes: int| #[trigger] rounds_to(nanos, 60 * minutes + seconds)
}

/// The seconds from one moment to another are the time between them, rounded toward zero.
pub proof fn law_seconds_since_are_the_time_between(later: Moment, earlier: Moment, seconds: i64)
    requires
        call_ensures(Moment::seconds_since, (&later, &earlier), seconds),
    ensures
        rounds_to(later@.nanos - earlier@.nanos, seconds as int),
{
}

/// What is left of the time between two moments beyond the last whole minute is less than one, has
/// its sign, and with whole minutes makes up that time.
pub proof fn law_seconds_beyond_minutes(later: Moment, earlier: Moment, seconds: i64)
    requires
        call_ensures(Moment::seconds_component_since, (&later, &earlier), seconds),
    ensures
        beyond_minutes(later@.nanos - earlier@.nanos, seconds as int),
{
    lemma_component(later@.nanos - earlier@.nanos);
}

/// The seconds of a time are those beyond its last whole minute.
pub(crate) proof fn lemma_component(nanos: int)
    ensures
        beyond_minutes(nanos, crate::clock::seconds_component(nanos)),
{
    let whole = crate::clock::whole_seconds(nanos);
    assert(rounds_to(nanos, whole));
    let minutes = if nanos >= 0 {
        whole / 60
    } else {
        -((-whole) / 60)
    };
    assert(60 * minutes + crate::clock::seconds_component(nanos) == whole);
    assert(rounds_to(nanos, 60 * minutes + crate::clock::seconds_component(nanos)));
}

/// A length of time reaches another if and only if it is no shorter, to the nanosecond.
pub proof fn law_lengths_are_compared_to_the_nanosecond(a: TimeSpan, b: TimeSpan, reached: bool)
    requires
        call_ensures(TimeSpan::reaches, (a, b), reached),
    ensures
        reached <==> nanos_of(a.secs as int) + a.nanos >= nanos_of(b.secs as int) + b.nanos,
{
}

} // verus!
