//! What holds of spans, readings and deadlines, in nanoseconds.

use vstd::prelude::*;

use crate::common::deadline::RequestDeadline;
use crate::common::time::{duration_ms, Duration, Instant, SystemTime};

verus! {

/// Milliseconds and seconds are what their names say, and whole milliseconds are
/// rounded down.
pub proof fn law_units(
    count: u64,
    from_millis: Duration,
    from_secs: Duration,
    span: Duration,
    millis: u128,
    clipped: u64,
)
    requires
        call_ensures(Duration::from_millis, (count,), from_millis),
        call_ensures(Duration::from_secs, (count,), from_secs),
        call_ensures(Duration::as_millis, (&span,), millis),
        call_ensures(duration_ms, (span,), clipped),
    ensures
        from_millis.nanos == count * 1_000_000,
        from_secs.nanos == count * 1_000_000_000,
        millis * 1_000_000 <= span.nanos < (millis + 1) * 1_000_000,
        millis <= u64::MAX ==> clipped == millis,
        millis > u64::MAX ==> clipped == u64::MAX,
{
}

/// The reading a span after another lies that span after it, as long as it can
/// be represented, and no time passes backwards.
pub proof fn law_adding_a_span_is_undone(
    start: Instant,
    span: Duration,
    later: Instant,
    passed: Duration,
    backwards: Duration,
)
    requires
        call_ensures(Instant::plus, (start, span), later),
        call_ensures(Instant::since, (later, start), passed),
        call_ensures(Instant::since, (start, later), backwards),
    ensures
        later.nanos >= start.nanos,
        start.nanos + span.nanos <= u128::MAX ==> later.nanos == start.nanos + span.nanos && passed
            == span,
        start.nanos + span.nanos > u128::MAX ==> later.nanos == u128::MAX,
        passed.nanos == later.nanos - start.nanos,
        backwards.nanos == 0,
{
}

/// The time until a wall-clock reading is the difference of the two; none is
/// left once it has passed.
pub proof fn law_time_until_a_date(date: SystemTime, now: SystemTime, left: Duration)
    requires
        call_ensures(SystemTime::until_from, (date, now), left),
    ensures
        ({
            let ahead = (date.secs - now.secs) * 1_000_000_000 + (date.nanos - now.nanos);
            left.nanos == (if ahead > 0 {
                ahead
            } else {
                0
            })
        }),
{
}

/// A deadline passes exactly its timeout after it was set. Until then there is
/// time left, which caps every span; from then on there is none.
pub proof fn law_deadline_passes_after_its_timeout(
    timeout: Duration,
    start: Instant,
    deadline: RequestDeadline,
    now: Instant,
    expired: bool,
    left: Duration,
    longest: Duration,
    capped: Option<Duration>,
)
    requires
        call_ensures(RequestDeadline::from_timeout, (timeout, start), deadline),
        call_ensures(RequestDeadline::is_expired, (&deadline, now), expired),
        call_ensures(RequestDeadline::remaining, (&deadline, now), left),
        call_ensures(RequestDeadline::cap, (&deadline, longest, now), capped),
        start.nanos + timeout.nanos <= u128::MAX,
    ensures
        expired <==> now.nanos >= start.nanos + timeout.nanos,
        !expired ==> left.nanos == start.nanos + timeout.nanos - now.nanos,
        expired ==> left.nanos == 0,
        capped is None <==> expired,
        capped matches Some(span) ==> span.nanos == (if longest.nanos <= left.nanos {
            longest.nanos
        } else {
            left.nanos
        }),
{
}

} // verus!
