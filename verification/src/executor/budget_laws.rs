//! What holds of attempt budgets, waits and bounded bodies.

use vstd::prelude::*;
use vstd::std_specs::iter::IteratorSpec;

use crate::common::text;
use crate::common::text::header_text;
use crate::common::text_laws;
use crate::common::time::{Duration, Instant, SystemTime};
use crate::executor::attempt::AttemptContext;
use crate::executor::bounded_body;
use crate::executor::bounded_body::{
    accumulate_chunks, append_bounded, check_advertised_content_length, transport_error,
    BoundedBody,
};
use crate::executor::budget;
use crate::executor::budget::{
    backoff_window_ms, evaluate_retry_delay, jitter_from, jittered_backoff_ms, parse_retry_after,
    plan_retry_delay, provider_minimum_cannot_fit, retry_after_header_ms, AttemptBudget,
    DelayError, JitterSource, RetryDelay, ScriptedJitter, SystemJitter,
};
use crate::executor::error::ExecutorError;
use crate::executor::vendors::openai::{AfterHeaders, OpenAIVendor};

verus! {

/// A budget lets as many calls start as it was made for, and at least one: each
/// start leaves one fewer, and none starts once none is left.
pub proof fn law_budget_counts_down(
    max_total: u32,
    fresh: AttemptBudget,
    budget: &mut AttemptBudget,
    before: u32,
    may_start: bool,
)
    requires
        call_ensures(AttemptBudget::new, (max_total,), fresh),
        call_ensures(AttemptBudget::remaining, (&*old(budget),), before),
        call_ensures(AttemptBudget::try_start, (budget,), may_start),
    ensures
        fresh.spec_max_total() - fresh.spec_started() == (if max_total == 0 {
            1
        } else {
            max_total as int
        }),
        may_start <==> before > 0,
        final(budget).spec_max_total() - final(budget).spec_started() == before - (if may_start {
            1int
        } else {
            0
        }),
        final(budget).spec_started() == old(budget).spec_started() + (if may_start {
            1int
        } else {
            0
        }),
{
}

/// The backoff window is one second for a first retry and doubles with each
/// later one; the cap clips it at every step.
pub proof fn law_backoff_doubles_up_to_the_cap(
    retry: u32,
    cap_ms: u64,
    first: u64,
    window: u64,
    next: u64,
)
    requires
        call_ensures(backoff_window_ms, (1u32, cap_ms), first),
        1 <= retry < u32::MAX,
        call_ensures(backoff_window_ms, (retry, cap_ms), window),
        call_ensures(backoff_window_ms, ((retry + 1) as u32, cap_ms), next),
    ensures
        first == (if cap_ms < 1000 {
            cap_ms
        } else {
            1000
        }),
        next == (if 2 * window < cap_ms {
            2 * window
        } else {
            cap_ms as int
        }),
        window <= cap_ms,
{
    vstd::arithmetic::power2::lemma2_to64();
    vstd::arithmetic::power2::lemma_pow2_unfold(retry as nat);
}

/// A jittered wait is what the source answers for the window, and never more
/// than the window.
pub proof fn law_jitter_is_drawn_from_the_window<J: JitterSource>(
    retry: u32,
    cap_ms: u64,
    rng: &mut J,
    ms: u64,
    window: u64,
)
    requires
        call_ensures(jittered_backoff_ms::<J>, (retry, cap_ms, rng), ms),
        call_ensures(backoff_window_ms, (retry, cap_ms), window),
    ensures
        ms <= window,
        J::drawn(*old(rng), window, *final(rng), ms),
{
}

/// A raw sample that lies in the window is the wait itself, samples that differ
/// by the size of the window give the same wait, and without a sample there is
/// none.
pub proof fn law_samples_are_reduced(
    raw: u64,
    further: u64,
    upper: u64,
    ms: u64,
    same: u64,
    nothing: u64,
)
    requires
        call_ensures(jitter_from, (Some(raw), upper), ms),
        call_ensures(jitter_from, (Some(further), upper), same),
        call_ensures(jitter_from, (None::<u64>, upper), nothing),
        further == raw + upper + 1,
    ensures
        ms <= upper,
        raw <= upper ==> ms == raw,
        same == ms,
        nothing == 0,
{
    let size = upper as int + 1;
    vstd::arithmetic::div_mod::lemma_mod_add_multiples_vanish(raw as int, size);
    if raw <= upper {
        vstd::arithmetic::div_mod::lemma_small_mod(raw as nat, size as nat);
    }
}

/// A raw sample within the window is kept, in the widest window too, where only
/// the largest number becomes zero.
pub proof fn law_samples_within_the_window_are_kept(raw: u64, upper: u64, ms: u64)
    requires
        call_ensures(jitter_from, (Some(raw), upper), ms),
        raw <= upper,
    ensures
        ms == (if raw == u64::MAX {
            0
        } else {
            raw
        }),
{
    if raw == u64::MAX {
        vstd::arithmetic::div_mod::lemma_mod_self_0(u64::MAX as int);
    } else {
        let size = if upper < u64::MAX {
            upper as nat + 1
        } else {
            u64::MAX as nat
        };
        vstd::arithmetic::div_mod::lemma_small_mod(raw as nat, size);
    }
}

/// The system's jitter may answer any wait below the widest in the window, and
/// none beyond it.
pub proof fn law_system_jitter_covers_the_window(
    before: SystemJitter,
    upper: u64,
    after: SystemJitter,
    ms: u64,
    rng: &mut SystemJitter,
    answer: u64,
)
    requires
        call_ensures(SystemJitter::jitter_ms, (rng, upper), answer),
    ensures
        ms <= upper && ms < u64::MAX ==> SystemJitter::drawn(before, upper, after, ms),
        answer <= upper,
{
    if ms <= upper && ms < u64::MAX {
        let size = if upper < u64::MAX {
            upper as nat + 1
        } else {
            u64::MAX as nat
        };
        vstd::arithmetic::div_mod::lemma_small_mod(ms as nat, size);
        assert(budget::sample_of(Some(ms), upper) == ms);
    }
}

/// Scripted jitter answers its values in order, each clipped to the window, and
/// zero once they are used up.
pub proof fn law_scripted_jitter_replays(
    rng: &mut ScriptedJitter,
    upper: u64,
    ms: u64,
)
    requires
        call_ensures(ScriptedJitter::jitter_ms, (rng, upper), ms),
    ensures
        final(rng).values@ == old(rng).values@,
        old(rng).position < old(rng).values@.len() ==> {
            let next = old(rng).values@[old(rng).position as int];
            &&& ms == (if next < upper {
                next
            } else {
                upper
            })
            &&& final(rng).position == old(rng).position + 1
        },
        old(rng).position >= old(rng).values@.len() ==> ms == 0,
{
}

/// A wait that the provider names is kept as it is and draws no jitter; without
/// one the wait is jittered within the capped window. A wait of nothing is none.
pub proof fn law_provider_wait_comes_before_jitter<J: JitterSource>(
    retry: u32,
    cap: Duration,
    provider: Option<Duration>,
    rng: &mut J,
    delay: RetryDelay,
)
    requires
        call_ensures(plan_retry_delay::<J>, (retry, cap, provider, rng), delay),
    ensures
        provider matches Some(wait) ==> *final(rng) == *old(rng) && if wait.nanos == 0 {
            delay is Immediate
        } else {
            delay == (RetryDelay::Sleep { delay: wait, provider_minimum: true })
        },
        provider is None ==> match delay {
            RetryDelay::Immediate => true,
            RetryDelay::Sleep { delay, provider_minimum } => !provider_minimum && 0 < delay.nanos
                <= cap.nanos && delay.nanos % 1_000_000 == 0,
        },
{
    let whole = cap.nanos as int / 1_000_000;
    assert(whole * 1_000_000 <= cap.nanos);
}

/// A wait that fits into the time left is kept. One that does not is never
/// shortened: the provider's fails as such, any other as an expired deadline.
pub proof fn law_waits_are_never_shortened(
    delay: RetryDelay,
    left: Duration,
    wait: Result<Duration, DelayError>,
)
    requires
        call_ensures(evaluate_retry_delay, (delay, left), wait),
    ensures
        delay is Immediate ==> (wait matches Ok(span) && span.nanos == 0),
        delay matches RetryDelay::Sleep { delay: asked, provider_minimum } ==> {
            &&& wait is Ok <==> asked.nanos <= left.nanos
            &&& wait matches Ok(span) ==> span == asked
            &&& wait matches Err(error) ==> error == (if provider_minimum {
                DelayError::ProviderDelayCannotFit { retry_after: asked }
            } else {
                DelayError::DeadlineExceeded
            })
        },
{
}

/// Only a named wait that is longer than the time left cannot be kept.
pub proof fn law_only_a_longer_wait_cannot_be_kept(
    provider: Option<Duration>,
    left: Duration,
    stuck: bool,
)
    requires
        call_ensures(provider_minimum_cannot_fit, (provider, left), stuck),
    ensures
        provider is None ==> !stuck,
        provider matches Some(wait) ==> (stuck <==> wait.nanos > left.nanos),
{
}

/// A `Retry-After` of `n` seconds, blanks around it aside, asks for `n` seconds,
/// and its header for as many milliseconds.
pub proof fn law_retry_after_reads_seconds(
    n: u64,
    shown: &str,
    now: SystemTime,
    wait: Option<Duration>,
    ms: Option<u64>,
)
    requires
        call_ensures(parse_retry_after, (shown, now), wait),
        call_ensures(retry_after_header_ms, (shown, now), ms),
        text::trimmed(shown@) == text::decimal_text(n as nat),
    ensures
        wait matches Some(span) && span.nanos == n * 1_000_000_000,
        ms matches Some(ms) && ms == (if n * 1000 <= u64::MAX {
            n * 1000
        } else {
            u64::MAX as int
        }),
{
    text_laws::law_decimal_text_reads_back(n as nat);
    assert(n as int * 1_000_000_000 / 1_000_000 == n * 1000) by (nonlinear_arith);
}

/// What a date asks for: the time until it, and nothing once it has passed.
pub open spec fn asks_for_time_until(
    wait: Option<Duration>,
    date: (i64, u32),
    now: SystemTime,
) -> bool {
    let ahead = (date.0 - now.secs) * 1_000_000_000 + (date.1 - now.nanos);
    wait matches Some(span) && span.nanos == (if ahead > 0 {
        ahead
    } else {
        0
    })
}

/// A `Retry-After` that holds a character other than a digit is read as a date:
/// by RFC 2822, else in the first of the four other forms that fits. One that is
/// blank, or no date either, asks for nothing.
pub proof fn law_retry_after_reads_dates(
    shown: &str,
    now: SystemTime,
    wait: Option<Duration>,
    at: int,
)
    requires
        call_ensures(parse_retry_after, (shown, now), wait),
        text_laws::all_blank(shown@) || (0 <= at < text::trimmed(shown@).len() && !('0'
            <= text::trimmed(shown@)[at] <= '9')),
    ensures
        ({
            let date = text::trimmed(shown@);
            let first = budget::utc_timestamp(date, "%a, %d %b %Y %H:%M:%S GMT"@);
            let second = budget::utc_timestamp(date, "%a, %e %b %Y %H:%M:%S GMT"@);
            let third = budget::utc_timestamp(date, "%A, %d-%b-%y %H:%M:%S GMT"@);
            let fourth = budget::utc_timestamp(date, "%a %b %e %H:%M:%S %Y"@);
            if text_laws::all_blank(shown@) {
                wait is None
            } else if let Some(seen) = budget::rfc2822_timestamp(date) {
                asks_for_time_until(wait, seen, now)
            } else if let Some(seen) = first {
                asks_for_time_until(wait, seen, now)
            } else if let Some(seen) = second {
                asks_for_time_until(wait, seen, now)
            } else if let Some(seen) = third {
                asks_for_time_until(wait, seen, now)
            } else if let Some(seen) = fourth {
                asks_for_time_until(wait, seen, now)
            } else {
                wait is None
            }
        }),
{
    text_laws::law_trimmed_text(shown@);
    let date = text::trimmed(shown@);
    reveal_with_fuel(budget::first_utc_timestamp, 6);
    let formats = budget::http_date_formats();
    assert(formats.len() == 4);
    assert(formats[0] == "%a, %d %b %Y %H:%M:%S GMT"@);
    assert(formats[1] == "%a, %e %b %Y %H:%M:%S GMT"@);
    assert(formats[2] == "%A, %d-%b-%y %H:%M:%S GMT"@);
    assert(formats[3] == "%a %b %e %H:%M:%S %Y"@);
}

/// Throttling carries the wait that its `Retry-After` header names, read at the
/// time of the answer; a header that is not text names none.
pub proof fn law_throttling_carries_its_wait(
    vendor: &OpenAIVendor,
    shown: &str,
    bytes: &[u8],
    now: SystemTime,
    after: AfterHeaders,
    read: Option<&str>,
    ms: Option<u64>,
)
    requires
        call_ensures(
            OpenAIVendor::classify_headers,
            (vendor, 429u16, shown, Some(bytes), now),
            after,
        ),
        call_ensures(header_text, (bytes,), read),
        read matches Some(value) ==> call_ensures(retry_after_header_ms, (value, now), ms),
        read is None ==> ms is None,
    ensures
        after matches AfterHeaders::Refine(
            ExecutorError::RateLimitExceeded { retry_after_ms, .. },
        ) && retry_after_ms == ms,
{
}

/// An attempt ends its timeout after it started. What was last observed of it is
/// kept, and a throttled answer's body is waited for half of the time left, at
/// most a tenth of a second.
pub proof fn law_attempt_remembers_what_it_saw(
    timeout: Duration,
    start: Instant,
    fresh: AttemptContext,
    attempt: &mut AttemptContext,
    error: ExecutorError,
    now: Instant,
    seen: Option<ExecutorError>,
    left: Duration,
    window: Duration,
)
    requires
        call_ensures(AttemptContext::from_timeout, (timeout, start), fresh),
        start.nanos + timeout.nanos <= u128::MAX,
        call_ensures(AttemptContext::observe, (attempt, error), ()),
        call_ensures(AttemptContext::observed, (&*final(attempt),), seen),
        call_ensures(AttemptContext::remaining, (&fresh, now), left),
        call_ensures(AttemptContext::refinement_window, (&fresh, now), window),
    ensures
        fresh.cutoff.nanos == start.nanos + timeout.nanos,
        fresh.observed is None,
        seen == Some(error),
        final(attempt).cutoff == old(attempt).cutoff,
        left.nanos == (if now.nanos < start.nanos + timeout.nanos {
            start.nanos + timeout.nanos - now.nanos
        } else {
            0
        }),
        window.nanos == (if left.nanos as int / 2 < 100_000_000 {
            left.nanos as int / 2
        } else {
            100_000_000
        }),
{
}

/// An advertised length above the cap is refused; any other, and none, is not.
pub proof fn law_advertised_length_is_capped(
    length: Option<u64>,
    max_bytes: u64,
    verdict: Result<(), ExecutorError>,
    body: Result<BoundedBody, ExecutorError>,
)
    requires
        call_ensures(check_advertised_content_length, (length, max_bytes), verdict),
        call_ensures(BoundedBody::start, (length, max_bytes), body),
    ensures
        verdict is Err <==> (length matches Some(len) && len > max_bytes),
        verdict matches Err(error) ==> error is InvalidUpstreamResult,
        body is Err <==> verdict is Err,
        body matches Err(error) ==> error is InvalidUpstreamResult,
        body matches Ok(started) ==> started.bytes@.len() == 0 && (max_bytes <= usize::MAX
            ==> started.max_bytes == max_bytes),
{
}

/// A chunk is kept whole while everything fits the cap, a body of exactly the cap
/// included, and refused whole when it does not.
pub proof fn law_chunks_are_kept_whole_or_refused(
    buf: &mut Vec<u8>,
    body: &mut BoundedBody,
    chunk: &[u8],
    max_bytes: usize,
    appended: Result<(), ExecutorError>,
    pushed: Result<(), ExecutorError>,
)
    requires
        call_ensures(append_bounded, (buf, chunk, max_bytes), appended),
        call_ensures(BoundedBody::push, (body, chunk), pushed),
        old(body).bytes@ == old(buf)@,
        old(body).max_bytes == max_bytes,
    ensures
        appended is Ok <==> old(buf)@.len() + chunk@.len() <= max_bytes,
        appended is Ok ==> final(buf)@ == old(buf)@ + chunk@,
        appended matches Err(error) ==> error is InvalidUpstreamResult && final(buf)@
            == old(buf)@,
        pushed == appended,
        final(body).bytes@ == final(buf)@,
        final(body).max_bytes == max_bytes,
{
}

/// Joining chunks puts them one after the other.
pub proof fn law_chunks_join_in_order(chunks: Seq<Vec<u8>>, last: Vec<u8>)
    ensures
        bounded_body::joined(Seq::empty()) == Seq::<u8>::empty(),
        bounded_body::joined(chunks.push(last)) == bounded_body::joined(chunks) + last@,
{
    assert(chunks.push(last).drop_last() =~= chunks);
}

/// A body is read to its end exactly when all of it fits the cap. When it does
/// not, reading stops at the first chunk that would exceed the cap, and nothing
/// after it is pulled.
pub proof fn law_body_is_read_while_it_fits<I: Iterator<Item = Vec<u8>>>(
    chunks: &mut I,
    max_bytes: usize,
    body: Result<Vec<u8>, ExecutorError>,
)
    requires
        call_ensures(accumulate_chunks::<I>, (chunks, max_bytes), body),
    ensures
        ({
            let all = IteratorSpec::remaining(old(chunks));
            &&& body is Ok <==> bounded_body::joined(all).len() <= max_bytes
            &&& body matches Ok(bytes) ==> bytes@ == bounded_body::joined(all)
            &&& body matches Err(error) ==> error is InvalidUpstreamResult && exists|pulled: int|
                0 < pulled <= all.len() && bounded_body::joined(all.take(pulled - 1)).len()
                    <= max_bytes && bounded_body::joined(#[trigger] all.take(pulled)).len()
                    > max_bytes && IteratorSpec::remaining(final(chunks)) == all.skip(pulled)
        }),
{
}

/// A failure while a body is read is a timeout when time ran out, else a network
/// failure that says nothing of the provider.
pub proof fn law_reading_failures_are_told_apart(timed_out: bool, error: ExecutorError)
    requires
        call_ensures(transport_error, (timed_out,), error),
    ensures
        timed_out ==> error is TimeoutError,
        !timed_out ==> (error matches ExecutorError::NetworkError(detail) && detail@
            == "upstream transport error"@),
{
}

} // verus!
