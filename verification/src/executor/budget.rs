//! Shared attempt budget, capped exponential jitter, and Retry-After policy.
//!
//! One request owns a single actual-attempt counter across primary and
//! fallback hops. Exponential full jitter is capped by `backoff_cap_ms`. A valid
//! provider `Retry-After` is never shortened by that cap; if it cannot finish
//! before the deadline, the caller terminates the whole request as provider
//! throttling instead of claiming the deadline already elapsed or starting
//! later retries or configured fallbacks.

use vstd::arithmetic::power2::*;
use vstd::bytes::u64_from_le_bytes;
use vstd::prelude::*;

use crate::common::random::random_bytes;
use crate::common::text;
use crate::common::time::{duration_ms, Duration, SystemTime};

verus! {

/// Counts actual provider calls started for one protected request.
#[derive(Debug)]
pub struct AttemptBudget {
    max_total: u32,
    started: u32,
}

impl AttemptBudget {
    #[verifier::type_invariant]
    spec fn within_ceiling(self) -> bool {
        1 <= self.max_total && self.started <= self.max_total
    }

    /// The ceiling on started calls.
    pub closed spec fn spec_max_total(self) -> nat {
        self.max_total as nat
    }

    /// The calls started so far.
    pub closed spec fn spec_started(self) -> nat {
        self.started as nat
    }

    /// Creates a budget that allows `max_total` started calls, and at least one.
    pub fn new(max_total: u32) -> (budget: AttemptBudget)
        ensures
            budget.spec_max_total() == (if max_total == 0 {
                1
            } else {
                max_total as nat
            }),
            budget.spec_started() == 0,
    {
        AttemptBudget {
            max_total: if max_total == 0 {
                1
            } else {
                max_total
            },
            started: 0,
        }
    }

    /// Remaining slots before the global ceiling.
    pub fn remaining(&self) -> (slots: u32)
        ensures
            slots == self.spec_max_total() - self.spec_started(),
    {
        proof {
            use_type_invariant(self);
        }
        self.max_total - self.started
    }

    /// Number of calls already started.
    pub fn started(&self) -> (calls: u32)
        ensures
            calls == self.spec_started(),
            calls <= self.spec_max_total(),
    {
        proof {
            use_type_invariant(self);
        }
        self.started
    }

    /// Records a started provider call when a slot remains. `false` when the
    /// budget is exhausted.
    pub fn try_start(&mut self) -> (may_start: bool)
        ensures
            may_start == (old(self).spec_started() < old(self).spec_max_total()),
            final(self).spec_max_total() == old(self).spec_max_total(),
            final(self).spec_started() == old(self).spec_started() + (if may_start {
                1nat
            } else {
                0nat
            }),
    {
        proof {
            use_type_invariant(&*self);
        }
        if self.started >= self.max_total {
            false
        } else {
            self.started = self.started + 1;
            true
        }
    }
}

/// Source of full-jitter samples in `0..=upper_inclusive` milliseconds.
pub trait JitterSource: Sized {
    /// Whether a source `before` may answer `ms` for `upper` and become `after`.
    spec fn drawn(before: Self, upper: u64, after: Self, ms: u64) -> bool;

    /// Returns a delay in `0..=upper_inclusive` milliseconds.
    fn jitter_ms(&mut self, upper_inclusive: u64) -> (ms: u64)
        ensures
            ms <= upper_inclusive,
            Self::drawn(*old(self), upper_inclusive, *final(self), ms),
    ;
}

/// The delay that a raw sample gives: its remainder by the number of values in
/// `0..=upper`, clipped to 64 bits; zero without a sample.
pub open spec fn sample_of(raw: Option<u64>, upper: u64) -> int {
    match raw {
        Some(raw) => if upper < u64::MAX {
            raw as int % (upper + 1)
        } else {
            raw as int % u64::MAX as int
        },
        None => 0,
    }
}

/// Reduces a raw sample to `0..=upper_inclusive`.
pub fn reduce_sample(raw: u64, upper_inclusive: u64) -> (ms: u64)
    ensures
        ms == sample_of(Some(raw), upper_inclusive),
        ms <= upper_inclusive,
{
    let span: u64 = upper_inclusive.saturating_add(1);
    raw % span
}

/// The delay for what the system's generator gave: the reduced sample, or zero
/// when it had none to give.
pub fn jitter_from(raw: Option<u64>, upper_inclusive: u64) -> (ms: u64)
    ensures
        ms == sample_of(raw, upper_inclusive),
        ms <= upper_inclusive,
{
    match raw {
        Some(raw) => reduce_sample(raw, upper_inclusive),
        None => 0,
    }
}

/// Production jitter using the process CSPRNG.
#[derive(Debug)]
pub struct SystemJitter;

impl JitterSource for SystemJitter {
    /// Whatever the generator gave, the delay is the one for that sample. Which
    /// sample it gives is left to chance.
    open spec fn drawn(before: Self, upper: u64, after: Self, ms: u64) -> bool {
        exists|raw: Option<u64>| ms == #[trigger] sample_of(raw, upper)
    }

    fn jitter_ms(&mut self, upper_inclusive: u64) -> (ms: u64) {
        if upper_inclusive == 0 {
            assert(sample_of(None, upper_inclusive) == 0);
            return 0;
        }
        let raw: Option<u64> = match random_bytes(8) {
            Some(bytes) => Some(u64_from_le_bytes(bytes.as_slice())),
            None => None,
        };
        jitter_from(raw, upper_inclusive)
    }
}

/// Jitter that replays a fixed list of samples, then zero.
#[derive(Debug)]
pub struct ScriptedJitter {
    pub values: Vec<u64>,
    pub position: usize,
}

impl ScriptedJitter {
    /// A source that answers with `values` in order.
    pub fn new(values: Vec<u64>) -> (source: ScriptedJitter)
        ensures
            source.values@ == values@,
            source.position == 0,
    {
        ScriptedJitter { values, position: 0 }
    }
}

impl JitterSource for ScriptedJitter {
    open spec fn drawn(before: Self, upper: u64, after: Self, ms: u64) -> bool {
        &&& after.values == before.values
        &&& if before.position < before.values@.len() {
            let next = before.values@[before.position as int];
            &&& ms == (if next <= upper {
                next
            } else {
                upper
            })
            &&& after.position == before.position + 1
        } else {
            &&& ms == 0
            &&& after.position == before.position
        }
    }

    fn jitter_ms(&mut self, upper_inclusive: u64) -> (ms: u64) {
        if self.position < self.values.len() {
            let next: u64 = self.values[self.position];
            self.position = self.position + 1;
            if next <= upper_inclusive {
                next
            } else {
                upper_inclusive
            }
        } else {
            0
        }
    }
}

/// Planned wait before a later attempt.
#[derive(Clone, Copy, PartialEq, Eq, Structural, Debug)]
pub enum RetryDelay {
    /// Retry without sleeping.
    Immediate,
    /// Sleep `delay`. `provider_minimum` is true for a valid Retry-After.
    Sleep { delay: Duration, provider_minimum: bool },
}

/// Why a planned wait cannot run.
#[derive(Clone, Copy, PartialEq, Eq, Structural, Debug)]
pub enum DelayError {
    /// Overall deadline would elapse during a jittered backoff.
    DeadlineExceeded,
    /// Provider Retry-After does not fit remaining time and must not be shortened.
    ProviderDelayCannotFit { retry_after: Duration },
}

/// The backoff window of a retry: one second for the first, doubling with each
/// later one, clipped by `cap_ms`.
pub open spec fn backoff_window(retry_index: nat, cap_ms: u64) -> u64 {
    let exponent = if retry_index == 0 {
        0nat
    } else {
        (retry_index - 1) as nat
    };
    if 1000 * pow2(exponent) <= cap_ms {
        (1000 * pow2(exponent)) as u64
    } else {
        cap_ms
    }
}

/// The backoff window of a retry under a cap given as a span.
pub open spec fn capped_window(retry_index: nat, backoff_cap: Duration) -> u64 {
    backoff_window(retry_index, crate::common::time::clip_u64(backoff_cap.millis()))
}

/// The backoff window of retry number `retry_index`, in milliseconds.
pub fn backoff_window_ms(retry_index: u32, cap_ms: u64) -> (window: u64)
    ensures
        window == backoff_window(retry_index as nat, cap_ms),
{
    let exponent: u32 = if retry_index == 0 {
        0
    } else {
        retry_index - 1
    };
    let mut doublings: u32 = 0;
    let mut window: u128 = 1000;
    proof {
        lemma2_to64();
    }
    while doublings < exponent && window <= cap_ms as u128
        invariant
            doublings <= exponent,
            window == 1000 * pow2(doublings as nat),
            window <= 2 * (cap_ms as int) || doublings == 0,
            window <= 1000 || window <= 2 * (cap_ms as int),
        decreases exponent - doublings,
    {
        proof {
            lemma_pow2_unfold((doublings + 1) as nat);
        }
        window = window * 2;
        doublings = doublings + 1;
    }
    proof {
        if doublings < exponent {
            lemma_pow2_strictly_increases(doublings as nat, exponent as nat);
        }
    }
    if window <= cap_ms as u128 {
        window as u64
    } else {
        cap_ms
    }
}

/// Full-jitter exponential backoff, capped by `cap_ms`.
///
/// Retry 1 uses a 1000ms window, retry 2 uses 2000ms, then doubling, each
/// window clipped by `cap_ms` before sampling `0..=window`.
pub fn jittered_backoff_ms<J: JitterSource>(retry_index: u32, cap_ms: u64, rng: &mut J) -> (ms: u64)
    ensures
        ms <= backoff_window(retry_index as nat, cap_ms),
        J::drawn(*old(rng), backoff_window(retry_index as nat, cap_ms), *final(rng), ms),
{
    let window: u64 = backoff_window_ms(retry_index, cap_ms);
    rng.jitter_ms(window)
}

/// The wait that a provider minimum asks for.
pub open spec fn provider_delay(provider: Duration) -> RetryDelay {
    if provider.nanos == 0 {
        RetryDelay::Immediate
    } else {
        RetryDelay::Sleep { delay: provider, provider_minimum: true }
    }
}

/// The wait that a jitter sample asks for.
pub open spec fn jitter_delay(ms: u64) -> RetryDelay {
    if ms == 0 {
        RetryDelay::Immediate
    } else {
        RetryDelay::Sleep {
            delay: Duration { nanos: (ms * 1_000_000) as u128 },
            provider_minimum: false,
        }
    }
}

/// Chooses the wait before the next attempt.
///
/// A valid provider delay is used as-is and is not reduced by the backoff
/// cap. Missing or malformed Retry-After uses capped exponential jitter.
pub fn plan_retry_delay<J: JitterSource>(
    retry_index: u32,
    backoff_cap: Duration,
    provider_retry_after: Option<Duration>,
    rng: &mut J,
) -> (delay: RetryDelay)
    ensures
        match provider_retry_after {
            Some(provider) => delay == provider_delay(provider) && *final(rng) == *old(rng),
            None => exists|ms: u64|
                {
                    &&& #[trigger] J::drawn(
                        *old(rng),
                        capped_window(retry_index as nat, backoff_cap),
                        *final(rng),
                        ms,
                    )
                    &&& ms <= capped_window(retry_index as nat, backoff_cap)
                    &&& delay == jitter_delay(ms)
                },
        },
{
    if let Some(provider) = provider_retry_after {
        if provider.is_zero() {
            return RetryDelay::Immediate;
        }
        return RetryDelay::Sleep { delay: provider, provider_minimum: true };
    }
    let ms: u64 = jittered_backoff_ms(retry_index, duration_ms(backoff_cap), rng);
    let delay: Duration = Duration::from_millis(ms);
    assert(delay == (Duration { nanos: (ms * 1_000_000) as u128 }));
    assert(J::drawn(
        *old(rng),
        capped_window(retry_index as nat, backoff_cap),
        *rng,
        ms,
    ));
    if delay.is_zero() {
        RetryDelay::Immediate
    } else {
        RetryDelay::Sleep { delay, provider_minimum: false }
    }
}

/// True when a valid provider Retry-After cannot finish in `remaining`.
pub open spec fn cannot_fit(provider_retry_after: Option<Duration>, remaining: Duration) -> bool {
    provider_retry_after matches Some(delay) && delay.nanos > remaining.nanos
}

/// True when a valid provider Retry-After cannot finish in `remaining`.
///
/// Missing, malformed, or zero delays are not a provider minimum and must not
/// terminate the request as cannot-fit throttling.
pub fn provider_minimum_cannot_fit(
    provider_retry_after: Option<Duration>,
    remaining: Duration,
) -> (stuck: bool)
    ensures
        stuck == cannot_fit(provider_retry_after, remaining),
{
    match provider_retry_after {
        Some(delay) => {
            if delay.is_zero() {
                return false;
            }
            match evaluate_retry_delay(
                RetryDelay::Sleep { delay, provider_minimum: true },
                remaining,
            ) {
                Err(DelayError::ProviderDelayCannotFit { .. }) => true,
                _ => false,
            }
        },
        None => false,
    }
}

/// Bounds a planned wait by remaining deadline without shortening Retry-After.
///
/// # Errors
/// - `ProviderDelayCannotFit` when Retry-After exceeds remaining time
/// - `DeadlineExceeded` when jittered backoff cannot finish in time
pub fn evaluate_retry_delay(delay: RetryDelay, remaining: Duration) -> (wait: Result<
    Duration,
    DelayError,
>)
    ensures
        wait == (match delay {
            RetryDelay::Immediate => Ok::<Duration, DelayError>(Duration { nanos: 0 }),
            RetryDelay::Sleep { delay, provider_minimum } => if delay.nanos <= remaining.nanos {
                Ok(delay)
            } else if provider_minimum {
                Err(DelayError::ProviderDelayCannotFit { retry_after: delay })
            } else {
                Err(DelayError::DeadlineExceeded)
            },
        }),
{
    match delay {
        RetryDelay::Immediate => Ok(Duration::zero()),
        RetryDelay::Sleep { delay, provider_minimum } => {
            if delay.nanos <= remaining.nanos {
                Ok(delay)
            } else if provider_minimum {
                Err(DelayError::ProviderDelayCannotFit { retry_after: delay })
            } else {
                Err(DelayError::DeadlineExceeded)
            }
        },
    }
}

/// What `chrono::DateTime::parse_from_rfc2822` reads from a text: seconds since
/// the Unix epoch and nanoseconds of that second.
pub uninterp spec fn rfc2822_timestamp(text: Seq<char>) -> Option<(i64, u32)>;

/// What `chrono::NaiveDateTime::parse_from_str` reads from a text in a format,
/// taken as UTC: seconds since the Unix epoch and nanoseconds of that second.
pub uninterp spec fn utc_timestamp(text: Seq<char>, format: Seq<char>) -> Option<(i64, u32)>;

/// `chrono::DateTime::parse_from_rfc2822`: the instant that an RFC 2822 date
/// names, or `None` when the text is no such date. The result is named
/// [`rfc2822_timestamp`]; nothing else is claimed of it.
#[verifier::external_body]
fn parse_rfc2822(value: &str) -> (timestamp: Option<(i64, u32)>)
    ensures
        timestamp == rfc2822_timestamp(value@),
{
    let parsed = chrono::DateTime::parse_from_rfc2822(value).ok()?;
    Some((parsed.timestamp(), parsed.timestamp_subsec_nanos()))
}

/// `chrono::NaiveDateTime::parse_from_str`: the instant that a date in `format`
/// names when its zone is UTC, or `None` when the text does not match. The
/// result is named [`utc_timestamp`]; nothing else is claimed of it.
#[verifier::external_body]
fn parse_utc(value: &str, format: &str) -> (timestamp: Option<(i64, u32)>)
    ensures
        timestamp == utc_timestamp(value@, format@),
{
    let parsed = chrono::NaiveDateTime::parse_from_str(value, format).ok()?.and_utc();
    Some((parsed.timestamp(), parsed.timestamp_subsec_nanos()))
}

/// The date formats tried after RFC 2822, in order.
pub open spec fn http_date_formats() -> Seq<Seq<char>> {
    seq![
        "%a, %d %b %Y %H:%M:%S GMT"@,
        "%a, %e %b %Y %H:%M:%S GMT"@,
        "%A, %d-%b-%y %H:%M:%S GMT"@,
        "%a %b %e %H:%M:%S %Y"@,
    ]
}

/// The first format from `from` on in which `text` is a date.
pub open spec fn first_utc_timestamp(text: Seq<char>, from: int) -> Option<(i64, u32)>
    decreases http_date_formats().len() - from,
{
    if 0 <= from < http_date_formats().len() {
        match utc_timestamp(text, http_date_formats()[from]) {
            Some(timestamp) => Some(timestamp),
            None => first_utc_timestamp(text, from + 1),
        }
    } else {
        None
    }
}

/// The instant that an HTTP date names.
pub open spec fn http_date(text: Seq<char>) -> Option<SystemTime> {
    let timestamp = match rfc2822_timestamp(text) {
        Some(timestamp) => Some(timestamp),
        None => first_utc_timestamp(text, 0),
    };
    match timestamp {
        Some((secs, nanos)) => Some(SystemTime { secs, nanos }),
        None => None,
    }
}

/// The wait that a `Retry-After` text asks for at `now`, once trimmed: whole
/// seconds, or the time left until a date. A date that has passed asks for no
/// wait. `None` for any other text.
pub open spec fn retry_after(text: Seq<char>, now: SystemTime) -> Option<Duration> {
    if text.len() == 0 {
        None
    } else if text::all_digits(text) {
        if text::digits_value(text) <= u64::MAX {
            Some(Duration { nanos: (text::digits_value(text) * 1_000_000_000) as u128 })
        } else {
            None
        }
    } else {
        match http_date(text) {
            Some(date) => Some(time_until(date, now)),
            None => None,
        }
    }
}

/// Time from `now` until `date`; empty when `date` has passed.
pub open spec fn time_until(date: SystemTime, now: SystemTime) -> Duration {
    if date.unix_nanos() >= now.unix_nanos() {
        Duration { nanos: (date.unix_nanos() - now.unix_nanos()) as u128 }
    } else {
        Duration { nanos: 0 }
    }
}

/// Parses `Retry-After` as delta-seconds or HTTP-date.
///
/// Malformed values return `None` so callers use capped jitter instead of an
/// unbounded sleep. A date in the past is a zero delay, not a parse failure.
pub fn parse_retry_after(value: &str, now: SystemTime) -> (wait: Option<Duration>)
    ensures
        wait == retry_after(text::trimmed(value@), now),
{
    let trimmed: &str = text::trim(value);
    if trimmed.is_empty() {
        return None;
    }
    if text::is_all_digits(trimmed) {
        return match text::parse_u64(trimmed) {
            Some(seconds) => Some(Duration::from_secs(seconds)),
            None => None,
        };
    }
    match parse_http_date(trimmed) {
        Some(date) => Some(date.until_from(now)),
        None => None,
    }
}

/// Parses a Retry-After header into milliseconds using `now`.
pub fn retry_after_header_ms(value: &str, now: SystemTime) -> (ms: Option<u64>)
    ensures
        ms == (match retry_after(text::trimmed(value@), now) {
            Some(wait) => Some(crate::common::time::clip_u64(wait.millis())),
            None => None,
        }),
{
    match parse_retry_after(value, now) {
        Some(wait) => Some(duration_ms(wait)),
        None => None,
    }
}

fn parse_http_date(value: &str) -> (date: Option<SystemTime>)
    ensures
        date == http_date(value@),
{
    if let Some((secs, nanos)) = parse_rfc2822(value) {
        return Some(SystemTime { secs, nanos });
    }
    let formats: [&str; 4] = [
        "%a, %d %b %Y %H:%M:%S GMT",
        "%a, %e %b %Y %H:%M:%S GMT",
        "%A, %d-%b-%y %H:%M:%S GMT",
        "%a %b %e %H:%M:%S %Y",
    ];
    let mut i: usize = 0;
    while i < 4
        invariant
            i <= 4,
            http_date_formats().len() == 4,
            forall|k: int| 0 <= k < 4 ==> (#[trigger] formats@[k])@ == http_date_formats()[k],
            rfc2822_timestamp(value@) is None,
            first_utc_timestamp(value@, i as int) == first_utc_timestamp(value@, 0),
        decreases 4 - i,
    {
        if let Some((secs, nanos)) = parse_utc(value, formats[i]) {
            return Some(SystemTime { secs, nanos });
        }
        i += 1;
    }
    None
}

} // verus!
