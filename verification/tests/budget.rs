use gateway::executor::budget::{
    evaluate_retry_delay, jitter_from, jittered_backoff_ms, parse_retry_after, plan_retry_delay,
    provider_minimum_cannot_fit, reduce_sample, retry_after_header_ms, AttemptBudget, DelayError,
    JitterSource, RetryDelay, ScriptedJitter, SystemJitter,
};
use gateway::common::time::{Duration, SystemTime};

#[test]
fn attempt_budget_never_replenishes() {
    let mut budget = AttemptBudget::new(3);
    assert!(budget.try_start());
    assert!(budget.try_start());
    assert!(budget.try_start());
    assert!(!budget.try_start());
    assert_eq!(budget.started(), 3);
    assert_eq!(budget.remaining(), 0);
}

#[test]
fn considering_a_target_does_not_consume_a_slot() {
    let budget = AttemptBudget::new(2);
    assert_eq!(budget.started(), 0);
    assert_eq!(budget.remaining(), 2);
}

#[test]
fn zero_ceiling_still_allows_one_call() {
    let mut budget = AttemptBudget::new(0);
    assert_eq!(budget.remaining(), 1);
    assert!(budget.try_start());
    assert!(!budget.try_start());
}

#[test]
fn full_jitter_uses_exponential_windows_capped_at_two_seconds() {
    let cap = 2_000;
    let mut first = ScriptedJitter::new(vec![0]);
    assert_eq!(jittered_backoff_ms(1, cap, &mut first), 0);

    let mut low = ScriptedJitter::new(vec![250]);
    let mut high = ScriptedJitter::new(vec![1_000]);
    assert_eq!(jittered_backoff_ms(1, cap, &mut low), 250);
    assert_eq!(jittered_backoff_ms(1, cap, &mut high), 1_000);

    let mut second = ScriptedJitter::new(vec![2_000]);
    assert_eq!(jittered_backoff_ms(2, cap, &mut second), 2_000);

    let mut third = ScriptedJitter::new(vec![2_000]);
    assert_eq!(
        jittered_backoff_ms(3, cap, &mut third),
        2_000,
        "base 4000ms must clip to the 2000ms cap before sampling"
    );
}

#[test]
fn backoff_window_survives_large_retry_numbers() {
    let mut rng = ScriptedJitter::new(vec![u64::MAX]);
    assert_eq!(jittered_backoff_ms(u32::MAX, 7_777, &mut rng), 7_777);
    let mut rng = ScriptedJitter::new(vec![u64::MAX]);
    assert_eq!(jittered_backoff_ms(u32::MAX, u64::MAX, &mut rng), u64::MAX);
    let mut rng = ScriptedJitter::new(vec![u64::MAX]);
    assert_eq!(jittered_backoff_ms(0, 5_000, &mut rng), 1_000);
}

#[test]
fn backoff_cap_does_not_shorten_provider_retry_after() {
    let mut rng = ScriptedJitter::new(vec![2_000]);
    let delay = plan_retry_delay(
        1,
        Duration::from_millis(2_000),
        Some(Duration::from_secs(5)),
        &mut rng,
    );
    assert_eq!(
        delay,
        RetryDelay::Sleep {
            delay: Duration::from_secs(5),
            provider_minimum: true,
        }
    );
}

#[test]
fn missing_retry_after_uses_capped_jitter() {
    let mut rng = ScriptedJitter::new(vec![1_500]);
    let delay = plan_retry_delay(2, Duration::from_millis(2_000), None, &mut rng);
    assert_eq!(
        delay,
        RetryDelay::Sleep {
            delay: Duration::from_millis(1_500),
            provider_minimum: false,
        }
    );
}

#[test]
fn zero_waits_are_immediate() {
    let mut rng = ScriptedJitter::new(vec![0]);
    assert_eq!(
        plan_retry_delay(1, Duration::from_millis(2_000), None, &mut rng),
        RetryDelay::Immediate
    );
    assert_eq!(
        plan_retry_delay(1, Duration::from_millis(2_000), Some(Duration::zero()), &mut rng),
        RetryDelay::Immediate
    );
    assert_eq!(
        evaluate_retry_delay(RetryDelay::Immediate, Duration::zero()),
        Ok(Duration::zero())
    );
}

#[test]
fn delta_seconds_retry_after_parses() {
    let now = SystemTime::from_unix_secs(10);
    assert_eq!(parse_retry_after("2", now), Some(Duration::from_secs(2)));
    assert_eq!(parse_retry_after("0", now), Some(Duration::zero()));
    assert_eq!(
        parse_retry_after(" 120 ", now),
        Some(Duration::from_secs(120))
    );
}

#[test]
fn http_date_retry_after_uses_controlled_clock() {
    let now = SystemTime::from_unix_secs(1_700_000_000);
    let header = chrono::DateTime::from_timestamp(1_700_000_007, 0)
        .expect("date")
        .format("%a, %d %b %Y %H:%M:%S GMT")
        .to_string();
    assert_eq!(
        parse_retry_after(&header, now),
        Some(Duration::from_secs(7))
    );

    let past = chrono::DateTime::from_timestamp(1_700_000_000 - 30, 0)
        .expect("date")
        .format("%a, %d %b %Y %H:%M:%S GMT")
        .to_string();
    assert_eq!(parse_retry_after(&past, now), Some(Duration::zero()));
}

#[test]
fn every_http_date_form_is_read() {
    let now = SystemTime::from_unix_secs(784_111_777 - 60);
    for header in [
        "Sun, 06 Nov 1994 08:49:37 GMT",
        "Sunday, 06-Nov-94 08:49:37 GMT",
        "Sun Nov  6 08:49:37 1994",
        "  Sun, 06 Nov 1994 08:49:37 GMT\t",
        "Sun, 06 Nov 1994 09:49:37 +0100",
    ] {
        assert_eq!(
            parse_retry_after(header, now),
            Some(Duration::from_secs(60)),
            "{header}"
        );
    }
    assert_eq!(
        retry_after_header_ms("Sun, 06 Nov 1994 08:49:37 GMT", now),
        Some(60_000)
    );
}

#[test]
fn retry_after_milliseconds_saturate() {
    let now = SystemTime::from_unix_secs(0);
    assert_eq!(retry_after_header_ms("3", now), Some(3_000));
    assert_eq!(
        retry_after_header_ms("18446744073709551615", now),
        Some(u64::MAX)
    );
    assert_eq!(retry_after_header_ms("18446744073709551616", now), None);
    assert_eq!(retry_after_header_ms("soon", now), None);
}

#[test]
fn malformed_retry_after_is_ignored() {
    let now = SystemTime::from_unix_secs(1);
    assert_eq!(parse_retry_after("not-a-delay", now), None);
    assert_eq!(parse_retry_after("1.5", now), None);
    assert_eq!(parse_retry_after("2s", now), None);
    assert_eq!(parse_retry_after("", now), None);
    assert_eq!(parse_retry_after("-1", now), None);
}

#[test]
fn provider_delay_that_cannot_fit_is_throttling_not_deadline() {
    let delay = RetryDelay::Sleep {
        delay: Duration::from_secs(30),
        provider_minimum: true,
    };
    match evaluate_retry_delay(delay, Duration::from_millis(400)) {
        Err(DelayError::ProviderDelayCannotFit { retry_after }) => {
            assert_eq!(retry_after, Duration::from_secs(30));
        }
        other => panic!("expected ProviderDelayCannotFit, got {other:?}"),
    }
}

#[test]
fn jitter_that_cannot_fit_is_deadline_not_throttling() {
    let delay = RetryDelay::Sleep {
        delay: Duration::from_secs(2),
        provider_minimum: false,
    };
    assert_eq!(
        evaluate_retry_delay(delay, Duration::from_millis(200)),
        Err(DelayError::DeadlineExceeded)
    );
}

#[test]
fn delay_that_fits_is_slept_in_full() {
    let delay = RetryDelay::Sleep {
        delay: Duration::from_millis(250),
        provider_minimum: true,
    };
    assert_eq!(
        evaluate_retry_delay(delay, Duration::from_secs(1)),
        Ok(Duration::from_millis(250))
    );
}

#[test]
fn provider_minimum_cannot_fit_ignores_missing_or_zero_delays() {
    assert!(!provider_minimum_cannot_fit(None, Duration::from_millis(1)));
    assert!(!provider_minimum_cannot_fit(
        Some(Duration::zero()),
        Duration::from_millis(1)
    ));
    assert!(!provider_minimum_cannot_fit(
        Some(Duration::from_millis(200)),
        Duration::from_secs(1)
    ));
    assert!(provider_minimum_cannot_fit(
        Some(Duration::from_secs(30)),
        Duration::from_millis(400)
    ));
}

#[test]
fn samples_reduce_into_their_window() {
    assert_eq!(reduce_sample(1_234, 99), 34);
    assert_eq!(reduce_sample(100, 100), 100);
    assert_eq!(reduce_sample(u64::MAX, u64::MAX), 0);
    assert_eq!(reduce_sample(7, u64::MAX), 7);
    assert_eq!(jitter_from(Some(1_234), 99), 34);
    assert_eq!(jitter_from(None, 99), 0);
    assert_eq!(jitter_from(Some(1_234), 0), 0);
}

#[test]
fn system_jitter_stays_in_its_window_and_varies() {
    let mut rng = SystemJitter;
    assert_eq!(rng.jitter_ms(0), 0);
    let mut seen = Vec::new();
    for _ in 0..64 {
        let ms = rng.jitter_ms(1_000_000);
        assert!(ms <= 1_000_000);
        seen.push(ms);
    }
    assert!(seen.iter().any(|ms| *ms != seen[0]));
}

#[test]
fn scripted_jitter_ends_with_zero() {
    let mut rng = ScriptedJitter::new(vec![5, 50]);
    assert_eq!(rng.jitter_ms(10), 5);
    assert_eq!(rng.jitter_ms(10), 10);
    assert_eq!(rng.jitter_ms(10), 0);
}
