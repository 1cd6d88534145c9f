use http_forward::{
    compute_retry_delay_with_rng, exponential_backoff_ms, full_jitter_ms, parse_retry_after,
    retry_delay, should_retry, sleep_would_exceed_deadline, EndpointRetryPolicy, Error,
    ExposedHeaders, HttpForwardResponse, ResponseBody, RetryRun, RetryStep, NANOS_PER_MILLI,
    NANOS_PER_SEC,
};
use rand::{rngs::StdRng, SeedableRng};
use std::time::{Duration, SystemTime};

fn nanos_since_epoch(t: SystemTime) -> u128 {
    t.duration_since(SystemTime::UNIX_EPOCH).unwrap().as_nanos()
}

fn non_success(status: u16, retry_after: Option<&str>) -> Error {
    Error::UpstreamNonSuccess {
        status,
        headers: ExposedHeaders::new(),
        body: ResponseBody::Null,
        retry_after: retry_after.map(|v| v.to_owned()),
    }
}

fn policy() -> EndpointRetryPolicy {
    EndpointRetryPolicy {
        max_attempts: 3,
        base_backoff_ms: 1,
        max_backoff_ms: 2,
        max_retry_delay_ms: 1_000,
        rate_limit_backoff_ms: 50,
        retry_on_io_errors: true,
        retry_on_timeout: true,
        respect_retry_after: true,
        retry_on_status: vec![429, 500],
    }
}

fn ok_response(status: u16) -> HttpForwardResponse {
    HttpForwardResponse {
        status,
        ok: true,
        headers: ExposedHeaders::new(),
        body: ResponseBody::Null,
    }
}

#[test]
fn exponential_backoff_respects_cap() {
    assert_eq!(exponential_backoff_ms(0, 200, 5_000), 200);
    assert_eq!(exponential_backoff_ms(1, 200, 5_000), 400);
    assert_eq!(exponential_backoff_ms(2, 200, 5_000), 800);
    assert_eq!(exponential_backoff_ms(6, 200, 5_000), 5_000);
}

#[test]
fn exponential_backoff_saturates_for_huge_attempts() {
    assert_eq!(exponential_backoff_ms(200, 3, u64::MAX), u64::MAX);
    assert_eq!(exponential_backoff_ms(usize::MAX, 0, 10), 0);
    assert_eq!(exponential_backoff_ms(63, 1, u64::MAX), 1u64 << 63);
    assert_eq!(exponential_backoff_ms(64, 1, u64::MAX), u64::MAX);
}

#[test]
fn full_jitter_bounded() {
    let mut rng = StdRng::seed_from_u64(7);
    for _ in 0..100 {
        let value = full_jitter_ms(250, &mut rng);
        assert!(value <= 250);
    }
}

#[test]
fn full_jitter_of_zero_is_zero() {
    let mut rng = StdRng::seed_from_u64(1);
    assert_eq!(full_jitter_ms(0, &mut rng), 0);
}

#[test]
fn retry_after_header_parsed_as_seconds() {
    let now = SystemTime::UNIX_EPOCH + Duration::from_secs(100);
    let parsed = parse_retry_after("2", nanos_since_epoch(now)).unwrap();
    assert_eq!(parsed, Duration::from_secs(2).as_nanos());
}

#[test]
fn retry_after_header_parsed_as_http_date() {
    let now = SystemTime::UNIX_EPOCH + Duration::from_secs(1_000);
    let at = now + Duration::from_secs(3);
    let header = httpdate::fmt_http_date(at);

    let parsed = parse_retry_after(&header, nanos_since_epoch(now)).unwrap();
    assert!(parsed >= Duration::from_secs(2).as_nanos());
    assert!(parsed <= Duration::from_secs(3).as_nanos());
}

#[test]
fn retry_after_edge_cases() {
    let now = 5 * NANOS_PER_SEC;
    assert_eq!(parse_retry_after("  7 \t", now), Some(7 * NANOS_PER_SEC));
    assert_eq!(parse_retry_after("+3", now), Some(3 * NANOS_PER_SEC));
    assert_eq!(parse_retry_after("", now), None);
    assert_eq!(parse_retry_after("   ", now), None);
    assert_eq!(parse_retry_after("-3", now), None);
    assert_eq!(parse_retry_after("soon", now), None);
    // a date already past asks for no delay
    assert_eq!(parse_retry_after("Thu, 01 Jan 1970 00:00:01 GMT", now), Some(0));
    assert_eq!(
        parse_retry_after("Thu, 01 Jan 1970 00:00:09 GMT", now),
        Some(4 * NANOS_PER_SEC)
    );
    assert_eq!(
        parse_retry_after("18446744073709551615", 0),
        Some(18446744073709551615u128 * NANOS_PER_SEC)
    );
}

#[test]
fn overall_deadline_breaks_retry_loop() {
    let now: u128 = 1_000_000_000;
    let deadline = now.checked_add(Duration::from_millis(50).as_nanos()).unwrap();

    assert!(sleep_would_exceed_deadline(
        now,
        Duration::from_millis(51).as_nanos(),
        deadline
    ));
    assert!(!sleep_would_exceed_deadline(
        now,
        Duration::from_millis(50).as_nanos(),
        deadline
    ));
}

#[test]
fn sleep_past_end_of_clock_exceeds_deadline() {
    assert!(sleep_would_exceed_deadline(u128::MAX, 1, u128::MAX));
}

#[test]
fn non_retryable_status_not_retried() {
    let policy = EndpointRetryPolicy {
        retry_on_status: vec![500],
        ..EndpointRetryPolicy::default()
    };

    let err = non_success(404, None);

    assert!(!should_retry(&err, &policy));
}

#[test]
fn retryable_failures_follow_the_policy() {
    let mut p = policy();
    assert!(should_retry(&non_success(500, None), &p));
    assert!(should_retry(&Error::UpstreamTimeout, &p));
    assert!(should_retry(&Error::UpstreamUnreachable("dns".to_owned()), &p));
    p.retry_on_timeout = false;
    p.retry_on_io_errors = false;
    assert!(!should_retry(&Error::UpstreamTimeout, &p));
    assert!(!should_retry(&Error::UpstreamUnreachable("dns".to_owned()), &p));
    assert!(!should_retry(&Error::InvalidRequest("x".to_owned()), &p));
    assert!(!should_retry(&Error::InvalidConfig("x".to_owned()), &p));
    assert!(!should_retry(&Error::Internal("x".to_owned()), &p));
    assert!(!should_retry(&Error::ResponseTooLarge { limit: 1, actual: 2 }, &p));
}

#[test]
fn default_policy_values() {
    let p = EndpointRetryPolicy::default();
    assert_eq!(p.max_attempts, 1);
    assert_eq!(p.base_backoff_ms, 100);
    assert_eq!(p.max_backoff_ms, 5_000);
    assert_eq!(p.max_retry_delay_ms, 30_000);
    assert_eq!(p.rate_limit_backoff_ms, 1_000);
    assert!(p.retry_on_io_errors && p.retry_on_timeout && p.respect_retry_after);
    assert_eq!(p.retry_on_status, vec![429, 500, 502, 503, 504]);
}

#[test]
fn retry_delay_for_each_rule() {
    let p = policy();
    // plain backoff: the jitter in milliseconds
    assert_eq!(retry_delay(&non_success(500, None), &p, 2, 0), 2 * NANOS_PER_MILLI);
    // 429 with a usable Retry-After
    assert_eq!(retry_delay(&non_success(429, Some("0")), &p, 2, 0), 0);
    // 429 with no Retry-After: the rate-limit backoff
    assert_eq!(retry_delay(&non_success(429, None), &p, 2, 0), 50 * NANOS_PER_MILLI);
    // 429 with an unusable Retry-After
    assert_eq!(retry_delay(&non_success(429, Some("later")), &p, 2, 0), 50 * NANOS_PER_MILLI);
    // capped at max_retry_delay_ms
    assert_eq!(retry_delay(&non_success(429, Some("60")), &p, 2, 0), 1_000 * NANOS_PER_MILLI);
    let mut q = policy();
    q.respect_retry_after = false;
    assert_eq!(retry_delay(&non_success(429, Some("0")), &q, 2, 0), 50 * NANOS_PER_MILLI);
}

#[test]
fn computed_delay_stays_within_backoff() {
    let p = policy();
    let mut rng = StdRng::seed_from_u64(3);
    for attempt in 0..5 {
        let d = compute_retry_delay_with_rng(&non_success(500, None), &p, attempt, 0, &mut rng);
        assert!(d <= 2 * NANOS_PER_MILLI);
    }
}

#[test]
fn retry_run_finishes_on_success() {
    let mut rng = StdRng::seed_from_u64(1);
    let mut run = RetryRun::start(policy(), 0).unwrap();
    assert!(run.check_deadline(0).is_none());
    match run.on_outcome(Ok(ok_response(200)), 0, 0, &mut rng) {
        RetryStep::Finish(Ok(r)) => assert_eq!(r.status, 200),
        other => panic!("unexpected step {other:?}"),
    }
}

#[test]
fn retry_run_retries_then_returns_last_error() {
    let mut rng = StdRng::seed_from_u64(1);
    let mut p = policy();
    p.max_attempts = 2;
    let mut run = RetryRun::start(p, 0).unwrap();
    match run.on_outcome(Err(non_success(500, None)), 0, 0, &mut rng) {
        RetryStep::Sleep(d) => assert!(d <= 2 * NANOS_PER_MILLI),
        other => panic!("unexpected step {other:?}"),
    }
    assert!(run.check_deadline(10).is_none());
    match run.on_outcome(Err(non_success(500, None)), 0, 0, &mut rng) {
        RetryStep::Finish(Err(Error::UpstreamNonSuccess { status, .. })) => assert_eq!(status, 500),
        other => panic!("unexpected step {other:?}"),
    }
}

#[test]
fn retry_run_does_not_retry_non_retryable() {
    let mut rng = StdRng::seed_from_u64(1);
    let mut run = RetryRun::start(policy(), 0).unwrap();
    match run.on_outcome(Err(non_success(404, None)), 0, 0, &mut rng) {
        RetryStep::Finish(Err(Error::UpstreamNonSuccess { status, .. })) => assert_eq!(status, 404),
        other => panic!("unexpected step {other:?}"),
    }
}

#[test]
fn retry_run_times_out_when_sleep_passes_deadline() {
    let mut rng = StdRng::seed_from_u64(1);
    let mut p = policy();
    p.max_retry_delay_ms = 10;
    p.rate_limit_backoff_ms = 10;
    p.respect_retry_after = false;
    let mut run = RetryRun::start(p, 0).unwrap();
    // 5 ms already spent: a 10 ms sleep would end after the 10 ms deadline
    match run.on_outcome(Err(non_success(429, None)), 0, 5 * NANOS_PER_MILLI, &mut rng) {
        RetryStep::Finish(Err(Error::UpstreamTimeout)) => {}
        other => panic!("unexpected step {other:?}"),
    }
}

#[test]
fn retry_run_refuses_a_retry_after_the_deadline() {
    let mut rng = StdRng::seed_from_u64(1);
    let mut run = RetryRun::start(policy(), 0).unwrap();
    match run.on_outcome(Err(Error::UpstreamTimeout), 0, 0, &mut rng) {
        RetryStep::Sleep(_) => {}
        other => panic!("unexpected step {other:?}"),
    }
    assert_eq!(
        run.check_deadline(1_000 * NANOS_PER_MILLI),
        Some(Error::UpstreamTimeout)
    );
}

#[test]
fn retry_run_start_past_end_of_clock_times_out() {
    assert!(matches!(
        RetryRun::start(policy(), u128::MAX),
        Err(Error::UpstreamTimeout)
    ));
}

#[test]
fn retry_run_with_zero_attempts_still_makes_one() {
    let mut rng = StdRng::seed_from_u64(1);
    let mut p = policy();
    p.max_attempts = 0;
    let mut run = RetryRun::start(p, 0).unwrap();
    match run.on_outcome(Err(Error::UpstreamTimeout), 0, 0, &mut rng) {
        RetryStep::Finish(Err(Error::UpstreamTimeout)) => {}
        other => panic!("unexpected step {other:?}"),
    }
}
