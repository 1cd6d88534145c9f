//! Retry policy: which failures are retried, full-jitter exponential
//! backoff, `Retry-After` handling for 429 responses, and the overall
//! deadline of a call.
//!
//! Time is counted in nanoseconds held in `u128`, which represents every
//! `std::time::Duration` exactly. Wall-clock instants are nanoseconds since
//! the Unix epoch; monotonic instants are nanoseconds since an origin the
//! caller chooses.

use crate::error::Error;
use crate::response::HttpForwardResponse;
use crate::text::{parse_u64, parse_u64_spec, trim, trim_spec};
use rand::rngs::StdRng;
use vstd::arithmetic::power2::pow2;
use vstd::prelude::*;

verus! {

/// `min(base * 2^attempt, u64::MAX, cap)`: the saturating exponential backoff bound.
pub open spec fn backoff_bound(attempt: nat, base_ms: u64, cap_ms: u64) -> u64 {
    let raw = base_ms * pow2(attempt);
    let saturated: int = if raw > u64::MAX { u64::MAX as int } else { raw };
    if saturated < cap_ms { saturated as u64 } else { cap_ms }
}

/// Exponential backoff in milliseconds for the zero-based `attempt`,
/// saturating at `u64::MAX` and capped at `cap_ms`.
pub fn exponential_backoff_ms(attempt: usize, base_ms: u64, cap_ms: u64) -> (r: u64)
    ensures
        r == backoff_bound(attempt as nat, base_ms, cap_ms),
{
    // factor == min(2^i, u64::MAX) after `i` doublings
    let mut factor: u64 = 1;
    let mut i: usize = 0;
    let mut saturated = false;
    proof { vstd::arithmetic::power2::lemma2_to64(); }
    while i < attempt && !saturated
        invariant
            i <= attempt,
            saturated ==> pow2(attempt as nat) > u64::MAX,
            !saturated ==> factor == pow2(i as nat),
        decreases attempt - i,
    {
        proof { vstd::arithmetic::power2::lemma_pow2_unfold((i + 1) as nat); }
        if factor > u64::MAX / 2 {
            saturated = true;
            proof {
                if i + 1 < attempt {
                    vstd::arithmetic::power2::lemma_pow2_strictly_increases((i + 1) as nat, attempt as nat);
                }
            }
        } else {
            factor = factor * 2;
        }
        i = i + 1;
    }
    let product: u64 = if saturated {
        if base_ms == 0 { 0 } else { u64::MAX }
    } else {
        match base_ms.checked_mul(factor) {
            Some(p) => p,
            None => u64::MAX,
        }
    };
    proof {
        if !saturated {
            assert(i == attempt);
            assert(factor == pow2(attempt as nat));
        }
        if saturated && base_ms > 0 {
            assert(base_ms * pow2(attempt as nat) >= pow2(attempt as nat)) by (nonlinear_arith)
                requires base_ms > 0;
        }
        if saturated && base_ms == 0 {
            assert(base_ms * pow2(attempt as nat) == 0);
        }
        let raw = base_ms * pow2(attempt as nat);
        assert(product == (if raw > u64::MAX { u64::MAX as int } else { raw }));
    }
    if product < cap_ms { product } else { cap_ms }
}

/// The backoff bound never exceeds its cap and never shrinks as attempts
/// go on.
pub proof fn lemma_backoff_capped_and_monotone(a1: nat, a2: nat, base_ms: u64, cap_ms: u64)
    requires
        a1 <= a2,
    ensures
        backoff_bound(a1, base_ms, cap_ms) <= cap_ms,
        backoff_bound(a1, base_ms, cap_ms) <= backoff_bound(a2, base_ms, cap_ms),
{
    if a1 < a2 {
        vstd::arithmetic::power2::lemma_pow2_strictly_increases(a1, a2);
    }
    assert(base_ms * pow2(a1) <= base_ms * pow2(a2)) by (nonlinear_arith)
        requires
            pow2(a1) <= pow2(a2),
    ;
}

/// Below the cap, each further attempt doubles the backoff bound, which is
/// `base_ms * 2^attempt` there.
pub proof fn lemma_backoff_doubles_below_cap(attempt: nat, base_ms: u64, cap_ms: u64)
    requires
        base_ms * pow2(attempt + 1) <= cap_ms,
    ensures
        backoff_bound(attempt, base_ms, cap_ms) == base_ms * pow2(attempt),
        backoff_bound(attempt + 1, base_ms, cap_ms) == 2 * backoff_bound(attempt, base_ms, cap_ms),
{
    vstd::arithmetic::power2::lemma_pow2_unfold(attempt + 1);
    assert(base_ms * pow2(attempt + 1) == 2 * (base_ms * pow2(attempt))) by (nonlinear_arith)
        requires
            pow2(attempt + 1) == 2 * pow2(attempt),
    ;
}

/// Nanoseconds per millisecond.
pub const NANOS_PER_MILLI: u128 = 1_000_000;

/// Nanoseconds per second.
pub const NANOS_PER_SEC: u128 = 1_000_000_000;

#[verifier::external_type_specification]
#[verifier::external_body]
pub struct ExStdRng(StdRng);

/// Endpoint retry policy: attempts, backoff, rate-limit handling.
#[derive(Debug)]
pub struct EndpointRetryPolicy {
    /// Maximum total attempts (initial request and retries).
    pub max_attempts: usize,
    /// Base backoff delay in milliseconds.
    pub base_backoff_ms: u64,
    /// Cap of the exponential backoff in milliseconds.
    pub max_backoff_ms: u64,
    /// Cap of any retry delay, and the overall retry budget, in milliseconds.
    pub max_retry_delay_ms: u64,
    /// Delay in milliseconds for a 429 response without a usable `Retry-After`.
    pub rate_limit_backoff_ms: u64,
    /// Whether transport failures are retried.
    pub retry_on_io_errors: bool,
    /// Whether timeouts are retried.
    pub retry_on_timeout: bool,
    /// Whether a 429 response's `Retry-After` is honoured.
    pub respect_retry_after: bool,
    /// Statuses eligible for retry.
    pub retry_on_status: Vec<u16>,
}

/// `mechanics_config::EndpointRetryPolicy::default()`, copied field by
/// field. Its source sets one attempt, 100 ms base backoff, 5 s backoff
/// cap, 30 s delay cap, 1 s rate-limit backoff, all three switches on, and
/// statuses 429, 500, 502, 503 and 504; that is what is claimed.
#[verifier::external_body]
fn outside_default_policy() -> (r: EndpointRetryPolicy)
    ensures
        r.max_attempts == 1,
        r.base_backoff_ms == 100,
        r.max_backoff_ms == 5_000,
        r.max_retry_delay_ms == 30_000,
        r.rate_limit_backoff_ms == 1_000,
        r.retry_on_io_errors,
        r.retry_on_timeout,
        r.respect_retry_after,
        r.retry_on_status@ == seq![429u16, 500u16, 502u16, 503u16, 504u16],
{
    let p = mechanics_config::EndpointRetryPolicy::default();
    EndpointRetryPolicy {
        max_attempts: p.max_attempts,
        base_backoff_ms: p.base_backoff_ms,
        max_backoff_ms: p.max_backoff_ms,
        max_retry_delay_ms: p.max_retry_delay_ms,
        rate_limit_backoff_ms: p.rate_limit_backoff_ms,
        retry_on_io_errors: p.retry_on_io_errors,
        retry_on_timeout: p.retry_on_timeout,
        respect_retry_after: p.respect_retry_after,
        retry_on_status: p.retry_on_status,
    }
}

impl Default for EndpointRetryPolicy {
    /// The endpoint configuration's default retry policy.
    fn default() -> (r: Self)
        ensures
            r.max_attempts == 1,
            r.base_backoff_ms == 100,
            r.max_backoff_ms == 5_000,
            r.max_retry_delay_ms == 30_000,
            r.rate_limit_backoff_ms == 1_000,
            r.retry_on_io_errors,
            r.retry_on_timeout,
            r.respect_retry_after,
            r.retry_on_status@ == seq![429u16, 500u16, 502u16, 503u16, 504u16],
    {
        outside_default_policy()
    }
}

/// Two policies agree on every setting.
pub open spec fn same_policy(a: EndpointRetryPolicy, b: EndpointRetryPolicy) -> bool {
    &&& a.max_attempts == b.max_attempts
    &&& a.base_backoff_ms == b.base_backoff_ms
    &&& a.max_backoff_ms == b.max_backoff_ms
    &&& a.max_retry_delay_ms == b.max_retry_delay_ms
    &&& a.rate_limit_backoff_ms == b.rate_limit_backoff_ms
    &&& a.retry_on_io_errors == b.retry_on_io_errors
    &&& a.retry_on_timeout == b.retry_on_timeout
    &&& a.respect_retry_after == b.respect_retry_after
    &&& a.retry_on_status@ == b.retry_on_status@
}

impl EndpointRetryPolicy {
    /// A copy of the policy.
    pub fn copy(&self) -> (r: Self)
        ensures
            same_policy(r, *self),
    {
        let mut statuses: Vec<u16> = Vec::new();
        let mut i: usize = 0;
        while i < self.retry_on_status.len()
            invariant
                i <= self.retry_on_status.len(),
                statuses@ == self.retry_on_status@.take(i as int),
            decreases self.retry_on_status.len() - i,
        {
            statuses.push(self.retry_on_status[i]);
            assert(self.retry_on_status@.take(i + 1) =~= self.retry_on_status@.take(i as int).push(
                self.retry_on_status@[i as int],
            ));
            i = i + 1;
        }
        assert(self.retry_on_status@.take(self.retry_on_status.len() as int) =~= self.retry_on_status@);
        EndpointRetryPolicy {
            max_attempts: self.max_attempts,
            base_backoff_ms: self.base_backoff_ms,
            max_backoff_ms: self.max_backoff_ms,
            max_retry_delay_ms: self.max_retry_delay_ms,
            rate_limit_backoff_ms: self.rate_limit_backoff_ms,
            retry_on_io_errors: self.retry_on_io_errors,
            retry_on_timeout: self.retry_on_timeout,
            respect_retry_after: self.respect_retry_after,
            retry_on_status: statuses,
        }
    }
}

/// Whether a failure is retried under `policy`.
pub open spec fn retryable(err: Error, policy: EndpointRetryPolicy) -> bool {
    match err {
        Error::UpstreamTimeout => policy.retry_on_timeout,
        Error::UpstreamUnreachable(_) => policy.retry_on_io_errors,
        Error::UpstreamNonSuccess { status, .. } => policy.retry_on_status@.contains(status),
        _ => false,
    }
}

/// Each retryable kind of failure is decided by its own policy switch
/// alone: a timeout by `retry_on_timeout`, a transport failure by
/// `retry_on_io_errors`, a non-success status by membership in
/// `retry_on_status`; the other failures are never retried.
pub proof fn lemma_retry_decided_by_own_switch(
    policy: EndpointRetryPolicy,
    other: EndpointRetryPolicy,
    detail: String,
    err: Error,
)
    ensures
        retryable(Error::UpstreamTimeout, policy) == policy.retry_on_timeout,
        retryable(Error::UpstreamUnreachable(detail), policy) == policy.retry_on_io_errors,
        policy.retry_on_timeout == other.retry_on_timeout ==> retryable(
            Error::UpstreamTimeout,
            policy,
        ) == retryable(Error::UpstreamTimeout, other),
        policy.retry_on_io_errors == other.retry_on_io_errors ==> retryable(
            Error::UpstreamUnreachable(detail),
            policy,
        ) == retryable(Error::UpstreamUnreachable(detail), other),
        err matches Error::UpstreamNonSuccess { status, .. } ==> (retryable(err, policy) <==> exists|i: int|
            0 <= i < policy.retry_on_status@.len() && policy.retry_on_status@[i] == status),
        (err is InvalidConfig || err is InvalidRequest || err is ResponseTooLarge || err is Internal)
            ==> !retryable(err, policy),
{
    if let Error::UpstreamNonSuccess { status, .. } = err {
        if retryable(err, policy) {
            let i = policy.retry_on_status@.index_of(status);
            assert(policy.retry_on_status@[i] == status);
        }
    }
}

/// Decides whether a failed attempt may be retried: timeouts and transport
/// failures by their policy switches, non-success statuses by the status
/// list; configuration, request, size and internal failures never.
pub fn should_retry(err: &Error, policy: &EndpointRetryPolicy) -> (r: bool)
    ensures
        r == retryable(*err, *policy),
        *err is UpstreamTimeout ==> r == policy.retry_on_timeout,
        *err is UpstreamUnreachable ==> r == policy.retry_on_io_errors,
        *err matches Error::UpstreamNonSuccess { status, .. } ==> (r <==> exists|i: int|
            0 <= i < policy.retry_on_status@.len() && policy.retry_on_status@[i] == status),
        (*err is InvalidConfig || *err is InvalidRequest || *err is ResponseTooLarge
            || *err is Internal) ==> !r,
{
    match err {
        Error::UpstreamTimeout => policy.retry_on_timeout,
        Error::UpstreamUnreachable(_) => policy.retry_on_io_errors,
        Error::UpstreamNonSuccess { status, .. } => contains_status(&policy.retry_on_status, *status),
        _ => false,
    }
}

fn contains_status(list: &Vec<u16>, status: u16) -> (r: bool)
    ensures
        r == list@.contains(status),
{
    let mut i: usize = 0;
    while i < list.len()
        invariant
            i <= list.len(),
            forall|j: int| 0 <= j < i ==> list@[j] != status,
        decreases list.len() - i,
    {
        if list[i] == status {
            assert(list@[i as int] == status);
            return true;
        }
        i = i + 1;
    }
    false
}

/// `rng.random_range(0..=hi)` of `rand`: a uniformly drawn integer in
/// `0..=hi`. Only the range of the outcome is claimed.
#[verifier::external_body]
fn random_up_to(rng: &mut StdRng, hi: u64) -> (r: u64)
    ensures
        r <= hi,
{
    rand::Rng::random_range(rng, 0..=hi)
}

/// Full jitter: a random delay in `0..=max_ms`.
pub fn full_jitter_ms(max_ms: u64, rng: &mut StdRng) -> (r: u64)
    ensures
        r <= max_ms,
{
    random_up_to(rng, max_ms)
}

/// Seconds since the Unix epoch denoted by an HTTP date, as `httpdate`
/// parses it (`None` where it refuses the text).
pub uninterp spec fn http_date_secs(s: Seq<char>) -> Option<u64>;

/// `httpdate::parse_http_date`, with the resulting instant read as whole
/// seconds since the Unix epoch. The result is named, not described: it is
/// whatever that parser gives for the text.
#[verifier::external_body]
fn parse_http_date_secs(s: &str) -> (r: Option<u64>)
    ensures
        r == http_date_secs(s@),
{
    match httpdate::parse_http_date(s) {
        Ok(at) => Some(at.duration_since(std::time::UNIX_EPOCH).map_or(0, |d| d.as_secs())),
        Err(_) => None,
    }
}

/// The delay a `Retry-After` value asks for at wall-clock time `now_ns`:
/// a decimal number of seconds, or the time until an HTTP date (zero once
/// it has passed); `None` for an empty or unusable value.
pub open spec fn retry_after_spec(value: Seq<char>, now_ns: u128) -> Option<nat> {
    let t = trim_spec(value);
    if t.len() == 0 {
        None
    } else {
        match parse_u64_spec(vstd::utf8::encode_utf8(t)) {
            Some(secs) => Some((secs * NANOS_PER_SEC) as nat),
            None => match http_date_secs(t) {
                Some(at) => Some(
                    if at * NANOS_PER_SEC >= now_ns {
                        (at * NANOS_PER_SEC - now_ns) as nat
                    } else {
                        0
                    },
                ),
                None => None,
            },
        }
    }
}

/// Parses a `Retry-After` header value at wall-clock time `now_ns`.
pub fn parse_retry_after(value: &str, now_ns: u128) -> (r: Option<u128>)
    ensures
        match r {
            Some(d) => retry_after_spec(value@, now_ns) == Some(d as nat),
            None => retry_after_spec(value@, now_ns) is None,
        },
{
    let trimmed = trim(value);
    if trimmed.is_empty() {
        return None;
    }
    match parse_u64(trimmed) {
        Some(secs) => {
            return Some(secs as u128 * NANOS_PER_SEC);
        },
        None => {},
    }
    match parse_http_date_secs(trimmed) {
        Some(at) => {
            let at_ns = at as u128 * NANOS_PER_SEC;
            if at_ns >= now_ns {
                Some(at_ns - now_ns)
            } else {
                Some(0)
            }
        },
        None => None,
    }
}

/// The delay before the next attempt: the jittered backoff, or for a 429
/// response the `Retry-After` delay (when honoured and usable) or the
/// rate-limit backoff; never more than `max_retry_delay_ms`.
pub open spec fn retry_delay_spec(
    err: Error,
    policy: EndpointRetryPolicy,
    jitter_ms: u64,
    now_ns: u128,
) -> nat {
    let rate_limit = policy.rate_limit_backoff_ms * NANOS_PER_MILLI;
    let d: nat = match err {
        Error::UpstreamNonSuccess { status, retry_after, .. } if status == 429 => {
            if policy.respect_retry_after {
                match retry_after {
                    Some(v) => match retry_after_spec(v@, now_ns) {
                        Some(x) => x,
                        None => rate_limit as nat,
                    },
                    None => rate_limit as nat,
                }
            } else {
                rate_limit as nat
            }
        },
        _ => (jitter_ms * NANOS_PER_MILLI) as nat,
    };
    let cap: nat = (policy.max_retry_delay_ms * NANOS_PER_MILLI) as nat;
    if d > cap {
        cap
    } else {
        d
    }
}

/// The delay never exceeds `max_retry_delay_ms`; outside a 429 answer it is
/// the drawn jitter (in milliseconds) up to that cap; a 429 answer without
/// a usable honoured `Retry-After` waits the rate-limit backoff up to that
/// cap, whatever jitter was drawn.
pub proof fn lemma_retry_delay_shape(
    err: Error,
    policy: EndpointRetryPolicy,
    jitter_ms: u64,
    other_jitter_ms: u64,
    now_ns: u128,
)
    ensures
        retry_delay_spec(err, policy, jitter_ms, now_ns) <= policy.max_retry_delay_ms * 1_000_000,
        !(err matches Error::UpstreamNonSuccess { status, .. } && status == 429) ==> retry_delay_spec(
            err,
            policy,
            jitter_ms,
            now_ns,
        ) == (if jitter_ms * 1_000_000 <= policy.max_retry_delay_ms * 1_000_000 {
            jitter_ms * 1_000_000
        } else {
            policy.max_retry_delay_ms * 1_000_000
        }),
        err matches Error::UpstreamNonSuccess { status, retry_after, .. } ==> status == 429 ==> {
            &&& retry_delay_spec(err, policy, jitter_ms, now_ns) == retry_delay_spec(
                err,
                policy,
                other_jitter_ms,
                now_ns,
            )
            &&& (!policy.respect_retry_after || retry_after is None) ==> retry_delay_spec(
                err,
                policy,
                jitter_ms,
                now_ns,
            ) == (if policy.rate_limit_backoff_ms <= policy.max_retry_delay_ms {
                policy.rate_limit_backoff_ms * 1_000_000
            } else {
                policy.max_retry_delay_ms * 1_000_000
            })
        },
{
}

/// The delay before the next attempt, given the drawn jitter.
pub fn retry_delay(err: &Error, policy: &EndpointRetryPolicy, jitter_ms: u64, now_ns: u128) -> (r:
    u128)
    ensures
        r == retry_delay_spec(*err, *policy, jitter_ms, now_ns),
        r <= policy.max_retry_delay_ms * NANOS_PER_MILLI,
{
    let rate_limit = policy.rate_limit_backoff_ms as u128 * NANOS_PER_MILLI;
    let delay: u128 = match err {
        Error::UpstreamNonSuccess { status, retry_after, .. } if *status == 429 => {
            if policy.respect_retry_after {
                match retry_after {
                    Some(v) => match parse_retry_after(v.as_str(), now_ns) {
                        Some(x) => x,
                        None => rate_limit,
                    },
                    None => rate_limit,
                }
            } else {
                rate_limit
            }
        },
        _ => jitter_ms as u128 * NANOS_PER_MILLI,
    };
    let cap = policy.max_retry_delay_ms as u128 * NANOS_PER_MILLI;
    if delay > cap {
        cap
    } else {
        delay
    }
}

/// Draws the jitter for zero-based `attempt` and computes the delay before
/// the next attempt.
pub fn compute_retry_delay_with_rng(
    err: &Error,
    policy: &EndpointRetryPolicy,
    attempt: usize,
    now_ns: u128,
    rng: &mut StdRng,
) -> (r: u128)
    ensures
        exists|j: u64|
            j <= backoff_bound(attempt as nat, policy.base_backoff_ms, policy.max_backoff_ms) && r
                == retry_delay_spec(*err, *policy, j, now_ns),
        r <= policy.max_retry_delay_ms * NANOS_PER_MILLI,
{
    let exp_max_ms = exponential_backoff_ms(attempt, policy.base_backoff_ms, policy.max_backoff_ms);
    let jitter = full_jitter_ms(exp_max_ms, rng);
    retry_delay(err, policy, jitter, now_ns)
}

/// Whether sleeping `delay_ns` from monotonic time `now_ns` would end past
/// `deadline_ns` (or past the end of the clock).
pub fn sleep_would_exceed_deadline(now_ns: u128, delay_ns: u128, deadline_ns: u128) -> (r: bool)
    ensures
        r == (now_ns + delay_ns > deadline_ns),
{
    match now_ns.checked_add(delay_ns) {
        Some(next) => next > deadline_ns,
        None => true,
    }
}

/// What the caller does next in a retry run.
#[derive(Debug)]
pub enum RetryStep {
    /// The call is over, with this result.
    Finish(Result<HttpForwardResponse, Error>),
    /// Sleep this many nanoseconds, then make the next attempt.
    Sleep(u128),
}

/// The state of one call's retry loop: which attempt is running, how many
/// are allowed, and the monotonic deadline past which no sleep may end.
///
/// The caller drives the loop: it asks [`RetryRun::check_deadline`] before
/// each attempt, performs the attempt, and hands its outcome to
/// [`RetryRun::on_outcome`], which says whether to stop or sleep and retry.
pub struct RetryRun {
    policy: EndpointRetryPolicy,
    max_attempts: usize,
    attempt: usize,
    deadline_ns: u128,
}

/// `max(1, max_attempts)`: a policy always allows the first attempt.
pub open spec fn allowed_attempts(policy: EndpointRetryPolicy) -> nat {
    if policy.max_attempts == 0 {
        1
    } else {
        policy.max_attempts as nat
    }
}

/// A run allows exactly the configured number of attempts, and one
/// attempt when none is configured: never fewer, never more.
pub proof fn lemma_allowed_attempts_is_max_with_one(policy: EndpointRetryPolicy)
    ensures
        allowed_attempts(policy) >= 1,
        allowed_attempts(policy) >= policy.max_attempts,
        policy.max_attempts >= 1 ==> allowed_attempts(policy) == policy.max_attempts,
        policy.max_attempts == 0 ==> allowed_attempts(policy) == 1,
{
}

/// The step a retry run takes after a failed attempt `attempt` (zero-based)
/// that `retryable` admits, with the drawn jitter and clock readings.
pub open spec fn after_retryable_failure(
    err: Error,
    policy: EndpointRetryPolicy,
    jitter_ms: u64,
    wall_now_ns: u128,
    mono_now_ns: u128,
    deadline_ns: u128,
) -> RetryStep {
    let d = retry_delay_spec(err, policy, jitter_ms, wall_now_ns);
    if mono_now_ns + d > deadline_ns {
        RetryStep::Finish(Err(Error::UpstreamTimeout))
    } else {
        RetryStep::Sleep(d as u128)
    }
}

impl RetryRun {
    /// The policy of this run.
    pub closed spec fn policy(&self) -> EndpointRetryPolicy {
        self.policy
    }

    /// Zero-based index of the current attempt.
    pub closed spec fn attempt(&self) -> nat {
        self.attempt as nat
    }

    /// Number of attempts the run allows.
    pub closed spec fn max_attempts(&self) -> nat {
        self.max_attempts as nat
    }

    /// Monotonic deadline in nanoseconds.
    pub closed spec fn deadline(&self) -> u128 {
        self.deadline_ns
    }

    #[verifier::type_invariant]
    closed spec fn within_budget(&self) -> bool {
        &&& self.max_attempts as nat == allowed_attempts(self.policy)
        &&& self.attempt < self.max_attempts
    }

    /// Starts a run at monotonic time `now_ns`: the first attempt, with the
    /// deadline `max_retry_delay_ms` after `now_ns`. Fails with a timeout
    /// when that deadline is past the end of the clock.
    pub fn start(policy: EndpointRetryPolicy, now_ns: u128) -> (r: Result<RetryRun, Error>)
        ensures
            match r {
                Ok(run) => {
                    &&& run.policy() == policy
                    &&& run.attempt() == 0
                    &&& run.max_attempts() == allowed_attempts(policy)
                    &&& policy.max_attempts >= 1 ==> run.max_attempts() == policy.max_attempts
                    &&& policy.max_attempts == 0 ==> run.max_attempts() == 1
                    &&& run.deadline() == now_ns + policy.max_retry_delay_ms * NANOS_PER_MILLI
                },
                Err(e) => {
                    &&& e == Error::UpstreamTimeout
                    &&& now_ns + policy.max_retry_delay_ms * NANOS_PER_MILLI > u128::MAX
                },
            },
    {
        let max_attempts = if policy.max_attempts == 0 { 1 } else { policy.max_attempts };
        let budget = policy.max_retry_delay_ms as u128 * NANOS_PER_MILLI;
        match now_ns.checked_add(budget) {
            Some(deadline_ns) => Ok(RetryRun { policy, max_attempts, attempt: 0, deadline_ns }),
            None => Err(Error::UpstreamTimeout),
        }
    }

    /// Checked before each attempt: a retry (any attempt after the first)
    /// may not start once the deadline has been reached.
    pub fn check_deadline(&self, now_ns: u128) -> (r: Option<Error>)
        ensures
            r is Some <==> self.attempt() > 0 && now_ns >= self.deadline(),
            r matches Some(e) ==> e == Error::UpstreamTimeout,
    {
        if self.attempt > 0 && now_ns >= self.deadline_ns {
            Some(Error::UpstreamTimeout)
        } else {
            None
        }
    }

    /// Decides what follows an attempt's outcome. A success, a failure the
    /// policy does not retry, and the last allowed attempt's failure end the
    /// run with that outcome; otherwise the delay is computed (jitter drawn
    /// from `rng`, `Retry-After` read at wall-clock `wall_now_ns`) and, if
    /// sleeping it from monotonic `mono_now_ns` stays within the deadline,
    /// the run moves to the next attempt and the caller sleeps; else the run
    /// ends with a timeout.
    pub fn on_outcome(
        &mut self,
        outcome: Result<HttpForwardResponse, Error>,
        wall_now_ns: u128,
        mono_now_ns: u128,
        rng: &mut StdRng,
    ) -> (r: RetryStep)
        ensures
            final(self).policy() == old(self).policy(),
            final(self).max_attempts() == old(self).max_attempts(),
            final(self).deadline() == old(self).deadline(),
            outcome is Ok ==> r == RetryStep::Finish(outcome),
            outcome is Err && (!retryable(outcome->Err_0, old(self).policy()) || old(self).attempt()
                + 1 >= old(self).max_attempts()) ==> r == RetryStep::Finish(outcome),
            outcome is Err && retryable(outcome->Err_0, old(self).policy()) && old(self).attempt() + 1
                < old(self).max_attempts() ==> exists|j: u64|
                #![trigger after_retryable_failure(outcome->Err_0, old(self).policy(), j, wall_now_ns, mono_now_ns, old(self).deadline())]
                j <= backoff_bound(
                    old(self).attempt(),
                    old(self).policy().base_backoff_ms,
                    old(self).policy().max_backoff_ms,
                ) && r == after_retryable_failure(
                    outcome->Err_0,
                    old(self).policy(),
                    j,
                    wall_now_ns,
                    mono_now_ns,
                    old(self).deadline(),
                ),
            (r is Sleep) ==> final(self).attempt() == old(self).attempt() + 1,
            !(r is Sleep) ==> final(self).attempt() == old(self).attempt(),
            // no sleep is longer than the delay cap or ends past the deadline
            r matches RetryStep::Sleep(d) ==> d <= old(self).policy().max_retry_delay_ms
                * NANOS_PER_MILLI && mono_now_ns + d <= old(self).deadline(),
            // attempts never exceed the allowance
            final(self).attempt() < final(self).max_attempts(),
    {
        proof { use_type_invariant(&*self); }
        match outcome {
            Ok(resp) => RetryStep::Finish(Ok(resp)),
            Err(err) => {
                if !should_retry(&err, &self.policy) || self.attempt + 1 >= self.max_attempts {
                    return RetryStep::Finish(Err(err));
                }
                let delay = compute_retry_delay_with_rng(
                    &err,
                    &self.policy,
                    self.attempt,
                    wall_now_ns,
                    rng,
                );
                let ghost j = choose|j: u64|
                    j <= backoff_bound(
                        self.attempt as nat,
                        self.policy.base_backoff_ms,
                        self.policy.max_backoff_ms,
                    ) && delay == retry_delay_spec(err, self.policy, j, wall_now_ns);
                let ghost step = after_retryable_failure(
                    err,
                    self.policy,
                    j,
                    wall_now_ns,
                    mono_now_ns,
                    self.deadline_ns,
                );
                proof {
                    assert(exists|j: u64|
                        #![trigger after_retryable_failure(err, old(self).policy(), j, wall_now_ns, mono_now_ns, old(self).deadline())]
                        j <= backoff_bound(
                            old(self).attempt(),
                            old(self).policy().base_backoff_ms,
                            old(self).policy().max_backoff_ms,
                        ) && step == after_retryable_failure(
                            err,
                            old(self).policy(),
                            j,
                            wall_now_ns,
                            mono_now_ns,
                            old(self).deadline(),
                        ));
                }
                if sleep_would_exceed_deadline(mono_now_ns, delay, self.deadline_ns) {
                    assert(step == RetryStep::Finish(Err(Error::UpstreamTimeout)));
                    RetryStep::Finish(Err(Error::UpstreamTimeout))
                } else {
                    self.attempt = self.attempt + 1;
                    assert(step == RetryStep::Sleep(delay));
                    RetryStep::Sleep(delay)
                }
            },
        }
    }
}

} // verus!
