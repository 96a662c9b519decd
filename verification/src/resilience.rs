//! Circuit breaking and retry decisions for calls to the Fluss coordinator.
//!
//! Time enters every decision as a plain nanosecond reading, so each
//! transition is a function of the breaker's state and that reading.
use vstd::prelude::*;
use crate::types::GatewayError;

verus! {

/// Health status of the gateway.
#[derive(Clone, Copy, Debug, PartialEq, Eq, Structural)]
pub enum HealthStatus {
    Healthy,
    Degraded,
    Unhealthy,
}

/// Lower-case text of a health status, as the gateway reports it.
pub open spec fn health_text(h: HealthStatus) -> Seq<char> {
    match h {
        HealthStatus::Healthy => "healthy"@,
        HealthStatus::Degraded => "degraded"@,
        HealthStatus::Unhealthy => "unhealthy"@,
    }
}

impl HealthStatus {
    /// The status as the text the gateway reports (`healthy`, `degraded`, `unhealthy`).
    pub fn to_string(&self) -> (res: String)
        ensures
            res@ == health_text(*self),
    {
        match self {
            HealthStatus::Healthy => String::from_str("healthy"),
            HealthStatus::Degraded => String::from_str("degraded"),
            HealthStatus::Unhealthy => String::from_str("unhealthy"),
        }
    }
}

/// Nanoseconds from `last` to `now`, zero when the clock reads earlier than `last`.
pub open spec fn elapsed_ns(last: u64, now: u64) -> int {
    if now >= last {
        now - last
    } else {
        0
    }
}

/// Circuit breaker state.
#[derive(Clone, Copy, Debug)]
pub struct CircuitState {
    /// Number of consecutive failures
    pub failures: u64,
    /// When the last failure was recorded (nanoseconds since the breaker
    /// was made)
    pub last_failure_time: Option<u64>,
    /// false = closed (normal), true = open (blocking)
    pub is_open: bool,
    /// Half-open: the one trial request let through after recovery has not
    /// reported its outcome yet, so every other request is refused
    pub trial_in_flight: bool,
}

impl CircuitState {
    /// A closed circuit with no failures recorded.
    pub fn new() -> (s: Self)
        ensures
            s.failures == 0,
            s.last_failure_time is None,
            !s.is_open,
            !s.trial_in_flight,
    {
        CircuitState { failures: 0, last_failure_time: None, is_open: false, trial_in_flight: false }
    }
}

/// Circuit breaker configuration.
#[derive(Clone, Copy, Debug)]
pub struct CircuitBreakerConfig {
    /// Number of consecutive failures before opening the circuit
    pub failure_threshold: u64,
    /// Time to wait before attempting to recover (half-open), in milliseconds
    pub recovery_timeout_ms: u64,
}

impl Default for CircuitBreakerConfig {
    fn default() -> (c: Self)
        ensures
            c.failure_threshold == 5,
            c.recovery_timeout_ms == 30_000,
    {
        CircuitBreakerConfig { failure_threshold: 5, recovery_timeout_ms: 30_000 }
    }
}

/// Circuit breaker for Fluss coordinator connections.
pub struct CircuitBreaker {
    /// Circuit state
    pub state: CircuitState,
    /// Thresholds the breaker was built with
    pub config: CircuitBreakerConfig,
    /// Total requests that were blocked by the open circuit
    pub blocked_count: u64,
    /// Total successful requests
    pub success_count: u64,
    /// Total failed requests
    pub failure_count: u64,
    /// When the breaker was made: times are nanoseconds since then on the
    /// monotonic clock
    pub origin: std::time::Instant,
}

/// The value of a `u64` counter after one wrapping increment.
pub open spec fn bump(n: u64) -> u64 {
    if n == u64::MAX {
        0
    } else {
        (n + 1) as u64
    }
}

/// The monotonic clock's instant type, carried opaquely.
#[verifier::external_type_specification]
#[verifier::external_body]
pub struct ExInstant(std::time::Instant);

/// Calls `Instant::now`: a reading of the monotonic clock. Nothing is
/// promised of the reading.
#[verifier::external_body]
fn instant_now() -> (t: std::time::Instant) {
    std::time::Instant::now()
}

/// Calls `Instant::elapsed`: the time passed since `t` on the monotonic
/// clock. Nothing is promised of the reading.
#[verifier::external_body]
fn elapsed_since(t: &std::time::Instant) -> (d: std::time::Duration) {
    t.elapsed()
}

/// Calls `Duration::as_nanos`: the whole nanoseconds of `d`. Nothing is
/// claimed of the value.
#[verifier::external_body]
fn whole_nanos(d: &std::time::Duration) -> (ns: u128) {
    d.as_nanos()
}

/// Nanoseconds passed since `origin` on the monotonic clock.
fn now_nanos(origin: &std::time::Instant) -> (ns: u64) {
    let ns = whole_nanos(&elapsed_since(origin));
    #[verifier::truncate]
    (ns as u64)
}

impl CircuitBreaker {
    /// The breaker's own consistency: an open circuit has reached the
    /// threshold and knows when it last failed; any failure streak has a
    /// time; a trial request is in flight only on a half-open circuit, which
    /// has reached the threshold.
    pub open spec fn wf(&self) -> bool {
        &&& self.state.is_open ==> self.state.failures >= self.config.failure_threshold
        &&& self.state.is_open ==> self.state.last_failure_time is Some
        &&& self.state.failures > 0 ==> self.state.last_failure_time is Some
        &&& self.state.trial_in_flight ==> !self.state.is_open
        &&& self.state.trial_in_flight ==> self.state.failures >= self.config.failure_threshold
        &&& self.state.trial_in_flight ==> self.state.last_failure_time is Some
    }

    /// The recovery timeout has elapsed since the last failure at time `now`.
    pub open spec fn recovered_at(&self, now: u64) -> bool {
        match self.state.last_failure_time {
            Some(t) => elapsed_ns(t, now) >= self.config.recovery_timeout_ms * 1_000_000,
            None => false,
        }
    }

    /// Whether a request asked for at time `now` is let through: never while
    /// a trial request is in flight; otherwise on a closed circuit, or on an
    /// open one whose recovery timeout has elapsed (the trial request).
    pub open spec fn allows_at(&self, now: u64) -> bool {
        !self.state.trial_in_flight && (!self.state.is_open || self.recovered_at(now))
    }

    /// The health reported at time `now`.
    pub open spec fn health_at(&self, now: u64) -> HealthStatus {
        if self.state.is_open {
            if self.recovered_at(now) {
                HealthStatus::Degraded
            } else {
                HealthStatus::Unhealthy
            }
        } else if self.state.failures > 0 {
            HealthStatus::Degraded
        } else {
            HealthStatus::Healthy
        }
    }

    /// State after asking for a request at time `now`: an open circuit whose
    /// recovery timeout has elapsed goes half-open, with this request as its
    /// trial.
    pub open spec fn state_after_allow(&self, now: u64) -> CircuitState {
        if !self.state.trial_in_flight && self.state.is_open && self.recovered_at(now) {
            CircuitState { is_open: false, trial_in_flight: true, ..self.state }
        } else {
            self.state
        }
    }

    /// State after a success: closed, with no failure streak.
    pub open spec fn state_after_success(&self) -> CircuitState {
        CircuitState { failures: 0, is_open: false, trial_in_flight: false, ..self.state }
    }

    /// State after a failure at time `now`.
    pub open spec fn state_after_failure(&self, now: u64) -> CircuitState {
        let failures = (self.state.failures + 1) as u64;
        CircuitState {
            failures,
            last_failure_time: Some(now),
            is_open: self.state.is_open || failures >= self.config.failure_threshold,
            trial_in_flight: false,
        }
    }

    pub fn new(config: CircuitBreakerConfig) -> (cb: Self)
        ensures
            cb.wf(),
            cb.config == config,
            cb.state.failures == 0,
            cb.state.last_failure_time is None,
            !cb.state.is_open,
            !cb.state.trial_in_flight,
            cb.blocked_count == 0,
            cb.success_count == 0,
            cb.failure_count == 0,
    {
        CircuitBreaker {
            state: CircuitState::new(),
            config,
            blocked_count: 0,
            success_count: 0,
            failure_count: 0,
            origin: instant_now(),
        }
    }

    /// Check whether a request is allowed to proceed, at the current time.
    pub fn allow_request(&mut self) -> (allowed: bool)
        requires
            old(self).wf(),
        ensures
            final(self).wf(),
            exists|now: u64|
                {
                    &&& allowed == old(self).allows_at(now)
                    &&& final(self).state == old(self).state_after_allow(now)
                },
            final(self).config == old(self).config,
            final(self).blocked_count == (if allowed {
                old(self).blocked_count
            } else {
                bump(old(self).blocked_count)
            }),
            final(self).success_count == old(self).success_count,
            final(self).failure_count == old(self).failure_count,
    {
        let now = now_nanos(&self.origin);
        self.allow_request_at(now)
    }

    /// Admits a request, or refuses it with an internal error when the
    /// circuit blocks it; the state changes as for `allow_request`.
    pub fn try_admit(&mut self) -> (r: Result<(), GatewayError>)
        requires
            old(self).wf(),
        ensures
            final(self).wf(),
            exists|now: u64|
                {
                    &&& (r is Ok) == old(self).allows_at(now)
                    &&& final(self).state == old(self).state_after_allow(now)
                },
            r matches Err(e) ==> (e matches GatewayError::Internal(m) && m@
                == "circuit breaker is open, request rejected"@),
            final(self).config == old(self).config,
            final(self).blocked_count == (if r is Ok {
                old(self).blocked_count
            } else {
                bump(old(self).blocked_count)
            }),
            final(self).success_count == old(self).success_count,
            final(self).failure_count == old(self).failure_count,
    {
        if self.allow_request() {
            Ok(())
        } else {
            Err(GatewayError::Internal(String::from_str("circuit breaker is open, request rejected")))
        }
    }

    /// Check whether a request is allowed to proceed at time `now_ns`
    /// (nanoseconds since the breaker was made). An open circuit whose
    /// recovery timeout has elapsed goes half-open and lets this request
    /// through as its trial; while the trial is in flight every other request
    /// is blocked.
    pub fn allow_request_at(&mut self, now_ns: u64) -> (allowed: bool)
        requires
            old(self).wf(),
        ensures
            final(self).wf(),
            allowed == old(self).allows_at(now_ns),
            final(self).state == old(self).state_after_allow(now_ns),
            final(self).config == old(self).config,
            final(self).blocked_count == (if allowed {
                old(self).blocked_count
            } else {
                bump(old(self).blocked_count)
            }),
            final(self).success_count == old(self).success_count,
            final(self).failure_count == old(self).failure_count,
    {
        if !self.state.trial_in_flight {
            if !self.state.is_open {
                return true;
            }
            if let Some(last_failure) = self.state.last_failure_time {
                let elapsed = if now_ns >= last_failure {
                    now_ns - last_failure
                } else {
                    0
                };
                if elapsed as u128 >= self.config.recovery_timeout_ms as u128 * 1_000_000 {
                    self.state.is_open = false;
                    self.state.trial_in_flight = true;
                    return true;
                }
            }
        }
        self.blocked_count = self.blocked_count.wrapping_add(1);
        false
    }

    /// Record a successful operation.
    pub fn record_success(&mut self)
        requires
            old(self).wf(),
        ensures
            final(self).wf(),
            final(self).state == old(self).state_after_success(),
            final(self).config == old(self).config,
            final(self).success_count == bump(old(self).success_count),
            final(self).blocked_count == old(self).blocked_count,
            final(self).failure_count == old(self).failure_count,
    {
        self.state.failures = 0;
        self.state.is_open = false;
        self.state.trial_in_flight = false;
        self.success_count = self.success_count.wrapping_add(1);
    }

    /// Record a failed operation, at the current time.
    pub fn record_failure(&mut self)
        requires
            old(self).wf(),
            old(self).state.failures < u64::MAX,
        ensures
            final(self).wf(),
            exists|now: u64| final(self).state == old(self).state_after_failure(now),
            final(self).config == old(self).config,
            final(self).failure_count == bump(old(self).failure_count),
            final(self).blocked_count == old(self).blocked_count,
            final(self).success_count == old(self).success_count,
    {
        let now = now_nanos(&self.origin);
        self.record_failure_at(now);
    }

    /// Record a failed operation at time `now_ns`; the circuit opens once the
    /// streak of consecutive failures reaches the threshold.
    pub fn record_failure_at(&mut self, now_ns: u64)
        requires
            old(self).wf(),
            old(self).state.failures < u64::MAX,
        ensures
            final(self).wf(),
            final(self).state == old(self).state_after_failure(now_ns),
            final(self).config == old(self).config,
            final(self).failure_count == bump(old(self).failure_count),
            final(self).blocked_count == old(self).blocked_count,
            final(self).success_count == old(self).success_count,
    {
        self.state.failures = self.state.failures + 1;
        self.state.last_failure_time = Some(now_ns);
        self.state.trial_in_flight = false;
        self.failure_count = self.failure_count.wrapping_add(1);
        if self.state.failures >= self.config.failure_threshold {
            self.state.is_open = true;
        }
    }

    /// Current health status, at the current time.
    pub fn health(&self) -> (h: HealthStatus)
        requires
            self.wf(),
        ensures
            exists|now: u64| h == self.health_at(now),
    {
        let now = now_nanos(&self.origin);
        self.health_at_time(now)
    }

    /// Health status at time `now_ns`: an open circuit is unhealthy until its
    /// recovery timeout elapses and degraded (half-open) after; a closed
    /// circuit with a failure streak is degraded; otherwise healthy.
    pub fn health_at_time(&self, now_ns: u64) -> (h: HealthStatus)
        requires
            self.wf(),
        ensures
            h == self.health_at(now_ns),
    {
        if self.state.is_open {
            match self.state.last_failure_time {
                Some(last_failure) => {
                    let elapsed = if now_ns >= last_failure {
                        now_ns - last_failure
                    } else {
                        0
                    };
                    if elapsed as u128 >= self.config.recovery_timeout_ms as u128 * 1_000_000 {
                        HealthStatus::Degraded
                    } else {
                        HealthStatus::Unhealthy
                    }
                },
                None => HealthStatus::Unhealthy,
            }
        } else if self.state.failures > 0 {
            HealthStatus::Degraded
        } else {
            HealthStatus::Healthy
        }
    }

    /// Number of consecutive failures recorded.
    pub fn failures(&self) -> (n: u64)
        ensures
            n == self.state.failures,
    {
        self.state.failures
    }

    /// Whether the circuit is open.
    pub fn is_open(&self) -> (b: bool)
        ensures
            b == self.state.is_open,
    {
        self.state.is_open
    }
}

/// The breaker as it stands after failures recorded at each time of `times`, in order.
pub open spec fn after_failures(cb: CircuitBreaker, times: Seq<u64>) -> CircuitBreaker
    decreases times.len(),
{
    if times.len() == 0 {
        cb
    } else {
        let before = after_failures(cb, times.drop_last());
        CircuitBreaker { state: before.state_after_failure(times.last()), ..before }
    }
}

/// Outside a trial, an unhealthy breaker is exactly one that blocks: at any
/// time, the health probe reports `Unhealthy` if and only if a request asked
/// for then is refused. During a trial the breaker blocks without being
/// unhealthy.
pub proof fn lemma_unhealthy_iff_blocked(cb: CircuitBreaker, now: u64)
    requires
        cb.wf(),
    ensures
        !cb.state.trial_in_flight ==> ((cb.health_at(now) == HealthStatus::Unhealthy)
            <==> !cb.allows_at(now)),
        cb.state.trial_in_flight ==> !cb.allows_at(now) && cb.health_at(now)
            != HealthStatus::Unhealthy,
{
}

/// A recorded success closes the circuit and clears the failure streak, so the
/// breaker reports `Healthy` and lets requests through at any time afterwards.
pub proof fn lemma_success_restores_health(cb: CircuitBreaker, now: u64)
    requires
        cb.wf(),
    ensures
        ({
            let after = CircuitBreaker { state: cb.state_after_success(), ..cb };
            &&& after.wf()
            &&& after.health_at(now) == HealthStatus::Healthy
            &&& after.allows_at(now)
        }),
{
}

/// From a closed breaker with no failures, `k` consecutive failures leave a
/// streak of exactly `k`, remember the time of the last one, and open the
/// circuit exactly when `k` is positive and reaches the threshold.
pub proof fn lemma_consecutive_failures(cb: CircuitBreaker, times: Seq<u64>)
    requires
        cb.wf(),
        cb.state.failures == 0,
        !cb.state.is_open,
        !cb.state.trial_in_flight,
        times.len() < u64::MAX,
    ensures
        after_failures(cb, times).wf(),
        !after_failures(cb, times).state.trial_in_flight,
        after_failures(cb, times).config == cb.config,
        after_failures(cb, times).state.failures == times.len(),
        after_failures(cb, times).state.is_open == (times.len() > 0 && times.len()
            >= cb.config.failure_threshold),
        times.len() > 0 ==> after_failures(cb, times).state.last_failure_time == Some(
            times.last(),
        ),
    decreases times.len(),
{
    if times.len() > 0 {
        lemma_consecutive_failures(cb, times.drop_last());
    }
}

/// Once `failure_threshold` (at least one) consecutive failures have been
/// recorded on a fresh breaker, requests are refused and the breaker reports
/// `Unhealthy` until the recovery timeout has elapsed since the last failure.
pub proof fn lemma_threshold_failures_block(cb: CircuitBreaker, times: Seq<u64>, now: u64)
    requires
        cb.wf(),
        cb.state.failures == 0,
        !cb.state.is_open,
        !cb.state.trial_in_flight,
        times.len() < u64::MAX,
        cb.config.failure_threshold >= 1,
        times.len() >= cb.config.failure_threshold,
        elapsed_ns(times.last(), now) < cb.config.recovery_timeout_ms * 1_000_000,
    ensures
        !after_failures(cb, times).allows_at(now),
        after_failures(cb, times).health_at(now) == HealthStatus::Unhealthy,
{
    lemma_consecutive_failures(cb, times);
}

/// Once the recovery timeout has elapsed after the circuit opened, the probe
/// reports `Degraded` and the next request goes through as the half-open
/// circuit's single trial; a success after it brings the breaker back to
/// `Healthy`.
pub proof fn lemma_recovery_after_timeout(cb: CircuitBreaker, now: u64, later: u64)
    requires
        cb.wf(),
        cb.state.is_open,
        cb.recovered_at(now),
    ensures
        cb.health_at(now) == HealthStatus::Degraded,
        cb.allows_at(now),
        cb.state_after_allow(now).trial_in_flight,
        ({
            let half_open = CircuitBreaker { state: cb.state_after_allow(now), ..cb };
            let closed = CircuitBreaker { state: half_open.state_after_success(), ..half_open };
            &&& half_open.wf()
            &&& closed.health_at(later) == HealthStatus::Healthy
            &&& closed.allows_at(later)
        }),
{
}

/// Half-open admits one trial request: while it is in flight every other
/// request is refused and leaves the state as it is, until a success or a
/// failure is recorded. A failed trial opens the circuit again, refusing
/// requests until the recovery timeout has elapsed since that failure.
pub proof fn lemma_single_trial(cb: CircuitBreaker, later: u64, failed_at: u64, after: u64)
    requires
        cb.wf(),
        cb.state.trial_in_flight,
        cb.state.failures < u64::MAX,
        cb.config.failure_threshold >= 1,
        elapsed_ns(failed_at, after) < cb.config.recovery_timeout_ms * 1_000_000,
    ensures
        !cb.allows_at(later),
        cb.state_after_allow(later) == cb.state,
        ({
            let reopened = CircuitBreaker { state: cb.state_after_failure(failed_at), ..cb };
            &&& reopened.wf()
            &&& reopened.state.is_open
            &&& !reopened.state.trial_in_flight
            &&& !reopened.allows_at(after)
        }),
{
}

/// Seed the gateway's jitter generator starts from.
pub const INITIAL_SEED: u64 = 0x1234567890abcdef;

/// One step of the xorshift generator (shifts 13, 7, 17).
pub open spec fn xorshift(s: u64) -> u64 {
    let a = s ^ ((s << 13u64) as u64);
    let b = a ^ (a >> 7u64);
    b ^ ((b << 17u64) as u64)
}

/// Advances the generator state held in `seed` and returns the new state,
/// which is also the random number drawn.
pub fn random(seed: &mut u64) -> (r: u64)
    ensures
        *final(seed) == xorshift(*old(seed)),
        r == *final(seed),
{
    let mut s = *seed;
    s = s ^ (s << 13u64);
    s = s ^ (s >> 7u64);
    s = s ^ (s << 17u64);
    *seed = s;
    s
}

/// The generator never reaches the all-zero state from a non-zero seed, so it
/// keeps producing numbers rather than collapsing to zero.
pub proof fn lemma_xorshift_nonzero(s: u64)
    requires
        s != 0,
    ensures
        xorshift(s) != 0,
{
    assert(s != 0 ==> (s ^ ((s << 13u64) as u64)) != 0) by (bit_vector);
    let a = s ^ ((s << 13u64) as u64);
    assert(a != 0 ==> (a ^ (a >> 7u64)) != 0) by (bit_vector);
    let b = a ^ (a >> 7u64);
    assert(b != 0 ==> (b ^ ((b << 17u64) as u64)) != 0) by (bit_vector);
}

/// Retry limits. Durations are whole milliseconds.
#[derive(Clone, Copy, Debug)]
pub struct RetryConfig {
    /// Maximum number of retry attempts
    pub max_retries: u32,
    /// Initial backoff duration
    pub initial_backoff_ms: u64,
    /// Maximum backoff duration
    pub max_backoff_ms: u64,
}

impl Default for RetryConfig {
    fn default() -> (c: Self)
        ensures
            c.max_retries == 3,
            c.initial_backoff_ms == 100,
            c.max_backoff_ms == 5000,
    {
        RetryConfig { max_retries: 3, initial_backoff_ms: 100, max_backoff_ms: 5000 }
    }
}

/// Progress of one retried operation.
#[derive(Clone, Copy, Debug)]
pub struct RetryState {
    /// Failed attempts so far
    pub attempt: u32,
    /// Delay before the next attempt
    pub backoff_ms: u64,
}

/// What to do after a failed attempt.
#[derive(Clone, Copy, Debug, PartialEq, Eq, Structural)]
pub enum RetryDecision {
    /// Every retry is spent: return the error.
    GiveUp,
    /// Sleep this many milliseconds, then try again.
    RetryAfter(u64),
}

/// Backoff for the attempt after next, from the scaled backoff (the current
/// backoff times the multiplier): capped at the maximum, then increased by a
/// jitter of up to a tenth drawn from the generator (saturating at the
/// largest `u64`). Returns the backoff and
/// the generator state after the draw (unchanged when there is no jitter).
pub open spec fn next_backoff(scaled_ms: u64, max_backoff_ms: u64, seed: u64) -> (u64, u64) {
    let capped = if scaled_ms < max_backoff_ms {
        scaled_ms
    } else {
        max_backoff_ms
    };
    let jitter = capped / 10;
    if jitter > 0 {
        let drawn = xorshift(seed);
        let jittered = capped + (((drawn % jitter) as u32) as u64);
        (if jittered > u64::MAX {
            u64::MAX
        } else {
            jittered as u64
        }, drawn)
    } else {
        (capped, seed)
    }
}

/// One failed attempt, as a pure step: the new state, the decision, and the
/// generator state after it.
pub open spec fn retry_step(state: RetryState, config: RetryConfig, scaled_ms: u64, seed: u64) -> (
    RetryState,
    RetryDecision,
    u64,
) {
    let attempt = (state.attempt + 1) as u32;
    if attempt > config.max_retries {
        (RetryState { attempt, ..state }, RetryDecision::GiveUp, seed)
    } else {
        let (backoff, seed2) = next_backoff(scaled_ms, config.max_backoff_ms, seed);
        (RetryState { attempt, backoff_ms: backoff }, RetryDecision::RetryAfter(state.backoff_ms), seed2)
    }
}

impl RetryState {
    /// State before the first attempt.
    pub fn start(config: &RetryConfig) -> (s: Self)
        ensures
            s.attempt == 0,
            s.backoff_ms == config.initial_backoff_ms,
    {
        RetryState { attempt: 0, backoff_ms: config.initial_backoff_ms }
    }

    /// Handles a failed attempt: records the failure on the breaker, counts
    /// the attempt, and either gives up (all retries spent) or says how long
    /// to sleep before retrying. `scaled_backoff_ms` is the current backoff
    /// times the configured multiplier; `seed` feeds the jitter.
    pub fn on_failure(
        &mut self,
        circuit_breaker: &mut CircuitBreaker,
        config: &RetryConfig,
        scaled_backoff_ms: u64,
        seed: &mut u64,
    ) -> (decision: RetryDecision)
        requires
            old(self).attempt < u32::MAX,
            old(circuit_breaker).wf(),
            old(circuit_breaker).state.failures < u64::MAX,
        ensures
            (*final(self), decision, *final(seed)) == retry_step(
                *old(self),
                *config,
                scaled_backoff_ms,
                *old(seed),
            ),
            final(circuit_breaker).wf(),
            exists|now: u64|
                final(circuit_breaker).state == old(circuit_breaker).state_after_failure(now),
            final(circuit_breaker).config == old(circuit_breaker).config,
            final(circuit_breaker).failure_count == bump(old(circuit_breaker).failure_count),
            final(circuit_breaker).blocked_count == old(circuit_breaker).blocked_count,
            final(circuit_breaker).success_count == old(circuit_breaker).success_count,
    {
        circuit_breaker.record_failure();
        let attempt = self.attempt + 1;
        self.attempt = attempt;
        if attempt > config.max_retries {
            return RetryDecision::GiveUp;
        }
        let sleep_ms = self.backoff_ms;
        let capped = if scaled_backoff_ms < config.max_backoff_ms {
            scaled_backoff_ms
        } else {
            config.max_backoff_ms
        };
        let jitter = capped / 10;
        let mut next = capped;
        if jitter > 0 {
            let drawn = random(seed);
            let jitter_ms = (drawn % jitter) as u32;
            next = if jitter_ms as u64 > u64::MAX - capped {
                u64::MAX
            } else {
                capped + jitter_ms as u64
            };
        }
        self.backoff_ms = next;
        RetryDecision::RetryAfter(sleep_ms)
    }
}

/// Decisions for a run of consecutive failures, starting at `state`; the
/// `i`-th failure sees `scaled[i]` as its scaled backoff.
pub open spec fn retry_run(state: RetryState, config: RetryConfig, scaled: Seq<u64>, seed: u64) -> (
    RetryState,
    Seq<RetryDecision>,
    u64,
)
    decreases scaled.len(),
{
    if scaled.len() == 0 {
        (state, Seq::empty(), seed)
    } else {
        let (s1, decisions, seed1) = retry_run(state, config, scaled.drop_last(), seed);
        let (s2, d, seed2) = retry_step(s1, config, scaled.last(), seed1);
        (s2, decisions.push(d), seed2)
    }
}

/// Retry budget: starting before the first attempt, the `i`-th consecutive
/// failure (counting from zero) leads to a retry exactly when `i` is below
/// `max_retries`, so an operation runs at most `max_retries + 1` times.
pub proof fn lemma_retry_budget(config: RetryConfig, initial: RetryState, scaled: Seq<u64>, seed: u64)
    requires
        initial.attempt == 0,
        scaled.len() < u32::MAX,
    ensures
        retry_run(initial, config, scaled, seed).1.len() == scaled.len(),
        retry_run(initial, config, scaled, seed).0.attempt == scaled.len(),
        forall|i: int|
            0 <= i < scaled.len() ==> (#[trigger] retry_run(initial, config, scaled, seed).1[i]
                == RetryDecision::GiveUp <==> i >= config.max_retries),
    decreases scaled.len(),
{
    if scaled.len() > 0 {
        lemma_retry_budget(config, initial, scaled.drop_last(), seed);
    }
}

/// The next backoff lies between the capped scaled backoff and that cap plus
/// a tenth of it, so it never exceeds the maximum backoff by more than a
/// tenth.
pub proof fn lemma_backoff_bounds(scaled_ms: u64, max_backoff_ms: u64, seed: u64)
    ensures
        ({
            let capped = if scaled_ms < max_backoff_ms {
                scaled_ms
            } else {
                max_backoff_ms
            };
            &&& capped <= next_backoff(scaled_ms, max_backoff_ms, seed).0
            &&& next_backoff(scaled_ms, max_backoff_ms, seed).0 <= capped + capped / 10
            &&& next_backoff(scaled_ms, max_backoff_ms, seed).0 <= max_backoff_ms
                + max_backoff_ms / 10
        }),
{
}

} // verus!
