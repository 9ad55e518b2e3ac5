//! Throttled per-route retry and multi-route fallback.
//!
//! A [`SingleRouteThrottlingConnectionManager`] protects one route from
//! attempt storms: it counts consecutive retryable failures and, once the
//! count reaches the configured threshold, refuses further attempts until a
//! cooldown deadline computed by bounded exponential backoff. A
//! [`MultiRouteConnectionManager`] holds the single-route managers in
//! caller-specified preference order and produces one connection, or an
//! aggregate error that is fatal exactly when some attempted route failed
//! fatally.
//!
//! The network itself is outside this module: callers perform the actual
//! connection attempt and report its outcome ([`RouteAttemptOutcome`]); the
//! managers decide, for every possible outcome, whether an attempt was
//! allowed, what the caller gets back, and how the backoff state moves.
//! Times are monotonic milliseconds supplied by the caller. Each manager
//! owns its backoff state, and every update happens inside one exclusive
//! (`&mut`) call: two attempts can never race past the cooldown check,
//! because the read and the update of the failure count and deadline form
//! one step.

use vstd::prelude::*;

use crate::errors::ErrorClass;
use crate::errors::ErrorClassifier;
use crate::errors::TransportConnectError;
use crate::routes::ConnectionInfo;
use crate::routes::ConnectionParams;
use crate::routes::DnsSource;
use crate::routes::Host;
use crate::routes::RouteType;

verus! {

/// `a + b`, stopping at the largest representable time.
pub open spec fn sat_add64(a: u64, b: u64) -> u64 {
    if a + b <= u64::MAX {
        (a + b) as u64
    } else {
        u64::MAX
    }
}

/// `a + b`, stopping at the largest representable time.
pub fn sat_add(a: u64, b: u64) -> (r: u64)
    ensures
        r == sat_add64(a, b),
{
    if a <= u64::MAX - b {
        a + b
    } else {
        u64::MAX
    }
}

/// Per-route retry policy: how many consecutive retryable failures are
/// tolerated before a cooldown starts, and how the cooldown grows.
#[derive(Copy, Clone, Debug, PartialEq, Eq, Structural)]
pub struct RetryConfig {
    /// Number of consecutive retryable failures at which cooldowns begin.
    pub failure_threshold: u32,
    /// Cooldown after the threshold is first reached, in milliseconds.
    pub base_cooldown_ms: u64,
    /// Upper bound on any cooldown, in milliseconds.
    pub max_cooldown_ms: u64,
}

impl RetryConfig {
    /// A policy is well formed when the threshold is positive and the base
    /// cooldown is positive and no larger than the cap.
    pub open spec fn wf(self) -> bool {
        self.failure_threshold >= 1 && 1 <= self.base_cooldown_ms <= self.max_cooldown_ms
    }
}

/// The cooldown `k` doubling steps past the threshold: the base duration
/// doubled `k` times, stopping at the cap.
pub open spec fn spec_backoff_steps(cfg: RetryConfig, k: nat) -> u64
    decreases k,
{
    if k == 0 {
        cfg.base_cooldown_ms
    } else {
        let p = spec_backoff_steps(cfg, (k - 1) as nat);
        if p <= cfg.max_cooldown_ms / 2 {
            (2 * p) as u64
        } else {
            cfg.max_cooldown_ms
        }
    }
}

/// Every doubling step stays between the base duration and the cap.
pub proof fn lemma_backoff_steps_bounds(cfg: RetryConfig, k: nat)
    requires
        cfg.wf(),
    ensures
        cfg.base_cooldown_ms <= spec_backoff_steps(cfg, k) <= cfg.max_cooldown_ms,
    decreases k,
{
    if k > 0 {
        lemma_backoff_steps_bounds(cfg, (k - 1) as nat);
    }
}

/// The doubling sequence never decreases from one step to the next.
pub proof fn lemma_backoff_steps_monotone(cfg: RetryConfig, k1: nat, k2: nat)
    requires
        cfg.wf(),
        k1 <= k2,
    ensures
        spec_backoff_steps(cfg, k1) <= spec_backoff_steps(cfg, k2),
    decreases k2 - k1,
{
    if k1 < k2 {
        lemma_backoff_steps_monotone(cfg, k1, (k2 - 1) as nat);
        lemma_backoff_steps_bounds(cfg, (k2 - 1) as nat);
    }
}

/// The cooldown entered after `fails` consecutive retryable failures: none
/// below the threshold, then bounded exponential backoff.
pub open spec fn spec_cooldown_after(cfg: RetryConfig, fails: u32) -> u64 {
    if fails < cfg.failure_threshold {
        0
    } else {
        spec_backoff_steps(cfg, (fails - cfg.failure_threshold) as nat)
    }
}

/// The cooldown duration is monotonically non-decreasing in the
/// consecutive-failure count, and bounded above by the configured cap.
pub proof fn lemma_cooldown_monotone_bounded(cfg: RetryConfig, n1: u32, n2: u32)
    requires
        cfg.wf(),
        n1 <= n2,
    ensures
        spec_cooldown_after(cfg, n1) <= spec_cooldown_after(cfg, n2),
        spec_cooldown_after(cfg, n2) <= cfg.max_cooldown_ms,
{
    if n2 >= cfg.failure_threshold {
        lemma_backoff_steps_bounds(cfg, (n2 - cfg.failure_threshold) as nat);
        if n1 >= cfg.failure_threshold {
            lemma_backoff_steps_monotone(
                cfg,
                (n1 - cfg.failure_threshold) as nat,
                (n2 - cfg.failure_threshold) as nat,
            );
        }
    }
}

/// Compute the cooldown after `fails` consecutive retryable failures.
#[verifier::loop_isolation(false)]
pub fn cooldown_after(cfg: &RetryConfig, fails: u32) -> (r: u64)
    requires
        cfg.wf(),
    ensures
        r == spec_cooldown_after(*cfg, fails),
{
    if fails < cfg.failure_threshold {
        return 0;
    }
    let k = fails - cfg.failure_threshold;
    let mut cur = cfg.base_cooldown_ms;
    let mut i: u32 = 0;
    while i < k
        invariant
            cfg.wf(),
            i <= k,
            cur == spec_backoff_steps(*cfg, i as nat),
        decreases k - i,
    {
        if cur >= cfg.max_cooldown_ms {
            proof {
                lemma_backoff_steps_bounds(*cfg, i as nat);
                lemma_backoff_steps_monotone(*cfg, i as nat, k as nat);
                lemma_backoff_steps_bounds(*cfg, k as nat);
            }
            return cur;
        }
        if cur <= cfg.max_cooldown_ms / 2 {
            cur = 2 * cur;
        } else {
            cur = cfg.max_cooldown_ms;
        }
        i = i + 1;
    }
    cur
}

/// What one network attempt on a route yielded, as reported by the caller
/// that performed it.
#[derive(Clone, Debug)]
pub enum RouteAttemptOutcome {
    /// A stream was established; the DNS provenance and the address used.
    Connected(DnsSource, Host),
    /// The attempt exceeded the per-attempt timeout and was abandoned.
    TimedOut,
    /// The attempt failed with a transport error.
    Failed(TransportConnectError),
}

impl RouteAttemptOutcome {
    /// Whether this outcome is a failure that throttling should count.
    pub open spec fn is_retryable_failure(self) -> bool {
        match self {
            RouteAttemptOutcome::Connected(_, _) => false,
            RouteAttemptOutcome::TimedOut => true,
            RouteAttemptOutcome::Failed(e) => e.spec_classify() == ErrorClass::Retryable,
        }
    }
}

/// Failure of one `connect` call on a single-route manager.
#[derive(Copy, Clone, Debug, PartialEq, Eq, Structural)]
pub enum RouteConnectError {
    /// The route is cooling down; no attempt was made. Retry no earlier than
    /// the given time.
    Throttled { retry_at_ms: u64 },
    /// The attempt exceeded the per-attempt timeout.
    TimedOut,
    /// The attempt failed with a transport error.
    Transport(TransportConnectError),
}

impl ErrorClassifier for RouteConnectError {
    open spec fn spec_classify(&self) -> ErrorClass {
        match self {
            RouteConnectError::Throttled { .. } => ErrorClass::Retryable,
            RouteConnectError::TimedOut => ErrorClass::Retryable,
            RouteConnectError::Transport(e) => e.spec_classify(),
        }
    }

    fn classify(&self) -> (r: ErrorClass) {
        match self {
            RouteConnectError::Throttled { .. } => ErrorClass::Retryable,
            RouteConnectError::TimedOut => ErrorClass::Retryable,
            RouteConnectError::Transport(e) => e.classify(),
        }
    }
}

/// Owns the retry and backoff state of exactly one route.
#[derive(Clone, Debug)]
pub struct SingleRouteThrottlingConnectionManager {
    /// The route this manager protects.
    pub connection_params: ConnectionParams,
    /// Bound on each individual connection attempt, in milliseconds.
    pub connect_timeout_ms: u64,
    /// Retry policy for this route.
    pub retry: RetryConfig,
    /// Consecutive retryable failures since the last success.
    pub consecutive_fails: u32,
    /// Time of the most recent attempt, in milliseconds.
    pub last_attempt_ms: u64,
    /// No attempts are allowed before this time; zero when not cooling down.
    pub cooldown_until_ms: u64,
}

impl SingleRouteThrottlingConnectionManager {
    /// A manager is well formed when its route and policy are.
    pub open spec fn wf(self) -> bool {
        self.retry.wf() && self.connection_params.wf()
    }

    /// A fresh manager with no failure history.
    pub fn new(connection_params: ConnectionParams, connect_timeout_ms: u64, retry: RetryConfig) -> (r:
        SingleRouteThrottlingConnectionManager)
        requires
            connection_params.wf(),
            retry.wf(),
        ensures
            r.wf(),
            r.connection_params == connection_params,
            r.connect_timeout_ms == connect_timeout_ms,
            r.retry == retry,
            r.consecutive_fails == 0,
            r.last_attempt_ms == 0,
            r.cooldown_until_ms == 0,
    {
        SingleRouteThrottlingConnectionManager {
            connection_params,
            connect_timeout_ms,
            retry,
            consecutive_fails: 0,
            last_attempt_ms: 0,
            cooldown_until_ms: 0,
        }
    }

    /// Whether the manager refuses attempts at time `now`.
    pub open spec fn in_cooldown(self, now_ms: u64) -> bool {
        now_ms < self.cooldown_until_ms
    }

    /// The manager after recording one retryable failure at time `now`: the
    /// failure count grows by one, and once it reaches the threshold a
    /// cooldown deadline is set by bounded exponential backoff.
    pub open spec fn spec_record_failure(self, now_ms: u64) -> SingleRouteThrottlingConnectionManager {
        let n = if self.consecutive_fails < u32::MAX {
            (self.consecutive_fails + 1) as u32
        } else {
            u32::MAX
        };
        SingleRouteThrottlingConnectionManager {
            consecutive_fails: n,
            last_attempt_ms: now_ms,
            cooldown_until_ms: if n >= self.retry.failure_threshold {
                sat_add64(now_ms, spec_cooldown_after(self.retry, n))
            } else {
                self.cooldown_until_ms
            },
            ..self
        }
    }

    /// What one `connect` call does: the manager afterwards, and what the
    /// caller gets back.
    ///
    /// Within a cooldown window the call fails fast with a throttled error
    /// and the state is untouched; the reported outcome is not consulted,
    /// because no attempt is made. Otherwise the outcome of the one attempt
    /// decides: success resets the failure count and cooldown; a timeout or
    /// retryable transport error is recorded by [`Self::spec_record_failure`];
    /// a fatal transport error propagates with the throttling state untouched.
    pub open spec fn spec_connect(self, now_ms: u64, outcome: RouteAttemptOutcome) -> (
        SingleRouteThrottlingConnectionManager,
        Result<ConnectionInfo, RouteConnectError>,
    ) {
        if self.in_cooldown(now_ms) {
            (self, Err(RouteConnectError::Throttled { retry_at_ms: self.cooldown_until_ms }))
        } else {
            match outcome {
                RouteAttemptOutcome::Connected(dns_source, address) => (
                    SingleRouteThrottlingConnectionManager {
                        consecutive_fails: 0,
                        last_attempt_ms: now_ms,
                        cooldown_until_ms: 0,
                        ..self
                    },
                    Ok(
                        ConnectionInfo {
                            route_type: self.connection_params.route_type,
                            dns_source,
                            address,
                        },
                    ),
                ),
                RouteAttemptOutcome::TimedOut => (
                    self.spec_record_failure(now_ms),
                    Err(RouteConnectError::TimedOut),
                ),
                RouteAttemptOutcome::Failed(e) => if e.spec_classify() == ErrorClass::Fatal {
                    (
                        SingleRouteThrottlingConnectionManager { last_attempt_ms: now_ms, ..self },
                        Err(RouteConnectError::Transport(e)),
                    )
                } else {
                    (self.spec_record_failure(now_ms), Err(RouteConnectError::Transport(e)))
                },
            }
        }
    }

    /// One throttled connection attempt at time `now`, whose network outcome
    /// (when an attempt is allowed) is `outcome`.
    pub fn connect(&mut self, now_ms: u64, outcome: &RouteAttemptOutcome) -> (r: Result<
        ConnectionInfo,
        RouteConnectError,
    >)
        requires
            old(self).wf(),
        ensures
            final(self).wf(),
            *final(self) == old(self).spec_connect(now_ms, *outcome).0,
            r == old(self).spec_connect(now_ms, *outcome).1,
    {
        if now_ms < self.cooldown_until_ms {
            return Err(RouteConnectError::Throttled { retry_at_ms: self.cooldown_until_ms });
        }
        self.last_attempt_ms = now_ms;
        match outcome {
            RouteAttemptOutcome::Connected(dns_source, address) => {
                self.consecutive_fails = 0;
                self.cooldown_until_ms = 0;
                Ok(
                    ConnectionInfo {
                        route_type: self.connection_params.route_type,
                        dns_source: *dns_source,
                        address: address.duplicate(),
                    },
                )
            },
            RouteAttemptOutcome::TimedOut => {
                self.record_failure(now_ms);
                Err(RouteConnectError::TimedOut)
            },
            RouteAttemptOutcome::Failed(e) => {
                if e.classify() == ErrorClass::Fatal {
                    Err(RouteConnectError::Transport(*e))
                } else {
                    self.record_failure(now_ms);
                    Err(RouteConnectError::Transport(*e))
                }
            },
        }
    }

    /// Record one retryable failure at time `now`.
    fn record_failure(&mut self, now_ms: u64)
        requires
            old(self).wf(),
        ensures
            *final(self) == old(self).spec_record_failure(now_ms),
    {
        if self.consecutive_fails < u32::MAX {
            self.consecutive_fails = self.consecutive_fails + 1;
        }
        if self.consecutive_fails >= self.retry.failure_threshold {
            let d = cooldown_after(&self.retry, self.consecutive_fails);
            self.cooldown_until_ms = sat_add(now_ms, d);
        }
        self.last_attempt_ms = now_ms;
    }

    /// A network-change event clears any active cooldown for this route:
    /// reachability assumptions are reset.
    pub fn on_network_change(&mut self)
        ensures
            old(self).wf() ==> final(self).wf(),
            final(self).cooldown_until_ms == 0,
            final(self).connection_params == old(self).connection_params,
            final(self).connect_timeout_ms == old(self).connect_timeout_ms,
            final(self).retry == old(self).retry,
            final(self).consecutive_fails == old(self).consecutive_fails,
            final(self).last_attempt_ms == old(self).last_attempt_ms,
    {
        self.cooldown_until_ms = 0;
    }
}

/// Below the failure threshold nothing throttles: a fresh or lightly failed
/// route takes every attempt, each retryable failure just counts, and no
/// cooldown deadline is set.
pub proof fn lemma_no_throttle_below_threshold(
    m: SingleRouteThrottlingConnectionManager,
    now_ms: u64,
    outcome: RouteAttemptOutcome,
)
    requires
        m.wf(),
        m.cooldown_until_ms == 0,
        m.consecutive_fails + 1 < m.retry.failure_threshold,
        outcome.is_retryable_failure(),
    ensures
        m.spec_connect(now_ms, outcome).1 is Err,
        m.spec_connect(now_ms, outcome).0.consecutive_fails == m.consecutive_fails + 1,
        m.spec_connect(now_ms, outcome).0.cooldown_until_ms == 0,
{
}

/// After a retryable failure that brings the consecutive-failure count to
/// the threshold or beyond, every further call before the cooldown deadline
/// fails fast with a throttled error and leaves the manager unchanged,
/// whatever the network would have done: no attempt is made until the
/// deadline passes.
pub proof fn lemma_throttled_after_threshold(
    m: SingleRouteThrottlingConnectionManager,
    now_ms: u64,
    outcome: RouteAttemptOutcome,
    later_ms: u64,
    later_outcome: RouteAttemptOutcome,
)
    requires
        m.wf(),
        !m.in_cooldown(now_ms),
        outcome.is_retryable_failure(),
        m.consecutive_fails + 1 >= m.retry.failure_threshold,
        later_ms < m.spec_connect(now_ms, outcome).0.cooldown_until_ms,
    ensures
        m.spec_connect(now_ms, outcome).1 is Err,
        now_ms < u64::MAX ==> m.spec_connect(now_ms, outcome).0.cooldown_until_ms > now_ms,
        m.spec_connect(now_ms, outcome).0.spec_connect(later_ms, later_outcome) == (
            m.spec_connect(now_ms, outcome).0,
            Err::<ConnectionInfo, RouteConnectError>(
                RouteConnectError::Throttled {
                    retry_at_ms: m.spec_connect(now_ms, outcome).0.cooldown_until_ms,
                },
            ),
        ),
{
    let m1 = m.spec_connect(now_ms, outcome).0;
    let n = m1.consecutive_fails;
    assert(n >= m.retry.failure_threshold);
    lemma_cooldown_monotone_bounded(m.retry, m.retry.failure_threshold, n);
    lemma_backoff_steps_bounds(m.retry, (n - m.retry.failure_threshold) as nat);
    assert(spec_cooldown_after(m.retry, n) >= 1);
    assert(m1.in_cooldown(later_ms));
}

/// Holds one single-route manager per configured route, in caller-specified
/// preference order.
#[derive(Clone, Debug)]
pub struct MultiRouteConnectionManager {
    /// The per-route managers, most preferred first.
    pub route_managers: Vec<SingleRouteThrottlingConnectionManager>,
}

/// Aggregate failure of one multi-route `connect` call: the routes that were
/// tried, in order, each with its failure.
#[derive(Clone, Debug)]
pub struct MultiConnectError {
    /// Per attempted route: its classification and its failure.
    pub attempts: Vec<(RouteType, RouteConnectError)>,
}

/// The class of an aggregate failure: fatal exactly when some constituent
/// failure was fatal.
pub open spec fn spec_attempts_class(attempts: Seq<(RouteType, RouteConnectError)>) -> ErrorClass {
    if exists|i: int|
        0 <= i < attempts.len() && attempts[i].1.spec_classify() == ErrorClass::Fatal {
        ErrorClass::Fatal
    } else {
        ErrorClass::Retryable
    }
}

impl ErrorClassifier for MultiConnectError {
    open spec fn spec_classify(&self) -> ErrorClass {
        spec_attempts_class(self.attempts@)
    }

    fn classify(&self) -> (r: ErrorClass) {
        let mut i: usize = 0;
        while i < self.attempts.len()
            invariant
                i <= self.attempts@.len(),
                forall|j: int|
                    0 <= j < i ==> self.attempts@[j].1.spec_classify() != ErrorClass::Fatal,
            decreases self.attempts@.len() - i,
        {
            if self.attempts[i].1.classify() == ErrorClass::Fatal {
                return ErrorClass::Fatal;
            }
            i = i + 1;
        }
        ErrorClass::Retryable
    }
}

/// What a sequential multi-route `connect` does from route `i` on, with the
/// failures of the routes before `i` accumulated in `acc`: managers are
/// consulted in order; the first success wins; a fatal failure stops the
/// walk; otherwise the walk moves to the next route.
pub open spec fn spec_multi_connect(
    mgrs: Seq<SingleRouteThrottlingConnectionManager>,
    now_ms: u64,
    outcomes: Seq<RouteAttemptOutcome>,
    i: int,
    acc: Seq<(RouteType, RouteConnectError)>,
) -> (
    Seq<SingleRouteThrottlingConnectionManager>,
    Result<(int, ConnectionInfo), Seq<(RouteType, RouteConnectError)>>,
)
    decreases mgrs.len() - i,
    when 0 <= i <= mgrs.len()
{
    if i >= mgrs.len() {
        (mgrs, Err(acc))
    } else {
        let stepped = mgrs[i].spec_connect(now_ms, outcomes[i]);
        let mgrs2 = mgrs.update(i, stepped.0);
        match stepped.1 {
            Ok(info) => (mgrs2, Ok((i, info))),
            Err(e) => {
                let acc2 = acc.push((mgrs[i].connection_params.route_type, e));
                if e.spec_classify() == ErrorClass::Fatal {
                    (mgrs2, Err(acc2))
                } else {
                    spec_multi_connect(mgrs2, now_ms, outcomes, i + 1, acc2)
                }
            },
        }
    }
}

impl MultiRouteConnectionManager {
    /// A multi-route manager is well formed when each of its route managers
    /// is.
    pub open spec fn wf(self) -> bool {
        forall|i: int| 0 <= i < self.route_managers@.len() ==> self.route_managers@[i].wf()
    }

    /// Compose the given single-route managers, most preferred first.
    pub fn new(route_managers: Vec<SingleRouteThrottlingConnectionManager>) -> (r:
        MultiRouteConnectionManager)
        ensures
            r.route_managers == route_managers,
    {
        MultiRouteConnectionManager { route_managers }
    }

    /// One multi-route connection attempt at time `now`. Routes are tried in
    /// strict configured order; `outcomes[i]` is what the network attempt on
    /// route `i` yields if one is made. The first success is returned with
    /// its route index; a fatal failure stops the walk at once; otherwise
    /// the walk falls back to the next route, and when every route has
    /// failed the aggregate error lists each tried route with its failure.
    #[verifier::loop_isolation(false)]
    pub fn connect(&mut self, now_ms: u64, outcomes: &Vec<RouteAttemptOutcome>) -> (r: Result<
        (usize, ConnectionInfo),
        MultiConnectError,
    >)
        requires
            old(self).wf(),
            outcomes@.len() == old(self).route_managers@.len(),
        ensures
            final(self).wf(),
            match r {
                Ok((idx, info)) => spec_multi_connect(
                    old(self).route_managers@,
                    now_ms,
                    outcomes@,
                    0,
                    Seq::empty(),
                ) == (final(self).route_managers@, Ok::<_, Seq<(RouteType, RouteConnectError)>>(
                    (idx as int, info),
                )),
                Err(e) => spec_multi_connect(
                    old(self).route_managers@,
                    now_ms,
                    outcomes@,
                    0,
                    Seq::empty(),
                ) == (final(self).route_managers@, Err::<(int, ConnectionInfo), _>(e.attempts@)),
            },
    {
        let n = self.route_managers.len();
        let mut attempts: Vec<(RouteType, RouteConnectError)> = Vec::new();
        let mut i: usize = 0;
        while i < n
            invariant
                i <= n,
                n == self.route_managers@.len(),
                self.wf(),
                spec_multi_connect(
                    old(self).route_managers@,
                    now_ms,
                    outcomes@,
                    0,
                    Seq::empty(),
                ) == spec_multi_connect(
                    self.route_managers@,
                    now_ms,
                    outcomes@,
                    i as int,
                    attempts@,
                ),
            decreases n - i,
        {
            let route_type = self.route_managers[i].connection_params.route_type;
            let step = self.route_managers[i].connect(now_ms, &outcomes[i]);
            match step {
                Ok(info) => {
                    return Ok((i, info));
                },
                Err(e) => {
                    attempts.push((route_type, e));
                    if e.classify() == ErrorClass::Fatal {
                        return Err(MultiConnectError { attempts });
                    }
                    i = i + 1;
                },
            }
        }
        Err(MultiConnectError { attempts })
    }

    /// Diagnostic mode: attempt every route independently, regardless of
    /// earlier successes or failures, and report each route's result in
    /// order.
    #[verifier::loop_isolation(false)]
    pub fn connect_all_routes(&mut self, now_ms: u64, outcomes: &Vec<RouteAttemptOutcome>) -> (r:
        Vec<(RouteType, Result<ConnectionInfo, RouteConnectError>)>)
        requires
            old(self).wf(),
            outcomes@.len() == old(self).route_managers@.len(),
        ensures
            final(self).wf(),
            r@.len() == old(self).route_managers@.len(),
            final(self).route_managers@.len() == old(self).route_managers@.len(),
            forall|j: int|
                0 <= j < r@.len() ==> #[trigger] final(self).route_managers@[j] == old(
                    self,
                ).route_managers@[j].spec_connect(now_ms, outcomes@[j]).0,
            forall|j: int|
                0 <= j < r@.len() ==> #[trigger] r@[j] == (
                    old(self).route_managers@[j].connection_params.route_type,
                    old(self).route_managers@[j].spec_connect(now_ms, outcomes@[j]).1,
                ),
    {
        let n = self.route_managers.len();
        let mut results: Vec<(RouteType, Result<ConnectionInfo, RouteConnectError>)> = Vec::new();
        let mut i: usize = 0;
        while i < n
            invariant
                i <= n,
                n == self.route_managers@.len(),
                self.wf(),
                results@.len() == i,
                forall|j: int| i <= j < n ==> self.route_managers@[j] == old(self).route_managers@[j],
                forall|j: int|
                    0 <= j < i ==> #[trigger] self.route_managers@[j] == old(
                        self,
                    ).route_managers@[j].spec_connect(now_ms, outcomes@[j]).0,
                forall|j: int|
                    0 <= j < i ==> #[trigger] results@[j] == (
                        old(self).route_managers@[j].connection_params.route_type,
                        old(self).route_managers@[j].spec_connect(now_ms, outcomes@[j]).1,
                    ),
            decreases n - i,
        {
            let route_type = self.route_managers[i].connection_params.route_type;
            let step = self.route_managers[i].connect(now_ms, &outcomes[i]);
            results.push((route_type, step));
            i = i + 1;
        }
        results
    }

    /// A network-change event clears every route's cooldown.
    #[verifier::loop_isolation(false)]
    pub fn on_network_change(&mut self)
        ensures
            old(self).wf() ==> final(self).wf(),
            final(self).route_managers@.len() == old(self).route_managers@.len(),
            forall|j: int|
                0 <= j < final(self).route_managers@.len() ==> {
                    let before = old(self).route_managers@[j];
                    let after = #[trigger] final(self).route_managers@[j];
                    after.cooldown_until_ms == 0 && after.connection_params
                        == before.connection_params && after.connect_timeout_ms
                        == before.connect_timeout_ms && after.retry == before.retry
                        && after.consecutive_fails == before.consecutive_fails
                        && after.last_attempt_ms == before.last_attempt_ms
                },
    {
        let n = self.route_managers.len();
        let mut i: usize = 0;
        while i < n
            invariant
                i <= n,
                n == self.route_managers@.len(),
                forall|j: int| i <= j < n ==> self.route_managers@[j] == old(self).route_managers@[j],
                forall|j: int|
                    0 <= j < i ==> {
                        let before = old(self).route_managers@[j];
                        let after = #[trigger] self.route_managers@[j];
                        after.cooldown_until_ms == 0 && after.connection_params
                            == before.connection_params && after.connect_timeout_ms
                            == before.connect_timeout_ms && after.retry == before.retry
                            && after.consecutive_fails == before.consecutive_fails
                            && after.last_attempt_ms == before.last_attempt_ms
                    },
            decreases n - i,
        {
            self.route_managers[i].on_network_change();
            i = i + 1;
        }
    }
}

/// If the routes before `k` fail with retryable errors and route `k`
/// succeeds, the walk returns route `k`'s connection and the managers of the
/// routes after `k` are untouched: those routes are never attempted in that
/// call.
pub proof fn lemma_first_success_stops(
    mgrs: Seq<SingleRouteThrottlingConnectionManager>,
    now_ms: u64,
    outcomes: Seq<RouteAttemptOutcome>,
    i: int,
    acc: Seq<(RouteType, RouteConnectError)>,
    k: int,
)
    requires
        outcomes.len() == mgrs.len(),
        0 <= i <= k < mgrs.len(),
        forall|j: int|
            i <= j < k ==> {
                let e = #[trigger] mgrs[j].spec_connect(now_ms, outcomes[j]).1;
                e is Err && e.get_Err_0().spec_classify() == ErrorClass::Retryable
            },
        mgrs[k].spec_connect(now_ms, outcomes[k]).1 is Ok,
    ensures
        spec_multi_connect(mgrs, now_ms, outcomes, i, acc).1 == Ok::<
            (int, ConnectionInfo),
            Seq<(RouteType, RouteConnectError)>,
        >((k, mgrs[k].spec_connect(now_ms, outcomes[k]).1.get_Ok_0())),
        forall|j: int|
            k < j < mgrs.len() ==> spec_multi_connect(mgrs, now_ms, outcomes, i, acc).0[j]
                == mgrs[j],
    decreases k - i,
{
    let stepped = mgrs[i].spec_connect(now_ms, outcomes[i]);
    let mgrs2 = mgrs.update(i, stepped.0);
    if i == k {
        assert forall|j: int|
            k < j < mgrs.len() implies spec_multi_connect(mgrs, now_ms, outcomes, i, acc).0[j]
            == mgrs[j] by {
            assert(spec_multi_connect(mgrs, now_ms, outcomes, i, acc).0 == mgrs2);
            assert(mgrs2[j] == mgrs[j]);
        }
    } else {
        let acc2 = acc.push((mgrs[i].connection_params.route_type, stepped.1.get_Err_0()));
        lemma_first_success_stops(mgrs2, now_ms, outcomes, i + 1, acc2, k);
        assert forall|j: int|
            k < j < mgrs.len() implies spec_multi_connect(mgrs, now_ms, outcomes, i, acc).0[j]
            == mgrs[j] by {
            assert(spec_multi_connect(mgrs, now_ms, outcomes, i, acc) == spec_multi_connect(
                mgrs2,
                now_ms,
                outcomes,
                i + 1,
                acc2,
            ));
            assert(spec_multi_connect(mgrs2, now_ms, outcomes, i + 1, acc2).0[j] == mgrs2[j]);
            assert(mgrs2[j] == mgrs[j]);
        }
    }
}

/// When every remaining route fails with a retryable error, the walk tries
/// them all, every tried route is listed, and the aggregate stays retryable:
/// the caller may wait and re-invoke.
pub proof fn lemma_all_retryable_aggregate(
    mgrs: Seq<SingleRouteThrottlingConnectionManager>,
    now_ms: u64,
    outcomes: Seq<RouteAttemptOutcome>,
    i: int,
    acc: Seq<(RouteType, RouteConnectError)>,
)
    requires
        outcomes.len() == mgrs.len(),
        0 <= i <= mgrs.len(),
        forall|j: int|
            i <= j < mgrs.len() ==> {
                let e = #[trigger] mgrs[j].spec_connect(now_ms, outcomes[j]).1;
                e is Err && e.get_Err_0().spec_classify() == ErrorClass::Retryable
            },
        spec_attempts_class(acc) == ErrorClass::Retryable,
    ensures
        spec_multi_connect(mgrs, now_ms, outcomes, i, acc).1 is Err,
        spec_multi_connect(mgrs, now_ms, outcomes, i, acc).1.get_Err_0().len() == acc.len()
            + mgrs.len() - i,
        spec_attempts_class(
            spec_multi_connect(mgrs, now_ms, outcomes, i, acc).1.get_Err_0(),
        ) == ErrorClass::Retryable,
    decreases mgrs.len() - i,
{
    if i < mgrs.len() {
        let stepped = mgrs[i].spec_connect(now_ms, outcomes[i]);
        let mgrs2 = mgrs.update(i, stepped.0);
        let acc2 = acc.push((mgrs[i].connection_params.route_type, stepped.1.get_Err_0()));
        assert(spec_attempts_class(acc2) == ErrorClass::Retryable) by {
            assert forall|k: int|
                0 <= k < acc2.len() implies acc2[k].1.spec_classify() != ErrorClass::Fatal by {
                if k < acc.len() {
                    assert(acc2[k] == acc[k]);
                }
            }
        }
        lemma_all_retryable_aggregate(mgrs2, now_ms, outcomes, i + 1, acc2);
    }
}

/// If the routes before `k` fail with retryable errors and route `k` fails
/// fatally, the walk stops at `k` with an aggregate error whose class is
/// fatal, whatever the routes after `k` would have done.
pub proof fn lemma_fatal_aggregate(
    mgrs: Seq<SingleRouteThrottlingConnectionManager>,
    now_ms: u64,
    outcomes: Seq<RouteAttemptOutcome>,
    i: int,
    acc: Seq<(RouteType, RouteConnectError)>,
    k: int,
)
    requires
        outcomes.len() == mgrs.len(),
        0 <= i <= k < mgrs.len(),
        forall|j: int|
            i <= j < k ==> {
                let e = #[trigger] mgrs[j].spec_connect(now_ms, outcomes[j]).1;
                e is Err && e.get_Err_0().spec_classify() == ErrorClass::Retryable
            },
        mgrs[k].spec_connect(now_ms, outcomes[k]).1 is Err,
        mgrs[k].spec_connect(now_ms, outcomes[k]).1.get_Err_0().spec_classify()
            == ErrorClass::Fatal,
    ensures
        spec_multi_connect(mgrs, now_ms, outcomes, i, acc).1 is Err,
        spec_attempts_class(
            spec_multi_connect(mgrs, now_ms, outcomes, i, acc).1.get_Err_0(),
        ) == ErrorClass::Fatal,
        forall|j: int|
            k < j < mgrs.len() ==> spec_multi_connect(mgrs, now_ms, outcomes, i, acc).0[j]
                == mgrs[j],
    decreases k - i,
{
    let stepped = mgrs[i].spec_connect(now_ms, outcomes[i]);
    let mgrs2 = mgrs.update(i, stepped.0);
    let acc2 = acc.push((mgrs[i].connection_params.route_type, stepped.1.get_Err_0()));
    if i == k {
        let result = spec_multi_connect(mgrs, now_ms, outcomes, i, acc).1.get_Err_0();
        assert(result[result.len() - 1].1.spec_classify() == ErrorClass::Fatal);
        assert forall|j: int|
            k < j < mgrs.len() implies spec_multi_connect(mgrs, now_ms, outcomes, i, acc).0[j]
            == mgrs[j] by {
            assert(spec_multi_connect(mgrs, now_ms, outcomes, i, acc).0 == mgrs2);
            assert(mgrs2[j] == mgrs[j]);
        }
    } else {
        lemma_fatal_aggregate(mgrs2, now_ms, outcomes, i + 1, acc2, k);
        assert forall|j: int|
            k < j < mgrs.len() implies spec_multi_connect(mgrs, now_ms, outcomes, i, acc).0[j]
            == mgrs[j] by {
            assert(spec_multi_connect(mgrs, now_ms, outcomes, i, acc) == spec_multi_connect(
                mgrs2,
                now_ms,
                outcomes,
                i + 1,
                acc2,
            ));
            assert(spec_multi_connect(mgrs2, now_ms, outcomes, i + 1, acc2).0[j] == mgrs2[j]);
            assert(mgrs2[j] == mgrs[j]);
        }
    }
}

} // verus!
