//! Health checking of backends.

use crate::string_map::StringMap;
use crate::text::clone_opt;
use crate::time::{Duration, Timestamp};
use vstd::prelude::*;

pub mod laws;

verus! {

/// Health status of a backend.
#[derive(Debug, Clone, Copy, PartialEq, Eq, Structural)]
pub enum HealthStatus {
    /// Backend is healthy and accepting requests
    Healthy,
    /// Backend is degraded but still functioning
    Degraded,
    /// Backend is unhealthy and should not receive traffic
    Unhealthy,
    /// Health status is unknown (not yet checked)
    Unknown,
}

impl Default for HealthStatus {
    fn default() -> (r: Self)
        ensures
            r == HealthStatus::Unknown,
    {
        HealthStatus::Unknown
    }
}

impl HealthStatus {
    /// The statuses under which a backend receives traffic.
    pub open spec fn available(self) -> bool {
        self == HealthStatus::Healthy || self == HealthStatus::Degraded
    }

    /// Checks if the status indicates that the backend can receive traffic.
    pub fn is_available(&self) -> (r: bool)
        ensures
            r == self.available(),
    {
        matches!(self, HealthStatus::Healthy | HealthStatus::Degraded)
    }
}

/// Result of a health check of a backend.
#[derive(Debug)]
pub struct HealthCheckResult {
    /// Backend URL
    pub url: String,
    /// Health status
    pub status: HealthStatus,
    /// Response time in milliseconds
    pub response_time_ms: Option<u64>,
    /// HTTP status code (if applicable)
    pub http_status: Option<u16>,
    /// Error message (if unhealthy)
    pub error: Option<String>,
    /// Timestamp of the check
    pub checked_at: Timestamp,
    /// Consecutive failures
    pub consecutive_failures: u32,
    /// Consecutive successes
    pub consecutive_successes: u32,
}

/// The values of a [`HealthCheckResult`].
#[verifier::ext_equal]
pub struct HealthCheckResultView {
    pub url: Seq<char>,
    pub status: HealthStatus,
    pub response_time_ms: Option<u64>,
    pub http_status: Option<u16>,
    pub error: Option<Seq<char>>,
    pub checked_at: int,
    pub consecutive_failures: nat,
    pub consecutive_successes: nat,
}

impl View for HealthCheckResult {
    type V = HealthCheckResultView;

    open spec fn view(&self) -> HealthCheckResultView {
        HealthCheckResultView {
            url: self.url@,
            status: self.status,
            response_time_ms: self.response_time_ms,
            http_status: self.http_status,
            error: crate::text::opt_text(self.error),
            checked_at: self.checked_at@,
            consecutive_failures: self.consecutive_failures as nat,
            consecutive_successes: self.consecutive_successes as nat,
        }
    }
}

impl Clone for HealthCheckResult {
    fn clone(&self) -> (r: Self)
        ensures
            r@ == self@,
    {
        HealthCheckResult {
            url: self.url.clone(),
            status: self.status,
            response_time_ms: self.response_time_ms,
            http_status: self.http_status,
            error: clone_opt(&self.error),
            checked_at: self.checked_at,
            consecutive_failures: self.consecutive_failures,
            consecutive_successes: self.consecutive_successes,
        }
    }
}

/// What a single passed check reports.
pub open spec fn passed_check(
    url: Seq<char>,
    response_time_ms: u64,
    http_status: u16,
    at: int,
) -> HealthCheckResultView {
    HealthCheckResultView {
        url,
        status: HealthStatus::Healthy,
        response_time_ms: Some(response_time_ms),
        http_status: Some(http_status),
        error: None,
        checked_at: at,
        consecutive_failures: 0,
        consecutive_successes: 1,
    }
}

/// What a single failed check reports that got no response.
pub open spec fn failed_check(url: Seq<char>, error: Seq<char>, at: int) -> HealthCheckResultView {
    HealthCheckResultView {
        url,
        status: HealthStatus::Unhealthy,
        response_time_ms: None,
        http_status: None,
        error: Some(error),
        checked_at: at,
        consecutive_failures: 1,
        consecutive_successes: 0,
    }
}

impl HealthCheckResult {
    /// A healthy result of a check made at the given time.
    pub fn healthy_at(url: String, response_time_ms: u64, http_status: u16, at: Timestamp) -> (r:
        Self)
        ensures
            r@ == passed_check(url@, response_time_ms, http_status, at@),
    {
        HealthCheckResult {
            url,
            status: HealthStatus::Healthy,
            response_time_ms: Some(response_time_ms),
            http_status: Some(http_status),
            error: None,
            checked_at: at,
            consecutive_failures: 0,
            consecutive_successes: 1,
        }
    }

    /// A healthy result of a check made now.
    pub fn healthy(url: String, response_time_ms: u64, http_status: u16) -> (r: Self)
        ensures
            exists|now: Timestamp| #[trigger]
                crate::time::is_reading(now) && r@ == passed_check(
                    url@,
                    response_time_ms,
                    http_status,
                    now@,
                ),
    {
        let now = Timestamp::now();
        proof {
            assert(crate::time::is_reading(now));
        }
        HealthCheckResult::healthy_at(url, response_time_ms, http_status, now)
    }

    /// An unhealthy result of a check made at the given time.
    pub fn unhealthy_at(url: String, error: &str, at: Timestamp) -> (r: Self)
        ensures
            r@ == failed_check(url@, error@, at@),
    {
        HealthCheckResult {
            url,
            status: HealthStatus::Unhealthy,
            response_time_ms: None,
            http_status: None,
            error: Some(error.to_owned()),
            checked_at: at,
            consecutive_failures: 1,
            consecutive_successes: 0,
        }
    }

    /// An unhealthy result of a check made now.
    pub fn unhealthy(url: String, error: &str) -> (r: Self)
        ensures
            exists|now: Timestamp| #[trigger]
                crate::time::is_reading(now) && r@ == failed_check(url@, error@, now@),
    {
        let now = Timestamp::now();
        proof {
            assert(crate::time::is_reading(now));
        }
        HealthCheckResult::unhealthy_at(url, error, now)
    }
}

/// Configuration of health checks.
#[derive(Debug)]
pub struct HealthCheckConfig {
    /// URL path to check (e.g., "/health", "/healthz")
    pub path: String,
    /// HTTP method to use
    pub method: String,
    /// Expected HTTP status codes for healthy response
    pub expected_status: Vec<u16>,
    /// Request timeout
    pub timeout: Duration,
    /// Interval between health checks
    pub interval: Duration,
    /// Number of failures before marking unhealthy
    pub unhealthy_threshold: u32,
    /// Number of successes before marking healthy
    pub healthy_threshold: u32,
    /// Custom headers to send with health check request
    pub headers: StringMap<String>,
}

/// The values of a [`HealthCheckConfig`]; spans of time in nanoseconds.
#[verifier::ext_equal]
pub struct HealthCheckConfigView {
    pub path: Seq<char>,
    pub method: Seq<char>,
    pub expected_status: Seq<u16>,
    pub timeout: nat,
    pub interval: nat,
    pub unhealthy_threshold: u32,
    pub healthy_threshold: u32,
    pub headers: Map<Seq<char>, Seq<char>>,
}

impl View for HealthCheckConfig {
    type V = HealthCheckConfigView;

    open spec fn view(&self) -> HealthCheckConfigView {
        HealthCheckConfigView {
            path: self.path@,
            method: self.method@,
            expected_status: self.expected_status@,
            timeout: self.timeout@,
            interval: self.interval@,
            unhealthy_threshold: self.unhealthy_threshold,
            healthy_threshold: self.healthy_threshold,
            headers: self.headers@,
        }
    }
}

impl Clone for HealthCheckConfig {
    fn clone(&self) -> (r: Self)
        ensures
            r@ == self@,
    {
        let expected_status = self.expected_status.clone();
        proof {
            assert(expected_status@ =~= self.expected_status@);
        }
        HealthCheckConfig {
            path: self.path.clone(),
            method: self.method.clone(),
            expected_status,
            timeout: self.timeout,
            interval: self.interval,
            unhealthy_threshold: self.unhealthy_threshold,
            healthy_threshold: self.healthy_threshold,
            headers: self.headers.clone(),
        }
    }
}

/// The configuration used where nothing else is asked for: `GET /health`,
/// status 200 expected within 5 s, every 30 s, unhealthy after 3 failures,
/// healthy after 2 successes.
pub open spec fn default_health_config() -> HealthCheckConfigView {
    HealthCheckConfigView {
        path: "/health"@,
        method: "GET"@,
        expected_status: seq![200u16],
        timeout: 5_000_000_000,
        interval: 30_000_000_000,
        unhealthy_threshold: 3,
        healthy_threshold: 2,
        headers: Map::empty(),
    }
}

impl Default for HealthCheckConfig {
    fn default() -> (r: Self)
        ensures
            r@ == default_health_config(),
    {
        let mut expected_status: Vec<u16> = Vec::new();
        expected_status.push(200);
        let r = HealthCheckConfig {
            path: "/health".to_owned(),
            method: "GET".to_owned(),
            expected_status,
            timeout: Duration::from_secs(5),
            interval: Duration::from_secs(30),
            unhealthy_threshold: 3,
            healthy_threshold: 2,
            headers: StringMap::new(),
        };
        proof {
            assert(r@ =~= default_health_config());
        }
        r
    }
}

impl HealthCheckConfig {
    /// Creates a new health check configuration.
    pub fn new() -> (r: Self)
        ensures
            r@ == default_health_config(),
    {
        HealthCheckConfig::default()
    }

    /// Sets the health check path.
    pub fn path(self, path: &str) -> (r: Self)
        ensures
            r@ == (HealthCheckConfigView { path: path@, ..self@ }),
    {
        HealthCheckConfig { path: path.to_owned(), ..self }
    }

    /// Sets the HTTP method.
    pub fn method(self, method: &str) -> (r: Self)
        ensures
            r@ == (HealthCheckConfigView { method: method@, ..self@ }),
    {
        HealthCheckConfig { method: method.to_owned(), ..self }
    }

    /// Sets the expected status codes.
    pub fn expected_status(self, codes: Vec<u16>) -> (r: Self)
        ensures
            r@ == (HealthCheckConfigView { expected_status: codes@, ..self@ }),
    {
        HealthCheckConfig { expected_status: codes, ..self }
    }

    /// Sets the timeout.
    pub fn timeout(self, timeout: Duration) -> (r: Self)
        ensures
            r@ == (HealthCheckConfigView { timeout: timeout@, ..self@ }),
            r.timeout == timeout,
    {
        HealthCheckConfig { timeout, ..self }
    }

    /// Sets the check interval.
    pub fn interval(self, interval: Duration) -> (r: Self)
        ensures
            r@ == (HealthCheckConfigView { interval: interval@, ..self@ }),
            r.interval == interval,
    {
        HealthCheckConfig { interval, ..self }
    }

    /// Sets the unhealthy threshold.
    pub fn unhealthy_threshold(self, threshold: u32) -> (r: Self)
        ensures
            r@ == (HealthCheckConfigView { unhealthy_threshold: threshold, ..self@ }),
    {
        HealthCheckConfig { unhealthy_threshold: threshold, ..self }
    }

    /// Sets the healthy threshold.
    pub fn healthy_threshold(self, threshold: u32) -> (r: Self)
        ensures
            r@ == (HealthCheckConfigView { healthy_threshold: threshold, ..self@ }),
    {
        HealthCheckConfig { healthy_threshold: threshold, ..self }
    }

    /// Adds a custom header, in place of one with the same name.
    pub fn header(self, name: &str, value: &str) -> (r: Self)
        ensures
            r@ == (HealthCheckConfigView { headers: self@.headers.insert(name@, value@), ..self@ }),
    {
        let mut headers = self.headers;
        headers.insert(name.to_owned(), value.to_owned());
        HealthCheckConfig { headers, ..self }
    }
}

/// A way to check the health of a backend.
pub trait HealthCheck {
    /// Checks the health of a backend.
    fn check(&self, url: &str, config: &HealthCheckConfig) -> HealthCheckResult;
}

/// Whether a checker, asked about a backend, may report `check`.
pub open spec fn may_report<C: HealthCheck>(
    checker: &C,
    url: Seq<char>,
    config: HealthCheckConfigView,
    check: HealthCheckResult,
) -> bool {
    exists|u: &str, c: HealthCheckConfig|
        u@ == url && c@ == config && #[trigger] call_ensures(C::check, (checker, u, &c), check)
}

/// The status that a run of `count` checks of one kind gives.
pub open spec fn status_of_run(
    passed: bool,
    count: nat,
    config: HealthCheckConfigView,
) -> HealthStatus {
    if passed && count >= config.healthy_threshold {
        HealthStatus::Healthy
    } else if !passed && count >= config.unhealthy_threshold {
        HealthStatus::Unhealthy
    } else {
        HealthStatus::Degraded
    }
}

/// What is kept of a check, given what was kept of the one before it: a check
/// continues the run of its own kind by one and ends the run of the other kind.
pub open spec fn follow_up(
    config: HealthCheckConfigView,
    before: Option<HealthCheckResultView>,
    check: HealthCheckResultView,
) -> HealthCheckResultView {
    let failures: nat = match before {
        Some(b) => b.consecutive_failures,
        None => 0,
    };
    let successes: nat = match before {
        Some(b) => b.consecutive_successes,
        None => 0,
    };
    if check.status == HealthStatus::Healthy {
        HealthCheckResultView {
            status: status_of_run(true, successes + 1, config),
            consecutive_successes: successes + 1,
            consecutive_failures: 0,
            ..check
        }
    } else {
        HealthCheckResultView {
            status: status_of_run(false, failures + 1, config),
            consecutive_failures: failures + 1,
            consecutive_successes: 0,
            ..check
        }
    }
}

/// Health of the backends: the latest result of each, with its runs of
/// failures and successes.
#[derive(Debug)]
pub struct HealthState {
    results: StringMap<HealthCheckResult>,
    config: HealthCheckConfig,
}

/// The contents of a [`HealthState`]: results by backend URL.
#[verifier::ext_equal]
pub struct HealthStateView {
    pub results: Map<Seq<char>, HealthCheckResultView>,
    pub config: HealthCheckConfigView,
}

impl View for HealthState {
    type V = HealthStateView;

    closed spec fn view(&self) -> HealthStateView {
        HealthStateView { results: self.results@, config: self.config@ }
    }
}

impl HealthStateView {
    /// The latest result of a backend.
    pub open spec fn latest(self, url: Seq<char>) -> Option<HealthCheckResultView> {
        if self.results.contains_key(url) {
            Some(self.results[url])
        } else {
            None
        }
    }

    /// The state after a check of a backend.
    pub open spec fn after_check(
        self,
        url: Seq<char>,
        check: HealthCheckResultView,
    ) -> HealthStateView {
        HealthStateView {
            results: self.results.insert(url, follow_up(self.config, self.latest(url), check)),
            ..self
        }
    }

    /// Whether the run that a check continues can be counted one further.
    pub open spec fn run_fits(self, url: Seq<char>, check: HealthCheckResultView) -> bool {
        match self.latest(url) {
            Some(b) => if check.status == HealthStatus::Healthy {
                b.consecutive_successes < u32::MAX
            } else {
                b.consecutive_failures < u32::MAX
            },
            None => true,
        }
    }

    /// The state after checks of several backends, in the order in which they
    /// ended.
    pub open spec fn after_checks(
        self,
        urls: Seq<Seq<char>>,
        checks: Seq<HealthCheckResultView>,
    ) -> HealthStateView
        decreases urls.len(),
    {
        if urls.len() == 0 {
            self
        } else {
            self.after_checks(urls.drop_last(), checks.drop_last()).after_check(
                urls.last(),
                checks.last(),
            )
        }
    }

    /// The backends that can receive traffic.
    pub open spec fn available(self) -> Set<Seq<char>> {
        self.results.dom().filter(|url: Seq<char>| self.results[url].status.available())
    }
}

impl HealthState {
    /// Creates a health state without results.
    pub fn new(config: HealthCheckConfig) -> (r: Self)
        ensures
            r@.config == config@,
            r@.results == Map::<Seq<char>, HealthCheckResultView>::empty(),
    {
        HealthState { results: StringMap::new(), config }
    }

    /// The configuration of the checks.
    pub fn config(&self) -> (r: &HealthCheckConfig)
        ensures
            r@ == self@.config,
    {
        &self.config
    }

    /// Takes in a check of a backend and returns what is kept of it.
    pub fn record(&mut self, url: &str, check: HealthCheckResult) -> (r: HealthCheckResult)
        requires
            old(self)@.run_fits(url@, check@),
        ensures
            r@ == follow_up(old(self)@.config, old(self)@.latest(url@), check@),
            final(self)@ == old(self)@.after_check(url@, check@),
    {
        let (prev_failures, prev_successes): (u32, u32) = match self.results.get(url) {
            Some(p) => (p.consecutive_failures, p.consecutive_successes),
            None => (0, 0),
        };
        let mut result = check;
        if result.status == HealthStatus::Healthy {
            result.consecutive_successes = prev_successes + 1;
            result.consecutive_failures = 0;
            result.status = if result.consecutive_successes >= self.config.healthy_threshold {
                HealthStatus::Healthy
            } else {
                HealthStatus::Degraded
            };
        } else {
            result.consecutive_failures = prev_failures + 1;
            result.consecutive_successes = 0;
            result.status = if result.consecutive_failures >= self.config.unhealthy_threshold {
                HealthStatus::Unhealthy
            } else {
                HealthStatus::Degraded
            };
        }
        self.results.insert(url.to_owned(), result.clone());
        result
    }

    /// Checks a backend and takes in the result.
    pub fn check_backend<C: HealthCheck>(&mut self, checker: &C, url: &str) -> (r:
        HealthCheckResult)
        requires
            forall|check: HealthCheckResult| #[trigger]
                may_report(checker, url@, old(self)@.config, check) ==> old(self)@.run_fits(
                    url@,
                    check@,
                ),
        ensures
            exists|check: HealthCheckResult|
                {
                    &&& #[trigger] may_report(checker, url@, old(self)@.config, check)
                    &&& r@ == follow_up(old(self)@.config, old(self)@.latest(url@), check@)
                    &&& final(self)@ == old(self)@.after_check(url@, check@)
                },
    {
        let check = checker.check(url, &self.config);
        proof {
            assert(may_report(checker, url@, self@.config, check));
        }
        self.record(url, check)
    }

    /// The latest result of a backend.
    pub fn get_status(&self, url: &str) -> (r: Option<HealthCheckResult>)
        ensures
            match r {
                Some(result) => self@.latest(url@) == Some(result@),
                None => self@.latest(url@) is None,
            },
    {
        match self.results.get(url) {
            Some(result) => Some(result.clone()),
            None => None,
        }
    }

    /// The latest results of all backends.
    pub fn get_all_results(&self) -> (r: StringMap<HealthCheckResult>)
        ensures
            r@ == self@.results,
    {
        self.results.clone()
    }

    /// The backends that can receive traffic, each once.
    pub fn get_healthy_backends(&self) -> (r: Vec<String>)
        ensures
            crate::string_map::is_walk(crate::text::texts(r@), self@.available()),
            r@.len() == self@.available().len(),
    {
        let urls = self.results.keys();
        let ghost all = crate::text::texts(urls@);
        let ghost ok = |url: Seq<char>| self@.results[url].status.available();
        let mut r: Vec<String> = Vec::new();
        let mut i: usize = 0;
        while i < urls.len()
            invariant
                i <= urls@.len(),
                all == crate::text::texts(urls@),
                crate::string_map::is_walk(all, self@.results.dom()),
                ok == (|url: Seq<char>| self@.results[url].status.available()),
                crate::text::texts(r@).no_duplicates(),
                forall|u: Seq<char>| #[trigger]
                    crate::text::texts(r@).contains(u) <==> all.take(i as int).contains(u) && ok(u),
            decreases urls@.len() - i,
        {
            proof {
                assert(all[i as int] == urls@[i as int]@);
                assert(all.to_set().contains(all[i as int]));
            }
            let ghost before = crate::text::texts(r@);
            match self.results.get(urls[i].as_str()) {
                Some(result) => {
                    if result.status.is_available() {
                        r.push(urls[i].clone());
                    }
                },
                None => {},
            }
            proof {
                let u = all[i as int];
                if ok(u) {
                    assert(crate::text::texts(r@) =~= before.push(u));
                } else {
                    assert(crate::text::texts(r@) =~= before);
                }
                crate::string_map::lemma_walk_step(
                    all,
                    i as int,
                    ok,
                    before,
                    crate::text::texts(r@),
                );
            }
            i = i + 1;
        }
        proof {
            assert(all.take(urls@.len() as int) =~= all);
            let found = crate::text::texts(r@);
            assert forall|u: Seq<char>| found.to_set().contains(u) == self@.available().contains(
                u,
            ) by {
                assert(found.contains(u) <==> all.contains(u) && ok(u));
                assert(all.to_set().contains(u) == self@.results.dom().contains(u));
            }
            assert(found.to_set() =~= self@.available());
            found.unique_seq_to_set();
        }
        r
    }
}

/// What is kept after a series of checks of one backend.
pub open spec fn kept_after(
    config: HealthCheckConfigView,
    checks: Seq<HealthCheckResultView>,
) -> Option<HealthCheckResultView>
    decreases checks.len(),
{
    if checks.len() == 0 {
        None
    } else {
        Some(follow_up(config, kept_after(config, checks.drop_last()), checks.last()))
    }
}

/// How many checks at the end of a series have passed, or have not passed, in
/// a row.
pub open spec fn final_run(checks: Seq<HealthCheckResultView>, passed: bool) -> nat
    decreases checks.len(),
{
    if checks.len() == 0 || (checks.last().status == HealthStatus::Healthy) != passed {
        0
    } else {
        final_run(checks.drop_last(), passed) + 1
    }
}

/// After any series of checks the failures counted are the failures in a row at
/// its end, and the successes the successes in a row, so one of the two is
/// zero. The status depends on that run alone: it is `Unhealthy` exactly when
/// the failures reach `unhealthy_threshold`, `Healthy` exactly when the
/// successes reach `healthy_threshold`, and `Degraded` otherwise.
pub proof fn law_status_follows_the_final_run(
    config: HealthCheckConfigView,
    checks: Seq<HealthCheckResultView>,
)
    requires
        checks.len() > 0,
    ensures
        ({
            let passed = checks.last().status == HealthStatus::Healthy;
            let kept = kept_after(config, checks)->0;
            &&& kept_after(config, checks) is Some
            &&& kept.consecutive_failures == final_run(checks, false)
            &&& kept.consecutive_successes == final_run(checks, true)
            &&& kept.consecutive_failures == 0 <==> kept.consecutive_successes > 0
            &&& kept.status == HealthStatus::Unhealthy <==> !passed && final_run(checks, false)
                >= config.unhealthy_threshold
            &&& kept.status == HealthStatus::Healthy <==> passed && final_run(checks, true)
                >= config.healthy_threshold
            &&& kept.status != HealthStatus::Unknown
        }),
    decreases checks.len(),
{
    reveal_with_fuel(kept_after, 2);
    reveal_with_fuel(final_run, 2);
    if checks.len() > 1 {
        law_status_follows_the_final_run(config, checks.drop_last());
    }
}

/// A backend whose checks failed fewer times in a row than
/// `unhealthy_threshold` still receives traffic.
pub proof fn law_available_below_the_threshold(
    config: HealthCheckConfigView,
    checks: Seq<HealthCheckResultView>,
)
    requires
        checks.len() > 0,
        final_run(checks, false) < config.unhealthy_threshold,
    ensures
        kept_after(config, checks)->0.status.available(),
{
    law_status_follows_the_final_run(config, checks);
}

/// What is kept of a check is what the check reported, but for its status and
/// its runs; the backend's latest result is then what was kept.
pub proof fn law_kept_check_is_the_report(
    state: HealthStateView,
    url: Seq<char>,
    check: HealthCheckResultView,
    other: Seq<char>,
)
    ensures
        ({
            let kept = follow_up(state.config, state.latest(url), check);
            let after = state.after_check(url, check);
            &&& kept == (HealthCheckResultView {
                status: kept.status,
                consecutive_failures: kept.consecutive_failures,
                consecutive_successes: kept.consecutive_successes,
                ..check
            })
            &&& after.latest(url) == Some(kept)
            &&& other != url ==> after.latest(other) == state.latest(other)
            &&& after.config == state.config
        }),
{
}

/// The state keeps of each backend exactly what its own checks give: a check
/// extends the series of the backend that was checked and leaves every other
/// backend as it was.
pub proof fn law_check_extends_its_own_series(
    state: HealthStateView,
    url: Seq<char>,
    checks: Seq<HealthCheckResultView>,
    check: HealthCheckResultView,
    other: Seq<char>,
)
    requires
        state.latest(url) == kept_after(state.config, checks),
    ensures
        state.after_check(url, check).latest(url) == kept_after(state.config, checks.push(check)),
        other != url ==> state.after_check(url, check).latest(other) == state.latest(other),
        state.after_check(url, check).config == state.config,
{
    assert(checks.push(check).drop_last() =~= checks);
}

/// Checks of two backends may end in either order: the state is the same.
pub proof fn law_checks_of_two_backends_commute(
    state: HealthStateView,
    url1: Seq<char>,
    check1: HealthCheckResultView,
    url2: Seq<char>,
    check2: HealthCheckResultView,
)
    requires
        url1 != url2,
    ensures
        state.after_check(url1, check1).after_check(url2, check2) == state.after_check(
            url2,
            check2,
        ).after_check(url1, check1),
{
    assert(state.after_check(url1, check1).after_check(url2, check2).results
        =~= state.after_check(url2, check2).after_check(url1, check1).results);
}

/// When several backends are checked at once, the state does not depend on the
/// order in which the checks end: each backend is left as its own check leaves
/// it, and every other backend as it was.
pub proof fn law_checks_may_end_in_any_order(
    state: HealthStateView,
    urls: Seq<Seq<char>>,
    checks: Seq<HealthCheckResultView>,
    url: Seq<char>,
)
    requires
        urls.len() == checks.len(),
        urls.no_duplicates(),
    ensures
        state.after_checks(urls, checks).config == state.config,
        forall|i: int|
            0 <= i < urls.len() && #[trigger] urls[i] == url ==> state.after_checks(
                urls,
                checks,
            ).latest(url) == Some(follow_up(state.config, state.latest(url), checks[i])),
        !urls.contains(url) ==> state.after_checks(urls, checks).latest(url) == state.latest(url),
    decreases urls.len(),
{
    if urls.len() > 0 {
        let rest = urls.drop_last();
        let last = urls.len() - 1;
        law_checks_may_end_in_any_order(state, rest, checks.drop_last(), url);
        if urls[last] == url {
            assert(!rest.contains(url)) by {
                if rest.contains(url) {
                    let j = choose|j: int| 0 <= j < rest.len() && rest[j] == url;
                    assert(urls[j] == url);
                }
            }
            assert forall|i: int| 0 <= i < urls.len() && #[trigger] urls[i] == url implies i
                == last by {}
        } else {
            assert(urls.last() == urls[last]);
            assert forall|i: int| 0 <= i < urls.len() && #[trigger] urls[i] == url implies rest[i]
                == url && checks.drop_last()[i] == checks[i] by {}
            if rest.contains(url) {
                let j = choose|j: int| 0 <= j < rest.len() && rest[j] == url;
                assert(urls[j] == url);
            }
        }
    }
}

} // verus!
