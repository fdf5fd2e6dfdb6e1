//! What the health checks report, keep and list, value by value.

use crate::health::{
    HealthCheck, HealthCheckConfig, HealthCheckResult, HealthCheckResultView, HealthState,
    HealthStatus,
};
use crate::time::{Duration, Timestamp};
use vstd::prelude::*;

verus! {

/// A backend receives traffic while it is healthy or degraded, and not else.
pub proof fn law_available_statuses(status: HealthStatus, r: bool)
    requires
        call_ensures(HealthStatus::is_available, (&status,), r),
    ensures
        status == HealthStatus::Healthy || status == HealthStatus::Degraded ==> r,
        status == HealthStatus::Unhealthy || status == HealthStatus::Unknown ==> !r,
{
}

/// A result of a check carries what was seen, and is the first of its run.
pub proof fn law_results_carry_what_was_seen(
    url: String,
    elapsed: u64,
    code: u16,
    reason: &str,
    at: Timestamp,
    r: HealthCheckResult,
)
    ensures
        call_ensures(HealthCheckResult::healthy_at, (url, elapsed, code, at), r) ==> {
            &&& r.url@ == url@ && r.status == HealthStatus::Healthy
            &&& r.response_time_ms == Some(elapsed) && r.http_status == Some(code)
            &&& r.error is None && r.checked_at@ == at@
            &&& r.consecutive_failures == 0 && r.consecutive_successes == 1
        },
        call_ensures(HealthCheckResult::unhealthy_at, (url, reason, at), r) ==> {
            &&& r.url@ == url@ && r.status == HealthStatus::Unhealthy
            &&& r.response_time_ms is None && r.http_status is None
            &&& r.error is Some && r.error->0@ == reason@ && r.checked_at@ == at@
            &&& r.consecutive_failures == 1 && r.consecutive_successes == 0
        },
        call_ensures(HealthCheckResult::healthy, (url, elapsed, code), r) ==> {
            &&& r.url@ == url@ && r.status == HealthStatus::Healthy
            &&& r.response_time_ms == Some(elapsed) && r.http_status == Some(code)
            &&& r.error is None
            &&& r.consecutive_failures == 0 && r.consecutive_successes == 1
        },
        call_ensures(HealthCheckResult::unhealthy, (url, reason), r) ==> {
            &&& r.url@ == url@ && r.status == HealthStatus::Unhealthy
            &&& r.response_time_ms is None && r.http_status is None
            &&& r.error is Some && r.error->0@ == reason@
            &&& r.consecutive_failures == 1 && r.consecutive_successes == 0
        },
{
    assert(crate::text::opt_text(r.error) == r@.error);
}

/// The results of checks made now carry a time that the clock may show.
pub proof fn law_results_carry_the_time(
    url: String,
    elapsed: u64,
    code: u16,
    reason: &str,
    r: HealthCheckResult,
) -> (now: Timestamp)
    requires
        call_ensures(HealthCheckResult::healthy, (url, elapsed, code), r) || call_ensures(
            HealthCheckResult::unhealthy,
            (url, reason),
            r,
        ),
    ensures
        call_ensures(Timestamp::now, (), now),
        r.checked_at@ == now@,
{
    choose|now: Timestamp| #[trigger] crate::time::is_reading(now) && r@.checked_at == now@
}

/// The configuration of checks where nothing is set: GET of /health, 200
/// expected within 5 s, every 30 s, 3 failures and 2 successes.
pub proof fn law_default_configuration(c: HealthCheckConfig)
    requires
        call_ensures(HealthCheckConfig::new, (), c),
    ensures
        c.path@ == "/health"@,
        c.method@ == "GET"@,
        c.expected_status@.len() == 1 && c.expected_status@[0] == 200,
        c.timeout@ == 5_000_000_000,
        c.interval@ == 30_000_000_000,
        c.unhealthy_threshold == 3,
        c.healthy_threshold == 2,
        forall|name: Seq<char>| !#[trigger] c.headers@.contains_key(name),
{
    assert(c@.expected_status == c.expected_status@);
}

/// Each setting of the checks sets its own value and nothing else.
pub proof fn law_settings_set_one_value(
    c: HealthCheckConfig,
    text: &str,
    codes: Vec<u16>,
    span: Duration,
    n: u32,
    r: HealthCheckConfig,
)
    ensures
        call_ensures(HealthCheckConfig::path, (c, text), r) ==> r.path@ == text@ && r@ == (
        crate::health::HealthCheckConfigView { path: r@.path, ..c@ }),
        call_ensures(HealthCheckConfig::method, (c, text), r) ==> r.method@ == text@ && r@ == (
        crate::health::HealthCheckConfigView { method: r@.method, ..c@ }),
        call_ensures(HealthCheckConfig::expected_status, (c, codes), r) ==> r.expected_status@
            == codes@ && r@ == (crate::health::HealthCheckConfigView {
            expected_status: r@.expected_status,
            ..c@
        }),
        call_ensures(HealthCheckConfig::timeout, (c, span), r) ==> r.timeout@ == span@ && r@ == (
        crate::health::HealthCheckConfigView { timeout: r@.timeout, ..c@ }),
        call_ensures(HealthCheckConfig::interval, (c, span), r) ==> r.interval@ == span@ && r@ == (
        crate::health::HealthCheckConfigView { interval: r@.interval, ..c@ }),
        call_ensures(HealthCheckConfig::unhealthy_threshold, (c, n), r) ==> r.unhealthy_threshold
            == n && r@ == (crate::health::HealthCheckConfigView {
            unhealthy_threshold: r@.unhealthy_threshold,
            ..c@
        }),
        call_ensures(HealthCheckConfig::healthy_threshold, (c, n), r) ==> r.healthy_threshold == n
            && r@ == (crate::health::HealthCheckConfigView {
            healthy_threshold: r@.healthy_threshold,
            ..c@
        }),
{
}

/// A header of the checks that is set has its value, and others keep theirs.
pub proof fn law_header_is_set(
    c: HealthCheckConfig,
    name: &str,
    value: &str,
    r: HealthCheckConfig,
    other: Seq<char>,
)
    requires
        call_ensures(HealthCheckConfig::header, (c, name, value), r),
    ensures
        r.headers@.contains_key(name@) && r.headers@[name@] == value@,
        other != name@ ==> (r.headers@.contains_key(other) <==> c.headers@.contains_key(other)),
        other != name@ && c.headers@.contains_key(other) ==> r.headers@[other] == c.headers@[other],
        r@ == (crate::health::HealthCheckConfigView { headers: r@.headers, ..c@ }),
{
}

/// What a check does to a backend, in numbers: a passed check continues the run
/// of successes by one and ends the run of failures, a failed one the other way
/// round. The backend is unhealthy when the failures reach their threshold,
/// healthy when the successes reach theirs, and degraded in between. What else
/// the check reported is kept, and every other backend is left as it was.
pub proof fn law_record_counts_and_judges(
    state: &mut HealthState,
    url: &str,
    check: HealthCheckResult,
    r: HealthCheckResult,
)
    requires
        call_ensures(HealthState::record, (state, url, check), r),
    ensures
        ({
            let before = old(state)@.results;
            let failures = if before.contains_key(url@) {
                before[url@].consecutive_failures as int
            } else {
                0
            };
            let successes = if before.contains_key(url@) {
                before[url@].consecutive_successes as int
            } else {
                0
            };
            let config = old(state)@.config;
            &&& check.status == HealthStatus::Healthy ==> {
                &&& r.consecutive_successes == successes + 1 && r.consecutive_failures == 0
                &&& r.status == HealthStatus::Healthy <==> successes + 1 >= config.healthy_threshold
                &&& r.status == HealthStatus::Degraded <==> successes + 1 < config.healthy_threshold
            }
            &&& check.status != HealthStatus::Healthy ==> {
                &&& r.consecutive_failures == failures + 1 && r.consecutive_successes == 0
                &&& r.status == HealthStatus::Unhealthy <==> failures + 1
                    >= config.unhealthy_threshold
                &&& r.status == HealthStatus::Degraded <==> failures + 1
                    < config.unhealthy_threshold
            }
            &&& r.url@ == check.url@ && r.response_time_ms == check.response_time_ms
            &&& r.http_status == check.http_status && r@.error == check@.error
            &&& r.checked_at@ == check.checked_at@
            &&& final(state)@.results.contains_key(url@)
            &&& final(state)@.results[url@] == r@
            &&& forall|u: Seq<char>|
                #![trigger final(state)@.results.contains_key(u)]
                u != url@ ==> {
                    &&& final(state)@.results.contains_key(u) <==> before.contains_key(u)
                    &&& before.contains_key(u) ==> final(state)@.results[u] == before[u]
                }
            &&& final(state)@.config == config
        }),
{
}

/// To check a backend is to ask the checker about its URL, with the state's
/// configuration, and to keep what it reports.
pub proof fn law_check_keeps_what_the_checker_reports<C: HealthCheck>(
    state: &mut HealthState,
    checker: &C,
    url: &str,
    r: HealthCheckResult,
)
    requires
        call_ensures(HealthState::check_backend::<C>, (state, checker, url), r),
    ensures
        exists|check: HealthCheckResult|
            {
                &&& #[trigger] crate::health::may_report(
                    checker,
                    url@,
                    old(state)@.config,
                    check,
                )
                &&& r.url@ == check.url@ && r.http_status == check.http_status
                &&& r@.error == check@.error && r.response_time_ms == check.response_time_ms
                &&& r.checked_at@ == check.checked_at@
                &&& check.status == HealthStatus::Healthy <==> r.consecutive_successes > 0
                &&& check.status == HealthStatus::Healthy <==> r.consecutive_failures == 0
            },
        old(state)@.results.contains_key(url@) && r.consecutive_failures > 0
            ==> r.consecutive_failures == old(state)@.results[url@].consecutive_failures + 1,
        old(state)@.results.contains_key(url@) && r.consecutive_successes > 0
            ==> r.consecutive_successes == old(state)@.results[url@].consecutive_successes + 1,
        !old(state)@.results.contains_key(url@) ==> r.consecutive_failures + r.consecutive_successes
            == 1,
        r.status == HealthStatus::Unhealthy <==> r.consecutive_failures > 0
            && r.consecutive_failures >= old(state)@.config.unhealthy_threshold,
        r.status == HealthStatus::Healthy <==> r.consecutive_successes > 0
            && r.consecutive_successes >= old(state)@.config.healthy_threshold,
        r.status != HealthStatus::Unknown,
        final(state)@.results.contains_key(url@) && final(state)@.results[url@] == r@,
        final(state)@.config == old(state)@.config,
        forall|u: Seq<char>|
            #![trigger final(state)@.results.contains_key(u)]
            u != url@ ==> {
                &&& final(state)@.results.contains_key(u) <==> old(state)@.results.contains_key(u)
                &&& old(state)@.results.contains_key(u) ==> final(state)@.results[u] == old(
                    state,
                )@.results[u]
            },
{
    let check = choose|check: HealthCheckResult|
        {
            &&& #[trigger] crate::health::may_report(checker, url@, old(state)@.config, check)
            &&& r@ == crate::health::follow_up(
                old(state)@.config,
                old(state)@.latest(url@),
                check@,
            )
            &&& final(state)@ == old(state)@.after_check(url@, check@)
        };
    assert(crate::health::may_report(checker, url@, old(state)@.config, check));
    assert(r@.url == r.url@ && r@.checked_at == r.checked_at@);
}

/// What was kept of a backend is what is handed out of it; a backend that was
/// never checked has nothing.
pub proof fn law_status_is_what_was_kept(
    state: HealthState,
    config: HealthCheckConfig,
    fresh: HealthState,
    url: &str,
    r: Option<HealthCheckResult>,
)
    ensures
        call_ensures(HealthState::get_status, (&state, url), r) ==> {
            &&& r is Some <==> state@.results.contains_key(url@)
            &&& r is Some ==> r->0@ == state@.results[url@]
        },
        call_ensures(HealthState::new, (config,), fresh) ==> {
            &&& !fresh@.results.contains_key(url@)
            &&& fresh@.config == config@
        },
{
}

/// The backends that are listed as healthy are those whose latest status is
/// healthy or degraded, each once.
pub proof fn law_listed_backends_are_available(state: HealthState, r: Vec<String>, url: Seq<char>)
    requires
        call_ensures(HealthState::get_healthy_backends, (&state,), r),
    ensures
        (exists|i: int| 0 <= i < r@.len() && (#[trigger] r@[i])@ == url) <==> {
            &&& state@.results.contains_key(url)
            &&& state@.results[url].status == HealthStatus::Healthy || state@.results[url].status
                == HealthStatus::Degraded
        },
        forall|i: int, j: int|
            0 <= i < j < r@.len() ==> (#[trigger] r@[i])@ != (#[trigger] r@[j])@,
{
    let texts = crate::text::texts(r@);
    crate::string_map::laws::law_walk_visits_each_key_once(texts, state@.available());
    assert forall|i: int, j: int| 0 <= i < j < r@.len() implies (#[trigger] r@[i])@ != (
    #[trigger] r@[j])@ by {
        assert(texts[i] != texts[j]);
    }
    if exists|i: int| 0 <= i < r@.len() && (#[trigger] r@[i])@ == url {
        let i = choose|i: int| 0 <= i < r@.len() && (#[trigger] r@[i])@ == url;
        assert(state@.available().contains(texts[i]));
    }
    if state@.available().contains(url) {
        assert(texts.contains(url));
        let i = choose|i: int| 0 <= i < texts.len() && texts[i] == url;
        assert(r@[i]@ == url);
    }
}

/// A checker may report what its check may return when it is asked about that
/// URL with that configuration, and nothing else.
pub proof fn law_reports_come_from_the_check<C: HealthCheck>(
    checker: &C,
    url: Seq<char>,
    config: crate::health::HealthCheckConfigView,
    check: HealthCheckResult,
)
    requires
        crate::health::may_report(checker, url, config, check),
    ensures
        exists|u: &str, c: HealthCheckConfig|
            u@ == url && c@ == config && #[trigger] call_ensures(
                C::check,
                (checker, u, &c),
                check,
            ),
{
}

/// A copy has the values of the original, and a backend that was never checked
/// is unknown.
pub proof fn law_copies_and_defaults(
    c: HealthCheckConfig,
    c2: HealthCheckConfig,
    r: HealthCheckResult,
    r2: HealthCheckResult,
    status: HealthStatus,
)
    ensures
        call_ensures(<HealthCheckConfig as Clone>::clone, (&c,), c2) ==> c2.path@ == c.path@
            && c2.method@ == c.method@ && c2.expected_status@ == c.expected_status@ && c2.timeout@
            == c.timeout@ && c2.interval@ == c.interval@ && c2.unhealthy_threshold
            == c.unhealthy_threshold && c2.healthy_threshold == c.healthy_threshold && c2.headers@
            == c.headers@,
        call_ensures(<HealthCheckResult as Clone>::clone, (&r,), r2) ==> r2.url@ == r.url@
            && r2.status == r.status && r2.response_time_ms == r.response_time_ms && r2.http_status
            == r.http_status && r2.checked_at@ == r.checked_at@ && r2.consecutive_failures
            == r.consecutive_failures && r2.consecutive_successes == r.consecutive_successes
            && r2.error is Some == r.error is Some && (r.error is Some ==> r2.error->0@
            == r.error->0@),
        call_ensures(<HealthStatus as Default>::default, (), status) ==> status
            == HealthStatus::Unknown,
{
    assert(r@.error == crate::text::opt_text(r.error));
    assert(r2@.error == crate::text::opt_text(r2.error));
    assert(c@.headers == c.headers@ && c2@.headers == c2.headers@);
    assert(r@.url == r.url@ && r@.checked_at == r.checked_at@);
    assert(r2@.url == r2.url@ && r2@.checked_at == r2.checked_at@);
}

} // verus!
