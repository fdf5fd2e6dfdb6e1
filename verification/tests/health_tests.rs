use armature_ferron::health::{
    HealthCheck, HealthCheckConfig, HealthCheckResult, HealthState, HealthStatus,
};
use armature_ferron::http_check::{
    check_result, check_result_at, HealthRequest, HttpOutcome,
};
use armature_ferron::time::{Duration, Timestamp};

#[test]
fn test_health_status_availability() {
    assert!(HealthStatus::Healthy.is_available());
    assert!(HealthStatus::Degraded.is_available());
    assert!(!HealthStatus::Unhealthy.is_available());
    assert!(!HealthStatus::Unknown.is_available());
}

#[test]
fn test_health_check_config_builder() {
    let config = HealthCheckConfig::new()
        .path("/healthz")
        .method("HEAD")
        .timeout(Duration::from_secs(10))
        .interval(Duration::from_secs(60))
        .unhealthy_threshold(5)
        .healthy_threshold(3);

    assert_eq!(config.path, "/healthz");
    assert_eq!(config.method, "HEAD");
    assert_eq!(config.timeout, Duration::from_secs(10));
    assert_eq!(config.interval, Duration::from_secs(60));
    assert_eq!(config.unhealthy_threshold, 5);
    assert_eq!(config.healthy_threshold, 3);
}

#[test]
fn test_health_check_result() {
    let healthy = HealthCheckResult::healthy("http://localhost:3000".into(), 50, 200);
    assert_eq!(healthy.status, HealthStatus::Healthy);
    assert_eq!(healthy.response_time_ms, Some(50));
    assert_eq!(healthy.http_status, Some(200));

    let unhealthy =
        HealthCheckResult::unhealthy("http://localhost:3000".into(), "Connection refused");
    assert_eq!(unhealthy.status, HealthStatus::Unhealthy);
    assert!(unhealthy.error.is_some());
}

#[test]
fn test_health_state() {
    let state = HealthState::new(HealthCheckConfig::default());

    // Initially no results
    let results = state.get_all_results();
    assert!(results.is_empty());
}

/// A checker whose outcomes are scripted up front.
struct ScriptedChecker {
    outcomes: std::sync::Mutex<std::collections::VecDeque<bool>>,
}

impl ScriptedChecker {
    fn new(outcomes: Vec<bool>) -> Self {
        Self {
            outcomes: std::sync::Mutex::new(outcomes.into_iter().collect()),
        }
    }
}

impl HealthCheck for ScriptedChecker {
    fn check(&self, url: &str, _config: &HealthCheckConfig) -> HealthCheckResult {
        let healthy = self
            .outcomes
            .lock()
            .expect("mutex poisoned")
            .pop_front()
            .unwrap_or(false);

        if healthy {
            HealthCheckResult::healthy(url.to_string(), 1, 200)
        } else {
            HealthCheckResult::unhealthy(url.to_string(), "scripted failure")
        }
    }
}

#[test]
fn test_health_transitions_at_exact_thresholds() {
    let config = HealthCheckConfig::new()
        .unhealthy_threshold(3)
        .healthy_threshold(2);
    let checker = ScriptedChecker::new(vec![false, false, false, true, true]);
    let mut state = HealthState::new(config);

    let r1 = state.check_backend(&checker, "http://backend");
    assert_eq!(r1.status, HealthStatus::Degraded, "1st failure");
    assert_eq!(r1.consecutive_failures, 1);

    let r2 = state.check_backend(&checker, "http://backend");
    assert_eq!(
        r2.status,
        HealthStatus::Degraded,
        "2nd failure must stay Degraded, not jump to Unhealthy"
    );
    assert_eq!(r2.consecutive_failures, 2);

    let r3 = state.check_backend(&checker, "http://backend");
    assert_eq!(
        r3.status,
        HealthStatus::Unhealthy,
        "3rd failure reaches unhealthy_threshold"
    );
    assert_eq!(r3.consecutive_failures, 3);

    let r4 = state.check_backend(&checker, "http://backend");
    assert_eq!(
        r4.status,
        HealthStatus::Degraded,
        "1st success while recovering must stay Degraded"
    );
    assert_eq!(r4.consecutive_successes, 1);

    let r5 = state.check_backend(&checker, "http://backend");
    assert_eq!(
        r5.status,
        HealthStatus::Healthy,
        "2nd success reaches healthy_threshold"
    );
    assert_eq!(r5.consecutive_successes, 2);
}

fn failed(url: &str) -> HealthCheckResult {
    HealthCheckResult::unhealthy_at(url.to_string(), "no", Timestamp::new(9, 0).unwrap())
}

fn passed(url: &str) -> HealthCheckResult {
    HealthCheckResult::healthy_at(url.to_string(), 3, 200, Timestamp::new(9, 0).unwrap())
}

#[test]
fn default_health_configuration() {
    let config = HealthCheckConfig::default();
    assert_eq!(config.path, "/health");
    assert_eq!(config.method, "GET");
    assert_eq!(config.expected_status, vec![200]);
    assert_eq!(config.timeout, Duration::from_secs(5));
    assert_eq!(config.interval, Duration::from_secs(30));
    assert_eq!(config.unhealthy_threshold, 3);
    assert_eq!(config.healthy_threshold, 2);
    assert!(config.headers.is_empty());
    assert_eq!(HealthStatus::default(), HealthStatus::Unknown);
}

#[test]
fn thresholds_of_zero_and_one_are_reached_at_once() {
    let mut state = HealthState::new(
        HealthCheckConfig::new()
            .unhealthy_threshold(1)
            .healthy_threshold(0),
    );
    assert_eq!(state.record("a", failed("a")).status, HealthStatus::Unhealthy);
    assert_eq!(state.record("a", passed("a")).status, HealthStatus::Healthy);
}

#[test]
fn a_success_ends_the_run_of_failures() {
    let mut state = HealthState::new(HealthCheckConfig::new());
    state.record("a", failed("a"));
    state.record("a", failed("a"));
    let kept = state.record("a", passed("a"));
    assert_eq!(kept.consecutive_failures, 0);
    assert_eq!(kept.consecutive_successes, 1);
    let kept = state.record("a", failed("a"));
    assert_eq!(kept.consecutive_failures, 1);
    assert_eq!(kept.status, HealthStatus::Degraded);
}

#[test]
fn checks_of_one_backend_leave_the_others_alone() {
    let mut one = HealthState::new(HealthCheckConfig::new());
    one.record("a", failed("a"));
    one.record("b", passed("b"));
    let mut other = HealthState::new(HealthCheckConfig::new());
    other.record("b", passed("b"));
    other.record("a", failed("a"));
    for url in ["a", "b"] {
        let x = one.get_status(url).unwrap();
        let y = other.get_status(url).unwrap();
        assert_eq!(x.status, y.status);
        assert_eq!(x.consecutive_failures, y.consecutive_failures);
        assert_eq!(x.consecutive_successes, y.consecutive_successes);
    }
    assert!(one.get_status("c").is_none());
    assert_eq!(one.get_all_results().len(), 2);
}

#[test]
fn only_available_backends_are_listed() {
    let mut state = HealthState::new(HealthCheckConfig::new().unhealthy_threshold(2));
    state.record("down", failed("down"));
    state.record("down", failed("down"));
    state.record("shaky", failed("shaky"));
    state.record("up", passed("up"));
    let mut healthy = state.get_healthy_backends();
    healthy.sort();
    assert_eq!(healthy, vec!["shaky".to_string(), "up".to_string()]);
}

#[test]
fn request_is_built_from_url_and_configuration() {
    let config = HealthCheckConfig::new()
        .method("head")
        .path("/live")
        .timeout(Duration::new(2, 500).unwrap())
        .header("X-Probe", "1");
    let request = HealthRequest::new("http://b:3000//", &config);
    assert_eq!(request.url, "http://b:3000/live");
    assert_eq!(request.method, "HEAD");
    assert_eq!(request.timeout, Duration::new(2, 500).unwrap());
    assert_eq!(request.headers.get("X-Probe"), Some(&"1".to_string()));

    let same = HealthRequest::new("http://b:3000", &config);
    assert_eq!(same.url, request.url);
}

fn method_of(method: &str) -> String {
    HealthRequest::new("http://localhost:3000", &HealthCheckConfig::new().method(method)).method
}

#[test]
fn the_configured_method_is_used() {
    assert_eq!(method_of("PUT"), "PUT");
    assert_eq!(method_of("options"), "OPTIONS");
    assert_eq!(method_of("PoSt"), "POST");
    assert_eq!(method_of("get"), "GET");
    assert_eq!(method_of("po\u{17f}t"), "POST");
    assert_eq!(
        HealthRequest::new("u", &HealthCheckConfig::new()).method,
        "GET"
    );
    assert_eq!(method_of(""), "GET");
    assert_eq!(method_of("two words"), "GET");
    assert_eq!(method_of("\u{e9}"), "GET");
    assert_eq!(method_of("x-probe!#$%&'*+-.^_`|~1"), "X-PROBE!#$%&'*+-.^_`|~1");
    for bad in ["a(", "a)", "a,", "a/", "a:", "a;", "a<", "a@", "a[", "a\\", "a{", "a\"", "a\t"] {
        assert_eq!(method_of(bad), "GET");
    }
    for c in 0u8..128 {
        let name = (c as char).to_string();
        let usable = reqwest::Method::from_bytes(name.as_bytes()).is_ok();
        let upper = name.to_uppercase();
        assert_eq!(method_of(&name), if usable { upper.as_str() } else { "GET" });
    }
    let kept = HealthRequest::with_method("put".into(), "u/", &HealthCheckConfig::new());
    assert_eq!((kept.method.as_str(), kept.url.as_str()), ("put", "u/health"));
}

#[test]
fn expected_status_passes_and_others_fail() {
    let config = HealthCheckConfig::new().expected_status(vec![200, 204]);
    let at = Timestamp::new(100, 7).unwrap();
    let ok = check_result_at(
        "http://b",
        &config,
        HttpOutcome::Response {
            status: 204,
            elapsed_ms: 12,
        },
        at,
    );
    assert_eq!(ok.status, HealthStatus::Healthy);
    assert_eq!(ok.checked_at, at);
    assert_eq!(ok.error, None);

    let bad = check_result_at(
        "http://b",
        &config,
        HttpOutcome::Response {
            status: 503,
            elapsed_ms: 12,
        },
        at,
    );
    assert_eq!(bad.status, HealthStatus::Unhealthy);
    assert_eq!(bad.response_time_ms, Some(12));
    assert_eq!(bad.http_status, Some(503));
    assert_eq!(bad.error, Some("Unexpected status code: 503".to_string()));
    assert_eq!(bad.consecutive_failures, 1);

    let none = check_result("http://b", &config, HttpOutcome::Failed("refused".into()));
    assert_eq!(none.status, HealthStatus::Unhealthy);
    assert_eq!(none.http_status, None);
    assert_eq!(none.error, Some("refused".to_string()));
}

#[test]
fn results_carry_the_time_of_the_clock() {
    let before = std::time::SystemTime::now()
        .duration_since(std::time::UNIX_EPOCH)
        .unwrap()
        .as_secs() as i64;
    let result = HealthCheckResult::healthy("u".into(), 1, 200);
    assert!(result.checked_at.secs() >= before);
    assert!(result.checked_at.secs() <= before + 60);
    assert!(result.checked_at.subsec_nanos() < 1_000_000_000);
}

#[test]
fn spans_of_time_are_normal() {
    assert!(Duration::new(1, 1_000_000_000).is_none());
    let d = Duration::new(1, 999_999_999).unwrap();
    assert_eq!((d.as_secs(), d.subsec_nanos()), (1, 999_999_999));
    assert!(Timestamp::new(-1, 1_000_000_000).is_none());
    let t = Timestamp::new(-1, 5).unwrap();
    assert_eq!((t.secs(), t.subsec_nanos()), (-1, 5));
}
