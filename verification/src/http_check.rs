//! The HTTP health check: which request it makes and how it reads the answer.

use crate::health::{HealthCheckConfig, HealthCheckResult, HealthStatus};
use crate::string_map::StringMap;
use crate::text::{decimal_text, joined, to_uppercase, trim_end_slashes};
use crate::time::{Duration, Timestamp};
use vstd::prelude::*;
use vstd::string::StrSliceExecFns;

pub mod laws;

verus! {

/// A request that checks a backend.
#[derive(Debug)]
pub struct HealthRequest {
    /// Request method
    pub method: String,
    /// Full URL
    pub url: String,
    /// Time within which the response is due
    pub timeout: Duration,
    /// Headers to send
    pub headers: StringMap<String>,
}

/// The values of a [`HealthRequest`].
#[verifier::ext_equal]
pub struct HealthRequestView {
    pub method: Seq<char>,
    pub url: Seq<char>,
    pub timeout: nat,
    pub headers: Map<Seq<char>, Seq<char>>,
}

impl View for HealthRequest {
    type V = HealthRequestView;

    open spec fn view(&self) -> HealthRequestView {
        HealthRequestView {
            method: self.method@,
            url: self.url@,
            timeout: self.timeout@,
            headers: self.headers@,
        }
    }
}

/// A character that may stand in a token of HTTP.
pub open spec fn is_token_char(c: char) -> bool {
    ||| '0' <= c <= '9' || 'A' <= c <= 'Z' || 'a' <= c <= 'z'
    ||| c == '!' || c == '#' || c == '$' || c == '%' || c == '&' || c == '\'' || c == '*'
    ||| c == '+' || c == '-' || c == '.' || c == '^' || c == '_' || c == '`' || c == '|'
    ||| c == '~'
}

/// A token of HTTP, which is what the name of a method is.
pub open spec fn is_token(s: Seq<char>) -> bool {
    s.len() > 0 && forall|i: int| 0 <= i < s.len() ==> is_token_char(#[trigger] s[i])
}

/// The method of that name, or GET where no request can carry the name.
pub open spec fn method_or_get(name: Seq<char>) -> Seq<char> {
    if is_token(name) {
        name
    } else {
        "GET"@
    }
}

fn names_method(name: &str) -> (r: bool)
    ensures
        r == is_token(name@),
{
    let n: usize = name.unicode_len();
    let mut i: usize = 0;
    while i < n
        invariant
            i <= n == name@.len(),
            forall|j: int| 0 <= j < i ==> is_token_char(#[trigger] name@[j]),
        decreases n - i,
    {
        let c = name.get_char(i);
        let letter = ('A' <= c && c <= 'Z') || ('a' <= c && c <= 'z');
        let digit = '0' <= c && c <= '9';
        let mark = c == '!' || c == '#' || c == '$' || c == '%' || c == '&' || c == '\'' || c == '*'
            || c == '+' || c == '-' || c == '.' || c == '^' || c == '_' || c == '`' || c == '|' || c
            == '~';
        if !letter && !digit && !mark {
            proof {
                assert(!is_token_char(name@[i as int]));
            }
            return false;
        }
        i = i + 1;
    }
    n > 0
}

/// The request that checks the backend at `url`, given the name of the method in
/// upper case: the path is put behind the URL without the slashes that it ends
/// in.
pub open spec fn health_request(
    upper: Seq<char>,
    url: Seq<char>,
    config: crate::health::HealthCheckConfigView,
) -> HealthRequestView {
    HealthRequestView {
        method: method_or_get(upper),
        url: crate::text::without_trailing_slashes(url) + config.path,
        timeout: config.timeout,
        headers: config.headers,
    }
}

impl HealthRequest {
    /// The request that checks the backend at `url`, given the name of the method
    /// in upper case.
    pub fn with_method(upper: String, url: &str, config: &HealthCheckConfig) -> (r: Self)
        ensures
            r@ == health_request(upper@, url@, config@),
    {
        let base = trim_end_slashes(url);
        let method = if names_method(upper.as_str()) {
            upper
        } else {
            "GET".to_owned()
        };
        HealthRequest {
            method,
            url: joined(base.as_str(), config.path.as_str()),
            timeout: config.timeout,
            headers: config.headers.clone(),
        }
    }

    /// The request that checks the backend at `url`, with the configured method
    /// in upper case, or GET where no request can carry its name.
    pub fn new(url: &str, config: &HealthCheckConfig) -> (r: Self)
        ensures
            r@ == health_request(crate::text::uppercase(config@.method), url@, config@),
            vstd::utf8::is_ascii_chars(config@.method) ==> r@.method == method_or_get(
                config@.method.map_values(|c: char| crate::text::ascii_upper(c)),
            ),
    {
        let upper = to_uppercase(config.method.as_str());
        HealthRequest::with_method(upper, url, config)
    }
}

/// What became of a request.
#[derive(Debug)]
pub enum HttpOutcome {
    /// A response came, with this status code, after so many milliseconds
    Response { status: u16, elapsed_ms: u64 },
    /// No response came, for this reason
    Failed(String),
}

/// How a check reads what became of its request: a response is healthy if its
/// status code is among the expected ones.
pub open spec fn http_check_result(
    url: Seq<char>,
    config: crate::health::HealthCheckConfigView,
    outcome: HttpOutcome,
    at: int,
) -> crate::health::HealthCheckResultView {
    match outcome {
        HttpOutcome::Response { status, elapsed_ms } => if config.expected_status.contains(status) {
            crate::health::passed_check(url, elapsed_ms, status, at)
        } else {
            crate::health::HealthCheckResultView {
                url,
                status: HealthStatus::Unhealthy,
                response_time_ms: Some(elapsed_ms),
                http_status: Some(status),
                error: Some("Unexpected status code: "@ + crate::text::decimal(status as nat)),
                checked_at: at,
                consecutive_failures: 1,
                consecutive_successes: 0,
            }
        },
        HttpOutcome::Failed(reason) => crate::health::failed_check(url, reason@, at),
    }
}

fn holds_code(codes: &Vec<u16>, code: u16) -> (r: bool)
    ensures
        r == codes@.contains(code),
{
    let mut i: usize = 0;
    while i < codes.len()
        invariant
            i <= codes@.len(),
            forall|j: int| 0 <= j < i ==> codes@[j] != code,
        decreases codes@.len() - i,
    {
        if codes[i] == code {
            return true;
        }
        i = i + 1;
    }
    false
}

/// The result of an HTTP check whose outcome was known at the given time.
pub fn check_result_at(
    url: &str,
    config: &HealthCheckConfig,
    outcome: HttpOutcome,
    at: Timestamp,
) -> (r: HealthCheckResult)
    ensures
        r@ == http_check_result(url@, config@, outcome, at@),
{
    match outcome {
        HttpOutcome::Response { status, elapsed_ms } => {
            if holds_code(&config.expected_status, status) {
                HealthCheckResult::healthy_at(url.to_owned(), elapsed_ms, status, at)
            } else {
                let code = decimal_text(status as u64);
                HealthCheckResult {
                    url: url.to_owned(),
                    status: HealthStatus::Unhealthy,
                    response_time_ms: Some(elapsed_ms),
                    http_status: Some(status),
                    error: Some(joined("Unexpected status code: ", code.as_str())),
                    checked_at: at,
                    consecutive_failures: 1,
                    consecutive_successes: 0,
                }
            }
        },
        HttpOutcome::Failed(reason) => {
            HealthCheckResult::unhealthy_at(url.to_owned(), reason.as_str(), at)
        },
    }
}

/// The result of an HTTP check whose outcome is known now.
pub fn check_result(url: &str, config: &HealthCheckConfig, outcome: HttpOutcome) -> (r:
    HealthCheckResult)
    ensures
        exists|now: Timestamp| #[trigger]
            crate::time::is_reading(now) && r@ == http_check_result(
                url@,
                config@,
                outcome,
                now@,
            ),
{
    let now = Timestamp::now();
    proof {
        assert(crate::time::is_reading(now));
    }
    check_result_at(url, config, outcome, now)
}

/// Every request has a method that a request can carry.
pub proof fn law_method_is_a_token(
    upper: Seq<char>,
    url: Seq<char>,
    config: crate::health::HealthCheckConfigView,
)
    ensures
        is_token(health_request(upper, url, config).method),
{
    reveal_strlit("GET");
}

/// A slash at the end of the backend URL changes nothing of the request.
pub proof fn law_trailing_slash_ignored(
    upper: Seq<char>,
    url: Seq<char>,
    config: crate::health::HealthCheckConfigView,
)
    ensures
        health_request(upper, url.push('/'), config) == health_request(upper, url, config),
{
    assert(url.push('/').drop_last() =~= url);
}

/// A check passes exactly when a response came whose status code is expected;
/// every other outcome is a failed check with a reason.
pub proof fn law_check_passes_iff_status_expected(
    url: Seq<char>,
    config: crate::health::HealthCheckConfigView,
    outcome: HttpOutcome,
    at: int,
)
    ensures
        ({
            let result = http_check_result(url, config, outcome, at);
            let expected = outcome matches HttpOutcome::Response { status, .. }
                && config.expected_status.contains(status);
            &&& result.status == (if expected {
                HealthStatus::Healthy
            } else {
                HealthStatus::Unhealthy
            })
            &&& expected <==> result.error is None
        }),
{
}

} // verus!
