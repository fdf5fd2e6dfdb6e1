//! What an HTTP check asks, and how it reads the answer.

use crate::health::{HealthCheckConfig, HealthCheckResult, HealthStatus};
use crate::http_check::{HealthRequest, HttpOutcome};
use crate::time::Timestamp;
use vstd::prelude::*;

verus! {

/// Whatever the method, the URL of the request is the backend's URL without the
/// slashes that it ends in, and then the configured path; a URL that does not
/// end in a slash is kept whole.
pub proof fn law_request_asks_for_the_path(
    upper: String,
    url: &str,
    config: HealthCheckConfig,
    r: HealthRequest,
) -> (base: Seq<char>)
    requires
        call_ensures(HealthRequest::with_method, (upper, url, &config), r) || call_ensures(
            HealthRequest::new,
            (url, &config),
            r,
        ),
    ensures
        r.url@ == base + config.path@,
        base.len() <= url@.len() && base == url@.take(base.len() as int),
        base.len() > 0 ==> base.last() != '/',
        forall|i: int| base.len() <= i < url@.len() ==> #[trigger] url@[i] == '/',
        url@.len() > 0 && url@.last() != '/' ==> r.url@ == url@ + config.path@,
{
    let base = crate::text::without_trailing_slashes(url@);
    crate::text::laws::law_only_trailing_slashes_are_dropped(url@);
    if url@.len() > 0 && url@.last() != '/' {
        assert(base.len() == url@.len()) by {
            if base.len() < url@.len() {
                assert(url@[url@.len() - 1] == '/');
            }
        }
        assert(base =~= url@);
    }
    base
}

/// Two requests to one backend under one configuration differ in their method
/// at most.
pub proof fn law_method_does_not_touch_the_rest(
    one: String,
    other: String,
    url: &str,
    config: HealthCheckConfig,
    a: HealthRequest,
    b: HealthRequest,
)
    requires
        call_ensures(HealthRequest::with_method, (one, url, &config), a),
        call_ensures(HealthRequest::with_method, (other, url, &config), b),
    ensures
        a.url@ == b.url@,
        a.timeout@ == b.timeout@ && a.timeout@ == config.timeout@,
        a.headers@ == b.headers@ && a.headers@ == config.headers@,
{
}

/// The request waits as long as is configured, and sends the configured headers.
pub proof fn law_request_keeps_timeout_and_headers(
    url: &str,
    config: HealthCheckConfig,
    r: HealthRequest,
)
    requires
        call_ensures(HealthRequest::new, (url, &config), r),
    ensures
        r.timeout@ == config.timeout@,
        r.headers@ == config.headers@,
{
}

/// A character that the name of a method may have: a letter, a digit or one of
/// fifteen marks, by its number.
pub open spec fn may_stand_in_method(c: char) -> bool {
    let n = c as int;
    ||| 48 <= n <= 57 || 65 <= n <= 90 || 97 <= n <= 122
    ||| n == 33 || 35 <= n <= 39 || n == 42 || n == 43 || n == 45 || n == 46
    ||| 94 <= n <= 96 || n == 124 || n == 126
}

/// The request has the method it is given the name of, if a request can carry
/// the name: it is not empty and has only characters that may stand in it. Every
/// other name gives GET.
pub proof fn law_usable_method_is_used(
    upper: String,
    url: &str,
    config: HealthCheckConfig,
    r: HealthRequest,
)
    requires
        call_ensures(HealthRequest::with_method, (upper, url, &config), r),
    ensures
        upper@.len() > 0 && (forall|i: int|
            0 <= i < upper@.len() ==> may_stand_in_method(#[trigger] upper@[i])) ==> r.method@
            == upper@,
        upper@.len() == 0 ==> r.method@ == "GET"@,
        (exists|i: int| 0 <= i < upper@.len() && !may_stand_in_method(#[trigger] upper@[i]))
            ==> r.method@ == "GET"@,
{
    assert forall|c: char| #[trigger]
        crate::http_check::is_token_char(c) <==> may_stand_in_method(c) by {}
    if upper@.len() > 0 && (forall|i: int|
        0 <= i < upper@.len() ==> may_stand_in_method(#[trigger] upper@[i])) {
        assert forall|i: int| 0 <= i < upper@.len() implies crate::http_check::is_token_char(
            #[trigger] upper@[i],
        ) by {
            assert(may_stand_in_method(upper@[i]));
        }
    }
    if exists|i: int| 0 <= i < upper@.len() && !may_stand_in_method(#[trigger] upper@[i]) {
        let i = choose|i: int| 0 <= i < upper@.len() && !may_stand_in_method(#[trigger] upper@[i]);
        assert(!crate::http_check::is_token_char(upper@[i]));
    }
}

/// The configured method is used in capitals, whatever case it is written in.
pub proof fn law_configured_method_is_used_in_capitals(
    url: &str,
    config: HealthCheckConfig,
    r: HealthRequest,
)
    requires
        call_ensures(HealthRequest::new, (url, &config), r),
        config.method@.len() > 0,
        forall|i: int|
            0 <= i < config.method@.len() ==> {
                let n = #[trigger] config.method@[i] as int;
                65 <= n <= 90 || 97 <= n <= 122
            },
    ensures
        r.method@.len() == config.method@.len(),
        forall|i: int|
            0 <= i < config.method@.len() ==> {
                let n = config.method@[i] as int;
                (#[trigger] r.method@[i]) as int == if n >= 97 {
                    n - 32
                } else {
                    n
                }
            },
{
    let name = config.method@;
    assert(vstd::utf8::is_ascii_chars(name)) by {
        assert forall|i: int| 0 <= i < name.len() implies '\0' <= #[trigger] name[i] && name[i]
            <= '\u{7f}' by {
            let n = name[i] as int;
            assert(65 <= n <= 90 || 97 <= n <= 122);
        }
    }
    let upper = name.map_values(|c: char| crate::text::ascii_upper(c));
    assert(crate::http_check::is_token(upper)) by {
        assert forall|i: int| 0 <= i < upper.len() implies crate::http_check::is_token_char(
            #[trigger] upper[i],
        ) by {
            let n = name[i] as int;
            assert(65 <= n <= 90 || 97 <= n <= 122);
            crate::text::laws::law_ascii_upper_by_number(name[i]);
        }
    }
    assert(r.method@ == upper);
    assert forall|i: int| 0 <= i < name.len() implies {
        let n = name[i] as int;
        (#[trigger] r.method@[i]) as int == if n >= 97 {
            n - 32
        } else {
            n
        }
    } by {
        let n = name[i] as int;
        assert(65 <= n <= 90 || 97 <= n <= 122);
        crate::text::laws::law_ascii_upper_by_number(name[i]);
    }
}

/// How an answer is read: with an expected code the backend is healthy, with
/// another one it is not, and the code is told; without an answer the reason is
/// told. The result is of that backend and of that time.
pub proof fn law_answer_is_read(
    url: &str,
    config: HealthCheckConfig,
    outcome: HttpOutcome,
    at: Timestamp,
    r: HealthCheckResult,
)
    requires
        call_ensures(crate::http_check::check_result_at, (url, &config, outcome, at), r),
    ensures
        r.url@ == url@,
        r.checked_at@ == at@,
        outcome matches HttpOutcome::Response { status, elapsed_ms } ==> {
            let expected = exists|i: int|
                0 <= i < config.expected_status@.len() && #[trigger] config.expected_status@[i]
                    == status;
            let head = "Unexpected status code: "@;
            &&& r.response_time_ms == Some(elapsed_ms) && r.http_status == Some(status)
            &&& expected ==> r.status == HealthStatus::Healthy && r.error is None
                && r.consecutive_successes == 1 && r.consecutive_failures == 0
            &&& !expected ==> r.status == HealthStatus::Unhealthy && r.error is Some
                && r.error->0@.take(head.len() as int) == head && crate::text::laws::number(
                r.error->0@.skip(head.len() as int),
            ) == status && r.consecutive_successes == 0 && r.consecutive_failures == 1
        },
        outcome matches HttpOutcome::Failed(reason) ==> {
            &&& r.status == HealthStatus::Unhealthy && r.error is Some && r.error->0@ == reason@
            &&& r.response_time_ms is None && r.http_status is None
            &&& r.consecutive_successes == 0 && r.consecutive_failures == 1
        },
{
    assert(crate::text::opt_text(r.error) == r@.error);
    match outcome {
        HttpOutcome::Response { status, elapsed_ms } => {
            let head = "Unexpected status code: "@;
            let digits = crate::text::decimal(status as nat);
            crate::text::laws::law_decimal_is_unambiguous(status as nat, status as nat);
            assert((head + digits).take(head.len() as int) =~= head);
            assert((head + digits).skip(head.len() as int) =~= digits);
            if config.expected_status@.contains(status) {
                let i = choose|i: int|
                    0 <= i < config.expected_status@.len() && config.expected_status@[i] == status;
                assert(config.expected_status@[i] == status);
            }
        },
        HttpOutcome::Failed(reason) => {},
    }
}

/// An answer that is read now is read as at some time that the clock may show.
pub proof fn law_answer_is_read_now(
    url: &str,
    config: HealthCheckConfig,
    outcome: HttpOutcome,
    r: HealthCheckResult,
) -> (now: Timestamp)
    requires
        call_ensures(crate::http_check::check_result, (url, &config, outcome), r),
    ensures
        call_ensures(Timestamp::now, (), now),
        r.checked_at@ == now@,
        r.url@ == url@,
        r.status == HealthStatus::Healthy <==> (outcome matches HttpOutcome::Response { status, .. }
            && config.expected_status@.contains(status)),
{
    choose|now: Timestamp| #[trigger]
        crate::time::is_reading(now) && r@ == crate::http_check::http_check_result(
            url@,
            config@,
            outcome,
            now@,
        )
}

} // verus!
