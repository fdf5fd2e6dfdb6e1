//! What the builders of a configuration set, and what they leave alone.

use crate::config::{
    Backend, FerronConfig, FerronConfigBuilder, FerronConfigView, LoadBalanceStrategy, LoadBalancer,
    Location, RateLimitConfig,
};
use crate::error::Result;
use vstd::prelude::*;

verus! {

/// A backend has the URL it was made with, and weight 1 until another is set.
pub proof fn law_backend_has_its_url_and_weight(url: &str, weight: u32, b: Backend, w: Backend)
    requires
        call_ensures(Backend::new, (url,), b),
        call_ensures(Backend::weight, (b, weight), w),
    ensures
        b.url@ == url@,
        b.weight == 1,
        w.url@ == url@,
        w.weight == weight,
{
}

/// A load balancer begins without backends and without an interval.
pub proof fn law_load_balancer_begins_empty(lb: LoadBalancer)
    requires
        call_ensures(LoadBalancer::new, (), lb),
    ensures
        lb.backends@.len() == 0,
        lb.strategy == LoadBalanceStrategy::RoundRobin,
        lb.health_check_interval is None,
{
    assert(lb@.backends.len() == lb.backends@.len());
}

/// A backend that is added to a load balancer comes last, and those before it
/// stay, with all else.
pub proof fn law_added_backend_comes_last(lb: LoadBalancer, backend: Backend, r: LoadBalancer)
    requires
        call_ensures(LoadBalancer::backend, (lb, backend), r),
    ensures
        r.backends@.len() == lb.backends@.len() + 1,
        r.backends@.last()@ == backend@,
        forall|i: int|
            0 <= i < lb.backends@.len() ==> (#[trigger] r.backends@[i])@ == lb.backends@[i]@,
        r.strategy == lb.strategy,
        r.health_check_interval == lb.health_check_interval,
{
    assert(r@.backends.len() == r.backends@.len());
    assert(lb@.backends.len() == lb.backends@.len());
    assert(r@.backends[r.backends@.len() - 1] == r.backends@.last()@);
    assert forall|i: int| 0 <= i < lb.backends@.len() implies (#[trigger] r.backends@[i])@
        == lb.backends@[i]@ by {
        assert(r@.backends[i] == lb@.backends[i]);
    }
}

/// The other settings of a load balancer leave its backends alone.
pub proof fn law_balancer_settings_keep_backends(
    lb: LoadBalancer,
    seconds: u64,
    strategy: LoadBalanceStrategy,
    r: LoadBalancer,
)
    ensures
        call_ensures(LoadBalancer::health_check_interval, (lb, seconds), r)
            ==> r.health_check_interval == Some(seconds) && r@.backends == lb@.backends
            && r.strategy == lb.strategy,
        call_ensures(LoadBalancer::strategy, (lb, strategy), r) ==> r.strategy == strategy
            && r@.backends == lb@.backends && r.health_check_interval == lb.health_check_interval,
{
}

/// A bound on the rate has the rate it was made with, and a burst once one is
/// set.
pub proof fn law_rate_limit_keeps_its_numbers(
    requests: u32,
    burst: u32,
    limit: RateLimitConfig,
    r: RateLimitConfig,
)
    requires
        call_ensures(RateLimitConfig::new, (requests,), limit),
        call_ensures(RateLimitConfig::burst, (limit, burst), r),
    ensures
        limit.requests == requests,
        limit.burst is None,
        r.requests == requests,
        r.burst == Some(burst),
{
}

/// A location has the path it was made with, and is passed on and bounded only
/// as is set.
pub proof fn law_location_keeps_its_settings(
    path: &str,
    url: &str,
    limit: RateLimitConfig,
    made: Location,
    proxied: Location,
    limited: Location,
)
    requires
        call_ensures(Location::new, (path,), made),
        call_ensures(Location::proxy, (made, url), proxied),
        call_ensures(Location::rate_limit, (proxied, limit), limited),
    ensures
        made.path@ == path@ && made.proxy is None && made.rate_limit is None,
        proxied.path@ == path@ && proxied.proxy is Some && proxied.proxy->0@ == url@
            && proxied.rate_limit is None,
        limited.path@ == path@ && limited.proxy is Some && limited.proxy->0@ == url@
            && limited.rate_limit == Some(limit),
{
    assert(made@.proxy is None);
    assert(proxied@.proxy == Some(url@));
    assert(limited@.proxy == Some(url@));
}

/// A builder begins with nothing set.
pub proof fn law_builder_begins_blank(b: FerronConfigBuilder)
    requires
        call_ensures(FerronConfig::builder, (), b),
    ensures
        b@.domains.len() == 0,
        b@.backend is None,
        b@.load_balancer is None,
        b@.locations.len() == 0,
        forall|name: Seq<char>| !#[trigger] b@.headers.contains_key(name),
        b@.tls is None,
        !b@.gzip,
{
}

/// Domains and locations are added after those that are there; nothing else
/// changes.
pub proof fn law_builder_appends(
    b: FerronConfigBuilder,
    domain: &str,
    location: Location,
    r: FerronConfigBuilder,
)
    ensures
        call_ensures(FerronConfigBuilder::domain, (b, domain), r) ==> {
            &&& r@.domains.len() == b@.domains.len() + 1
            &&& r@.domains.last() == domain@
            &&& r@.domains.drop_last() == b@.domains
            &&& r@ == (FerronConfigView { domains: r@.domains, ..b@ })
        },
        call_ensures(FerronConfigBuilder::location, (b, location), r) ==> {
            &&& r@.locations.len() == b@.locations.len() + 1
            &&& r@.locations.last() == location@
            &&& r@.locations.drop_last() == b@.locations
            &&& r@ == (FerronConfigView { locations: r@.locations, ..b@ })
        },
{
    if call_ensures(FerronConfigBuilder::domain, (b, domain), r) {
        assert(r@.domains.drop_last() =~= b@.domains);
    }
    if call_ensures(FerronConfigBuilder::location, (b, location), r) {
        assert(r@.locations.drop_last() =~= b@.locations);
    }
}

/// Each setting of the builder sets its own value and nothing else.
pub proof fn law_builder_sets_one_value(
    b: FerronConfigBuilder,
    backend: Backend,
    lb: LoadBalancer,
    url: &str,
    flag: bool,
    r: FerronConfigBuilder,
)
    ensures
        call_ensures(FerronConfigBuilder::backend, (b, backend), r) ==> {
            &&& r@.backend == Some(backend@)
            &&& r@ == (FerronConfigView { backend: r@.backend, ..b@ })
        },
        call_ensures(FerronConfigBuilder::backend_url, (b, url), r) ==> {
            &&& r@.backend is Some && r@.backend->0.url == url@ && r@.backend->0.weight == 1
            &&& r@ == (FerronConfigView { backend: r@.backend, ..b@ })
        },
        call_ensures(FerronConfigBuilder::load_balancer, (b, lb), r) ==> {
            &&& r@.load_balancer == Some(lb@)
            &&& r@ == (FerronConfigView { load_balancer: r@.load_balancer, ..b@ })
        },
        call_ensures(FerronConfigBuilder::tls_auto, (b, flag), r) ==> {
            &&& r@.tls is Some && r@.tls->0.auto == flag
            &&& r@ == (FerronConfigView { tls: r@.tls, ..b@ })
        },
        call_ensures(FerronConfigBuilder::gzip, (b, flag), r) ==> {
            &&& r@.gzip == flag
            &&& r@ == (FerronConfigView { gzip: r@.gzip, ..b@ })
        },
{
}

/// A header that is set has its value, and other headers keep theirs.
pub proof fn law_builder_sets_one_header(
    b: FerronConfigBuilder,
    name: &str,
    value: &str,
    r: FerronConfigBuilder,
    other: Seq<char>,
)
    requires
        call_ensures(FerronConfigBuilder::header, (b, name, value), r),
    ensures
        r@.headers.contains_key(name@) && r@.headers[name@] == value@,
        other != name@ ==> (r@.headers.contains_key(other) <==> b@.headers.contains_key(other)),
        other != name@ && b@.headers.contains_key(other) ==> r@.headers[other] == b@.headers[other],
        r@ == (FerronConfigView { headers: r@.headers, ..b@ }),
{
}

/// What is built is what was set.
pub proof fn law_built_is_what_was_set(b: FerronConfigBuilder, r: Result<FerronConfig>)
    requires
        call_ensures(FerronConfigBuilder::build, (b,), r),
    ensures
        r matches Ok(config) && {
            &&& config.domains@.len() == b@.domains.len()
            &&& forall|i: int|
                0 <= i < b@.domains.len() ==> (#[trigger] config.domains@[i])@ == b@.domains[i]
            &&& config.backend is Some <==> b@.backend is Some
            &&& config.backend is Some ==> config.backend->0.url@ == b@.backend->0.url
                && config.backend->0.weight == b@.backend->0.weight
            &&& config.load_balancer is Some <==> b@.load_balancer is Some
            &&& config.load_balancer is Some ==> config.load_balancer->0@ == b@.load_balancer->0
            &&& config.locations@.len() == b@.locations.len()
            &&& forall|i: int|
                0 <= i < b@.locations.len() ==> (#[trigger] config.locations@[i])@
                    == b@.locations[i]
            &&& config.headers@ == b@.headers
            &&& config.tls == b@.tls
            &&& config.gzip == b@.gzip
        },
{
    let config = r->Ok_0;
    assert(config@ == b@);
    assert(config@.domains.len() == config.domains@.len());
    assert(config@.locations.len() == config.locations@.len());
    assert forall|i: int| 0 <= i < b@.domains.len() implies (#[trigger] config.domains@[i])@
        == b@.domains[i] by {
        assert(config@.domains[i] == config.domains@[i]@);
    }
    assert forall|i: int| 0 <= i < b@.locations.len() implies (#[trigger] config.locations@[i])@
        == b@.locations[i] by {
        assert(config@.locations[i] == config.locations@[i]@);
    }
}

/// A copy of a load balancer has the same backends in the same order, and all
/// else of it.
pub proof fn law_copied_balancer_is_the_same(lb: LoadBalancer, copy: LoadBalancer)
    requires
        call_ensures(<LoadBalancer as Clone>::clone, (&lb,), copy),
    ensures
        copy.strategy == lb.strategy,
        copy.health_check_interval == lb.health_check_interval,
        copy.backends@.len() == lb.backends@.len(),
        forall|i: int|
            0 <= i < lb.backends@.len() ==> (#[trigger] copy.backends@[i]).url@
                == lb.backends@[i].url@ && copy.backends@[i].weight == lb.backends@[i].weight,
{
    assert(lb@.backends.len() == lb.backends@.len());
    assert(copy@.backends.len() == copy.backends@.len());
    assert forall|i: int| 0 <= i < lb.backends@.len() implies (#[trigger] copy.backends@[i]).url@
        == lb.backends@[i].url@ && copy.backends@[i].weight == lb.backends@[i].weight by {
        assert(copy@.backends[i] == copy.backends@[i]@);
        assert(lb@.backends[i] == lb.backends@[i]@);
    }
}

} // verus!
