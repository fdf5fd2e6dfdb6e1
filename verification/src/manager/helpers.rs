//! Configurations for common uses.

use crate::config::{
    Backend, FerronConfig, FerronConfigView, LoadBalancer, Location, LocationView, RateLimitConfig,
    TlsConfig,
};
use crate::error::Result;
use crate::text::{decimal_text, joined};
use vstd::prelude::*;

verus! {

/// A site on one domain, with automatic certificates and compression.
pub open spec fn site(domain: Seq<char>) -> FerronConfigView {
    FerronConfigView {
        domains: seq![domain],
        tls: Some(TlsConfig { auto: true }),
        gzip: true,
        ..crate::config::blank_config()
    }
}

/// The URL of an application on this host.
pub open spec fn local_url(port: u16, path: Seq<char>) -> Seq<char> {
    "http://127.0.0.1:"@ + crate::text::decimal(port as nat) + path
}

/// A part of an application that is passed on to the application.
pub open spec fn app_location(
    port: u16,
    path: Seq<char>,
    rate_limit: Option<RateLimitConfig>,
) -> LocationView {
    LocationView { path, proxy: Some(local_url(port, path)), rate_limit }
}

/// The headers of an application, which tell browsers to be strict.
pub open spec fn security_headers() -> Map<Seq<char>, Seq<char>> {
    map![
        "X-Frame-Options"@ => "DENY"@,
        "X-Content-Type-Options"@ => "nosniff"@,
        "X-XSS-Protection"@ => "1; mode=block"@,
        "Referrer-Policy"@ => "strict-origin-when-cross-origin"@,
    ]
}

/// The site of an application on this host.
pub open spec fn app_site(domain: Seq<char>, port: u16) -> FerronConfigView {
    FerronConfigView {
        backend: Some(crate::config::backend_at(local_url(port, Seq::empty()))),
        locations: seq![
            app_location(
                port,
                "/api"@,
                Some(RateLimitConfig { requests: 100, burst: Some(200) }),
            ),
            app_location(port, "/ws"@, None),
            app_location(port, "/health"@, None),
        ],
        headers: security_headers(),
        ..site(domain)
    }
}

/// A basic reverse proxy configuration.
pub fn reverse_proxy_config(domain: &str, backend_url: &str) -> (r: Result<FerronConfig>)
    ensures
        r matches Ok(config) && config@ == (FerronConfigView {
            backend: Some(crate::config::backend_at(backend_url@)),
            ..site(domain@)
        }),
{
    proof {
        assert(Seq::<Seq<char>>::empty().push(domain@) =~= seq![domain@]);
    }
    FerronConfig::builder().domain(domain).backend_url(backend_url).tls_auto(true).gzip(
        true,
    ).build()
}

/// The backends at some URLs.
pub open spec fn backends_at(urls: Seq<Seq<char>>) -> Seq<crate::config::BackendView> {
    urls.map_values(|url: Seq<char>| crate::config::backend_at(url))
}

/// A load-balanced configuration.
pub fn load_balanced_config(domain: &str, backends: Vec<&str>) -> (r: Result<FerronConfig>)
    ensures
        r matches Ok(config) && config@ == (FerronConfigView {
            load_balancer: Some(
                crate::config::balancing(backends_at(backends@.map_values(|url: &str| url@))),
            ),
            ..site(domain@)
        }),
{
    let ghost urls = backends@.map_values(|url: &str| url@);
    let mut lb = LoadBalancer::new();
    proof {
        assert(backends_at(urls).take(0) =~= Seq::<crate::config::BackendView>::empty());
    }
    let mut i: usize = 0;
    while i < backends.len()
        invariant
            i <= backends@.len(),
            urls == backends@.map_values(|url: &str| url@),
            lb@ == crate::config::balancing(backends_at(urls).take(i as int)),
        decreases backends@.len() - i,
    {
        lb = lb.backend(Backend::new(backends[i]));
        proof {
            assert(backends_at(urls).take(i + 1) =~= backends_at(urls).take(i as int).push(
                crate::config::backend_at(urls[i as int]),
            ));
        }
        i = i + 1;
    }
    proof {
        assert(backends_at(urls).take(urls.len() as int) =~= backends_at(urls));
        assert(Seq::<Seq<char>>::empty().push(domain@) =~= seq![domain@]);
    }
    FerronConfig::builder().domain(domain).load_balancer(lb).tls_auto(true).gzip(true).build()
}

fn app_url(port: u16, path: &str) -> (r: String)
    ensures
        r@ == local_url(port, path@),
{
    let number = decimal_text(port as u64);
    let host = joined("http://127.0.0.1:", number.as_str());
    joined(host.as_str(), path)
}

/// Configuration for an Armature application on this host.
pub fn armature_app_config(domain: &str, app_port: u16) -> (r: Result<FerronConfig>)
    ensures
        r matches Ok(config) && config@ == app_site(domain@, app_port),
{
    let url = app_url(app_port, "");
    let api = app_url(app_port, "/api");
    let ws = app_url(app_port, "/ws");
    let health = app_url(app_port, "/health");
    let builder = FerronConfig::builder().domain(domain).backend_url(url.as_str()).tls_auto(
        true,
    ).gzip(true).location(
        Location::new("/api").proxy(api.as_str()).rate_limit(RateLimitConfig::new(100).burst(200)),
    ).location(Location::new("/ws").proxy(ws.as_str())).location(
        Location::new("/health").proxy(health.as_str()),
    ).header("X-Frame-Options", "DENY").header("X-Content-Type-Options", "nosniff").header(
        "X-XSS-Protection",
        "1; mode=block",
    ).header("Referrer-Policy", "strict-origin-when-cross-origin");
    proof {
        reveal_strlit("");
        assert(""@ =~= Seq::<char>::empty());
        assert(builder@.domains =~= seq![domain@]);
        assert(builder@.locations =~= app_site(domain@, app_port).locations);
        assert(builder@.headers =~= security_headers());
        assert(builder@ =~= app_site(domain@, app_port));
    }
    builder.build()
}

} // verus!
