//! The configuration of a Ferron server, and its builder.

use crate::error::Result;
use crate::string_map::StringMap;
use vstd::prelude::*;

pub mod laws;

verus! {

/// A backend that requests are passed on to.
#[derive(Debug)]
pub struct Backend {
    /// Backend URL
    pub url: String,
    /// Share of the requests, relative to other backends
    pub weight: u32,
}

/// The values of a [`Backend`].
#[verifier::ext_equal]
pub struct BackendView {
    pub url: Seq<char>,
    pub weight: u32,
}

impl View for Backend {
    type V = BackendView;

    open spec fn view(&self) -> BackendView {
        BackendView { url: self.url@, weight: self.weight }
    }
}

impl Clone for Backend {
    fn clone(&self) -> (r: Self)
        ensures
            r@ == self@,
    {
        Backend { url: self.url.clone(), weight: self.weight }
    }
}

/// A backend as it is created: of weight 1.
pub open spec fn backend_at(url: Seq<char>) -> BackendView {
    BackendView { url, weight: 1 }
}

impl Backend {
    /// Creates a backend of weight 1.
    pub fn new(url: &str) -> (r: Self)
        ensures
            r@ == backend_at(url@),
    {
        Backend { url: url.to_owned(), weight: 1 }
    }

    /// Sets the weight.
    pub fn weight(self, weight: u32) -> (r: Self)
        ensures
            r@ == (BackendView { weight, ..self@ }),
    {
        Backend { weight, ..self }
    }
}

/// How a load balancer chooses among its backends.
#[derive(Debug, Clone, Copy, PartialEq, Eq, Structural)]
pub enum LoadBalanceStrategy {
    /// Each backend in turn
    RoundRobin,
}

/// A load balancer over several backends.
#[derive(Debug)]
pub struct LoadBalancer {
    /// How a backend is chosen
    pub strategy: LoadBalanceStrategy,
    /// The backends
    pub backends: Vec<Backend>,
    /// Seconds between health checks of the backends
    pub health_check_interval: Option<u64>,
}

/// The values of a [`LoadBalancer`].
#[verifier::ext_equal]
pub struct LoadBalancerView {
    pub strategy: LoadBalanceStrategy,
    pub backends: Seq<BackendView>,
    pub health_check_interval: Option<u64>,
}

impl View for LoadBalancer {
    type V = LoadBalancerView;

    open spec fn view(&self) -> LoadBalancerView {
        LoadBalancerView {
            strategy: self.strategy,
            backends: self.backends@.map_values(|b: Backend| b@),
            health_check_interval: self.health_check_interval,
        }
    }
}

/// A load balancer that takes the given backends in turn.
pub open spec fn balancing(backends: Seq<BackendView>) -> LoadBalancerView {
    LoadBalancerView {
        strategy: LoadBalanceStrategy::RoundRobin,
        backends,
        health_check_interval: None,
    }
}

impl LoadBalancer {
    /// Creates a load balancer without backends.
    pub fn new() -> (r: Self)
        ensures
            r@ == balancing(Seq::empty()),
    {
        let backends: Vec<Backend> = Vec::new();
        proof {
            assert(backends@.map_values(|b: Backend| b@) =~= Seq::<BackendView>::empty());
        }
        LoadBalancer {
            strategy: LoadBalanceStrategy::RoundRobin,
            backends,
            health_check_interval: None,
        }
    }

    /// Sets the strategy.
    pub fn strategy(self, strategy: LoadBalanceStrategy) -> (r: Self)
        ensures
            r@ == (LoadBalancerView { strategy, ..self@ }),
    {
        LoadBalancer { strategy, ..self }
    }

    /// Adds a backend after those that are there.
    pub fn backend(self, backend: Backend) -> (r: Self)
        ensures
            r@ == (LoadBalancerView { backends: self@.backends.push(backend@), ..self@ }),
    {
        let ghost before = self.backends@;
        let ghost added = backend@;
        let mut backends = self.backends;
        backends.push(backend);
        proof {
            assert(backends@.map_values(|b: Backend| b@) =~= before.map_values(
                |b: Backend| b@,
            ).push(added));
        }
        LoadBalancer { backends, ..self }
    }

    /// Sets the seconds between health checks.
    pub fn health_check_interval(self, seconds: u64) -> (r: Self)
        ensures
            r@ == (LoadBalancerView { health_check_interval: Some(seconds), ..self@ }),
    {
        LoadBalancer { health_check_interval: Some(seconds), ..self }
    }
}

impl Clone for LoadBalancer {
    fn clone(&self) -> (r: Self)
        ensures
            r@ == self@,
    {
        let mut backends: Vec<Backend> = Vec::new();
        let mut i: usize = 0;
        while i < self.backends.len()
            invariant
                i <= self.backends@.len(),
                backends@.len() == i,
                forall|j: int| 0 <= j < i ==> #[trigger] backends@[j]@ == self.backends@[j]@,
            decreases self.backends@.len() - i,
        {
            backends.push(self.backends[i].clone());
            i = i + 1;
        }
        proof {
            assert(backends@.map_values(|b: Backend| b@) =~= self@.backends);
        }
        LoadBalancer {
            strategy: self.strategy,
            backends,
            health_check_interval: self.health_check_interval,
        }
    }
}

impl Default for LoadBalancer {
    fn default() -> (r: Self)
        ensures
            r@ == balancing(Seq::empty()),
    {
        LoadBalancer::new()
    }
}

/// A bound on the rate of requests.
#[derive(Debug, Clone, Copy, PartialEq, Eq, Structural)]
pub struct RateLimitConfig {
    /// Requests per second
    pub requests: u32,
    /// Requests above the rate that are let through at once
    pub burst: Option<u32>,
}

impl RateLimitConfig {
    /// Creates a bound without a burst.
    pub fn new(requests: u32) -> (r: Self)
        ensures
            r == (RateLimitConfig { requests, burst: None }),
    {
        RateLimitConfig { requests, burst: None }
    }

    /// Sets the burst.
    pub fn burst(self, burst: u32) -> (r: Self)
        ensures
            r == (RateLimitConfig { burst: Some(burst), ..self }),
    {
        RateLimitConfig { burst: Some(burst), ..self }
    }
}

/// A part of a site that is served in its own way.
#[derive(Debug)]
pub struct Location {
    /// Path prefix
    pub path: String,
    /// Where requests are passed on to
    pub proxy: Option<String>,
    /// Bound on the rate of requests
    pub rate_limit: Option<RateLimitConfig>,
}

/// The values of a [`Location`].
#[verifier::ext_equal]
pub struct LocationView {
    pub path: Seq<char>,
    pub proxy: Option<Seq<char>>,
    pub rate_limit: Option<RateLimitConfig>,
}

impl View for Location {
    type V = LocationView;

    open spec fn view(&self) -> LocationView {
        LocationView {
            path: self.path@,
            proxy: crate::text::opt_text(self.proxy),
            rate_limit: self.rate_limit,
        }
    }
}

impl Location {
    /// Creates a location that is not passed on and not bounded.
    pub fn new(path: &str) -> (r: Self)
        ensures
            r@ == (LocationView { path: path@, proxy: None, rate_limit: None }),
    {
        Location { path: path.to_owned(), proxy: None, rate_limit: None }
    }

    /// Sets where requests are passed on to.
    pub fn proxy(self, url: &str) -> (r: Self)
        ensures
            r@ == (LocationView { proxy: Some(url@), ..self@ }),
    {
        Location { proxy: Some(url.to_owned()), ..self }
    }

    /// Sets the bound on the rate of requests.
    pub fn rate_limit(self, limit: RateLimitConfig) -> (r: Self)
        ensures
            r@ == (LocationView { rate_limit: Some(limit), ..self@ }),
    {
        Location { rate_limit: Some(limit), ..self }
    }
}

/// TLS settings.
#[derive(Debug, Clone, Copy, PartialEq, Eq, Structural)]
pub struct TlsConfig {
    /// Whether certificates are obtained automatically
    pub auto: bool,
}

/// A Ferron configuration.
#[derive(Debug)]
pub struct FerronConfig {
    /// Domains that are served
    pub domains: Vec<String>,
    /// The backend that requests are passed on to
    pub backend: Option<Backend>,
    /// The load balancer that requests are passed on to
    pub load_balancer: Option<LoadBalancer>,
    /// Parts that are served in their own way
    pub locations: Vec<Location>,
    /// Headers that are added to responses
    pub headers: StringMap<String>,
    /// TLS settings
    pub tls: Option<TlsConfig>,
    /// Whether responses are compressed
    pub gzip: bool,
}

/// The values of a [`FerronConfig`].
#[verifier::ext_equal]
pub struct FerronConfigView {
    pub domains: Seq<Seq<char>>,
    pub backend: Option<BackendView>,
    pub load_balancer: Option<LoadBalancerView>,
    pub locations: Seq<LocationView>,
    pub headers: Map<Seq<char>, Seq<char>>,
    pub tls: Option<TlsConfig>,
    pub gzip: bool,
}

impl View for FerronConfig {
    type V = FerronConfigView;

    open spec fn view(&self) -> FerronConfigView {
        FerronConfigView {
            domains: crate::text::texts(self.domains@),
            backend: match self.backend {
                Some(b) => Some(b@),
                None => None,
            },
            load_balancer: match self.load_balancer {
                Some(b) => Some(b@),
                None => None,
            },
            locations: self.locations@.map_values(|l: Location| l@),
            headers: self.headers@,
            tls: self.tls,
            gzip: self.gzip,
        }
    }
}

/// A configuration in which nothing is set.
pub open spec fn blank_config() -> FerronConfigView {
    FerronConfigView {
        domains: Seq::empty(),
        backend: None,
        load_balancer: None,
        locations: Seq::empty(),
        headers: Map::empty(),
        tls: None,
        gzip: false,
    }
}

impl FerronConfig {
    /// Creates a configuration in which nothing is set.
    pub(crate) fn blank() -> (r: Self)
        ensures
            r@ == blank_config(),
    {
        let domains: Vec<String> = Vec::new();
        let locations: Vec<Location> = Vec::new();
        proof {
            assert(crate::text::texts(domains@) =~= Seq::<Seq<char>>::empty());
            assert(locations@.map_values(|l: Location| l@) =~= Seq::<LocationView>::empty());
        }
        FerronConfig {
            domains,
            backend: None,
            load_balancer: None,
            locations,
            headers: StringMap::new(),
            tls: None,
            gzip: false,
        }
    }

    /// Creates a builder in which nothing is set.
    pub fn builder() -> (r: FerronConfigBuilder)
        ensures
            r@ == blank_config(),
    {
        FerronConfigBuilder { config: FerronConfig::blank() }
    }
}

/// Builder of a [`FerronConfig`]; its view is what it would build.
#[derive(Debug)]
pub struct FerronConfigBuilder {
    config: FerronConfig,
}

impl View for FerronConfigBuilder {
    type V = FerronConfigView;

    closed spec fn view(&self) -> FerronConfigView {
        self.config@
    }
}

impl FerronConfigBuilder {
    /// Adds a domain.
    pub fn domain(self, domain: &str) -> (r: Self)
        ensures
            r@ == (FerronConfigView { domains: self@.domains.push(domain@), ..self@ }),
    {
        let ghost before = self.config.domains@;
        let mut config = self.config;
        config.domains.push(domain.to_owned());
        proof {
            assert(crate::text::texts(config.domains@) =~= crate::text::texts(before).push(
                domain@,
            ));
        }
        FerronConfigBuilder { config }
    }

    /// Sets the backend.
    pub fn backend(self, backend: Backend) -> (r: Self)
        ensures
            r@ == (FerronConfigView { backend: Some(backend@), ..self@ }),
    {
        FerronConfigBuilder { config: FerronConfig { backend: Some(backend), ..self.config } }
    }

    /// Sets the backend by its URL.
    pub fn backend_url(self, url: &str) -> (r: Self)
        ensures
            r@ == (FerronConfigView { backend: Some(backend_at(url@)), ..self@ }),
    {
        self.backend(Backend::new(url))
    }

    /// Sets the load balancer.
    pub fn load_balancer(self, load_balancer: LoadBalancer) -> (r: Self)
        ensures
            r@ == (FerronConfigView { load_balancer: Some(load_balancer@), ..self@ }),
    {
        FerronConfigBuilder {
            config: FerronConfig { load_balancer: Some(load_balancer), ..self.config },
        }
    }

    /// Adds a location.
    pub fn location(self, location: Location) -> (r: Self)
        ensures
            r@ == (FerronConfigView { locations: self@.locations.push(location@), ..self@ }),
    {
        let ghost before = self.config.locations@;
        let ghost added = location@;
        let mut config = self.config;
        config.locations.push(location);
        proof {
            assert(config.locations@.map_values(|l: Location| l@) =~= before.map_values(
                |l: Location| l@,
            ).push(added));
        }
        FerronConfigBuilder { config }
    }

    /// Adds a header, in place of one of the same name.
    pub fn header(self, name: &str, value: &str) -> (r: Self)
        ensures
            r@ == (FerronConfigView { headers: self@.headers.insert(name@, value@), ..self@ }),
    {
        let mut headers = self.config.headers;
        headers.insert(name.to_owned(), value.to_owned());
        FerronConfigBuilder { config: FerronConfig { headers, ..self.config } }
    }

    /// Turns TLS on, with certificates obtained automatically or not.
    pub fn tls_auto(self, auto: bool) -> (r: Self)
        ensures
            r@ == (FerronConfigView { tls: Some(TlsConfig { auto }), ..self@ }),
    {
        FerronConfigBuilder { config: FerronConfig { tls: Some(TlsConfig { auto }), ..self.config } }
    }

    /// Turns compression on or off.
    pub fn gzip(self, enabled: bool) -> (r: Self)
        ensures
            r@ == (FerronConfigView { gzip: enabled, ..self@ }),
    {
        FerronConfigBuilder { config: FerronConfig { gzip: enabled, ..self.config } }
    }

    /// Builds the configuration.
    pub fn build(self) -> (r: Result<FerronConfig>)
        ensures
            r matches Ok(config) && config@ == self@,
    {
        Ok(self.config)
    }
}

} // verus!
