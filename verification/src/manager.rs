//! The manager of a Ferron server: what is to be done, and in what order, to
//! start, stop and reload it, as services come and go.

use crate::config::{
    Backend, BackendView, FerronConfig, FerronConfigView, LoadBalancer, LoadBalancerView,
};
use crate::error::{FerronError, Result};
use crate::health::{HealthCheckConfig, HealthState};
use crate::process::{FerronProcess, ProcessConfig, ProcessConfigView, ProcessStatus};
use crate::registry::{
    InstanceKey, RegistryView, ServiceInstance, ServiceInstanceView, ServiceRegistry,
};
use crate::time::Timestamp;
use vstd::prelude::*;

pub mod helpers;
pub mod laws;

verus! {

/// Something to be done on behalf of the manager. Of several actions each is
/// done when those before it have succeeded; the first error is that of the
/// whole.
#[derive(Debug, Clone, Copy, PartialEq, Eq, Structural)]
pub enum ManagerAction {
    /// Write the configuration to the configuration path
    WriteConfig,
    /// Start the process
    StartProcess,
    /// Stop the process
    StopProcess,
    /// Restart the process
    RestartProcess,
    /// Signal the process to reload its configuration
    ReloadProcess,
    /// End the watcher of the configuration file
    AbortWatcher,
}

/// The state of a [`FerronManager`].
#[verifier::ext_equal]
pub struct ManagerView {
    pub config_path: Seq<char>,
    pub config: Option<FerronConfigView>,
    /// The load balancer that the configuration was given with
    pub given: Option<LoadBalancerView>,
    pub auto_reload: bool,
    /// Whether the configuration file is watched
    pub watching: bool,
    /// How often the process was signalled to reload, modulo 2^64
    pub reload_count: u64,
}

/// The backend that an instance is: at its URL, of its weight.
pub open spec fn backend_of(instance: ServiceInstanceView) -> BackendView {
    BackendView { url: instance.url, weight: instance.weight }
}

/// A configuration whose load balancer has the given backends; without any it
/// has the load balancer that it was given with.
pub open spec fn with_backends(
    config: FerronConfigView,
    given: Option<LoadBalancerView>,
    backends: Seq<BackendView>,
) -> FerronConfigView {
    FerronConfigView {
        load_balancer: if backends.len() == 0 {
            given
        } else {
            Some(crate::config::balancing(backends))
        },
        ..config
    }
}

/// The load balancer of a configuration that may be there.
pub open spec fn balancer_of(config: Option<FerronConfigView>) -> Option<LoadBalancerView> {
    match config {
        Some(config) => config.load_balancer,
        None => None,
    }
}

impl ManagerView {
    /// The configuration, or a blank one where none is set.
    pub open spec fn config_or_blank(self) -> FerronConfigView {
        match self.config {
            Some(config) => config,
            None => crate::config::blank_config(),
        }
    }

    /// Whether there is nothing to make a configuration of: none is set, and no
    /// instance is healthy.
    pub open spec fn lacks_config(self, registry: RegistryView) -> bool {
        self.config is None && registry.healthy() == Set::<InstanceKey>::empty()
    }

    /// With the given backends in its configuration.
    pub open spec fn regenerated(self, backends: Seq<BackendView>) -> ManagerView {
        ManagerView {
            config: Some(with_backends(self.config_or_blank(), self.given, backends)),
            ..self
        }
    }

    /// With one more reload counted.
    pub open spec fn counted(self) -> ManagerView {
        ManagerView {
            reload_count: if self.reload_count == u64::MAX {
                0
            } else {
                (self.reload_count + 1) as u64
            },
            ..self
        }
    }
}

/// What is done to have the process read its configuration file again.
pub open spec fn signal_plan() -> Seq<ManagerAction> {
    seq![ManagerAction::ReloadProcess]
}

/// What is done to have the process read a configuration that was regenerated.
pub open spec fn regeneration_plan() -> Seq<ManagerAction> {
    seq![ManagerAction::WriteConfig, ManagerAction::ReloadProcess]
}

/// Whether the keys of a service follow one another.
pub open spec fn grouped(order: Seq<InstanceKey>) -> bool {
    forall|a: int, b: int, c: int|
        0 <= a < b < c < order.len() && (#[trigger] order[a]).0 == (#[trigger] order[c]).0
            ==> (#[trigger] order[b]).0 == order[a].0
}

/// Whether `order` names every key once, service by service.
pub open spec fn walks_by_service(order: Seq<InstanceKey>, keys: Set<InstanceKey>) -> bool {
    crate::string_map::is_walk(order, keys) && grouped(order)
}

/// Whether `urls` are those of the instances of a registry, one for each, service
/// by service.
pub open spec fn lists_all_urls(urls: Seq<Seq<char>>, registry: RegistryView) -> bool {
    exists|order: Seq<InstanceKey>| #[trigger]
        walks_by_service(order, registry.instances.dom()) && urls == crate::registry::urls_under(
            order,
            registry.instances,
        )
}

/// The backends that the instances under some keys are.
pub open spec fn backends_under(order: Seq<InstanceKey>, registry: RegistryView) -> Seq<BackendView> {
    order.map_values(|k: InstanceKey| backend_of(registry.instances[k]))
}

/// Whether `backends` are the healthy instances of a registry, one for each,
/// service by service.
pub open spec fn discovers(backends: Seq<BackendView>, registry: RegistryView) -> bool {
    exists|order: Seq<InstanceKey>| #[trigger]
        walks_by_service(order, registry.healthy()) && backends == backends_under(order, registry)
}

spec fn keys_of_services(
    keys: Set<InstanceKey>,
    services: Seq<Seq<char>>,
) -> Set<InstanceKey> {
    keys.filter(|k: InstanceKey| services.contains(k.0))
}

proof fn lemma_next_service(
    keys: Set<InstanceKey>,
    services: Seq<Seq<char>>,
    i: int,
    order: Seq<InstanceKey>,
    more: Seq<InstanceKey>,
)
    requires
        0 <= i < services.len(),
        services.no_duplicates(),
        grouped(order),
        crate::string_map::is_walk(order, keys_of_services(keys, services.take(i))),
        crate::string_map::is_walk(more, keys.filter(|k: InstanceKey| k.0 == services[i])),
    ensures
        grouped(order + more),
        crate::string_map::is_walk(order + more, keys_of_services(keys, services.take(i + 1))),
{
    let service = services[i];
    let both = order + more;
    assert forall|a: int| 0 <= a < order.len() implies (#[trigger] order[a]).0 != service by {
        assert(order.to_set().contains(order[a]));
        let earlier = services.take(i);
        let j = choose|j: int| 0 <= j < earlier.len() && earlier[j] == order[a].0;
        assert(services[j] == order[a].0);
    }
    assert forall|b: int| 0 <= b < more.len() implies (#[trigger] more[b]).0 == service by {
        assert(more.to_set().contains(more[b]));
    }
    assert forall|a: int, b: int, c: int|
        0 <= a < b < c < both.len() && (#[trigger] both[a]).0 == (#[trigger] both[c]).0 implies (
    #[trigger] both[b]).0 == both[a].0 by {
        if c < order.len() {
            assert(both[a] == order[a] && both[b] == order[b] && both[c] == order[c]);
        } else {
            assert(both[c] == more[c - order.len()]);
            if a < order.len() {
                assert(both[a] == order[a]);
            } else {
                assert(both[a] == more[a - order.len()]);
                assert(both[b] == more[b - order.len()]);
            }
        }
    }
    assert forall|a: int, b: int| 0 <= a < b < both.len() implies both[a] != both[b] by {
        if b < order.len() {
            assert(both[a] == order[a] && both[b] == order[b]);
        } else if a < order.len() {
            assert(both[a] == order[a] && both[b] == more[b - order.len()]);
        } else {
            assert(both[a] == more[a - order.len()] && both[b] == more[b - order.len()]);
        }
    }
    let wanted = keys_of_services(keys, services.take(i + 1));
    assert forall|k: InstanceKey| both.to_set().contains(k) == wanted.contains(k) by {
        let earlier = services.take(i);
        let now = services.take(i + 1);
        assert(now =~= earlier.push(service));
        assert(now.contains(k.0) <==> earlier.contains(k.0) || k.0 == service) by {
            if earlier.contains(k.0) {
                let j = choose|j: int| 0 <= j < earlier.len() && earlier[j] == k.0;
                assert(now[j] == k.0);
            }
            assert(now[i] == service);
        }
        assert(both.contains(k) <==> order.contains(k) || more.contains(k)) by {
            if order.contains(k) {
                let j = choose|j: int| 0 <= j < order.len() && order[j] == k;
                assert(both[j] == k);
            }
            if more.contains(k) {
                let j = choose|j: int| 0 <= j < more.len() && more[j] == k;
                assert(both[order.len() + j] == k);
            }
        }
        assert(order.to_set().contains(k) == order.contains(k));
        assert(more.to_set().contains(k) == more.contains(k));
    }
    assert(both.to_set() =~= wanted);
}

spec fn views_of(list: Seq<ServiceInstance>) -> Seq<ServiceInstanceView> {
    list.map_values(|i: ServiceInstance| i@)
}

spec fn chosen(registry: RegistryView, only_healthy: bool) -> Set<InstanceKey> {
    if only_healthy {
        registry.healthy()
    } else {
        registry.instances.dom()
    }
}

/// The instances of all services, or the healthy ones, service by service.
fn instances_by_service(registry: &ServiceRegistry, only_healthy: bool) -> (r: Vec<ServiceInstance>)
    ensures
        exists|order: Seq<InstanceKey>| #[trigger]
            walks_by_service(order, chosen(registry@, only_healthy)) && views_of(r@)
                == crate::registry::instances_under(order, registry@.instances),
{
    let ghost keys = chosen(registry@, only_healthy);
    let services = registry.get_services();
    let ghost names = crate::text::texts(services@);
    let ghost mut order = Seq::<InstanceKey>::empty();
    let mut all: Vec<ServiceInstance> = Vec::new();
    let mut i: usize = 0;
    proof {
        assert(order.to_set() =~= keys_of_services(keys, names.take(0)));
        assert(views_of(all@) =~= crate::registry::instances_under(order, registry@.instances));
    }
    while i < services.len()
        invariant
            i <= services@.len(),
            names == crate::text::texts(services@),
            names.no_duplicates(),
            keys == chosen(registry@, only_healthy),
            walks_by_service(order, keys_of_services(keys, names.take(i as int))),
            views_of(all@) == crate::registry::instances_under(order, registry@.instances),
        decreases services@.len() - i,
    {
        let found = if only_healthy {
            registry.get_healthy_instances(services[i].as_str())
        } else {
            registry.get_instances(services[i].as_str())
        };
        let ghost of_service = if only_healthy {
            registry@.healthy_of_service(names[i as int])
        } else {
            registry@.of_service(names[i as int])
        };
        proof {
            assert(crate::registry::lists_instances(
                views_of(found@),
                of_service,
                registry@.instances,
            ));
        }
        let ghost more = choose|more: Seq<InstanceKey>|
            {
                &&& #[trigger] crate::string_map::is_walk(more, of_service)
                &&& views_of(found@) == crate::registry::instances_under(more, registry@.instances)
            };
        let ghost before = all@;
        let mut j: usize = 0;
        while j < found.len()
            invariant
                j <= found@.len(),
                all@.len() == before.len() + j,
                forall|a: int| 0 <= a < before.len() ==> #[trigger] all@[a]@ == before[a]@,
                forall|a: int| 0 <= a < j ==> (#[trigger] all@[before.len() + a])@ == found@[a]@,
            decreases found@.len() - j,
        {
            all.push(found[j].clone());
            j = j + 1;
        }
        proof {
            assert(names[i as int] == services@[i as int]@);
            assert(of_service =~= keys.filter(|k: InstanceKey| k.0 == names[i as int]));
            lemma_next_service(keys, names, i as int, order, more);
            let told = views_of(all@);
            let wanted = crate::registry::instances_under(order + more, registry@.instances);
            assert(views_of(before).len() == order.len());
            assert(views_of(found@).len() == more.len());
            assert(told.len() == wanted.len());
            assert forall|a: int| 0 <= a < told.len() implies told[a] == wanted[a] by {
                if a < before.len() {
                    assert(all@[a]@ == before[a]@);
                    assert(views_of(before)[a] == crate::registry::instances_under(
                        order,
                        registry@.instances,
                    )[a]);
                } else {
                    let b = a - before.len();
                    assert(all@[before.len() + b]@ == found@[b]@);
                    assert(views_of(found@)[b] == crate::registry::instances_under(
                        more,
                        registry@.instances,
                    )[b]);
                }
            }
            assert(told =~= wanted);
            order = order + more;
        }
        i = i + 1;
    }
    proof {
        assert(names.take(names.len() as int) =~= names);
        assert forall|k: InstanceKey| keys_of_services(keys, names).contains(k) == keys.contains(
            k,
        ) by {
            if keys.contains(k) {
                assert(registry@.instances.contains_key((k.0, k.1)));
                assert(registry@.services().contains(k.0));
                assert(names.to_set().contains(k.0));
            }
        }
        assert(keys_of_services(keys, names) =~= keys);
        assert(walks_by_service(order, keys));
    }
    all
}

/// A load balancer over the healthy instances of a registry.
fn discovered(registry: &ServiceRegistry) -> (r: LoadBalancer)
    ensures
        exists|backends: Seq<BackendView>| #[trigger]
            discovers(backends, registry@) && r@ == crate::config::balancing(backends),
{
    let healthy = instances_by_service(registry, true);
    let ghost order = choose|order: Seq<InstanceKey>| #[trigger]
        walks_by_service(order, registry@.healthy()) && views_of(healthy@)
            == crate::registry::instances_under(order, registry@.instances);
    let ghost wanted = backends_under(order, registry@);
    let mut lb = LoadBalancer::new();
    proof {
        assert(views_of(healthy@).len() == order.len());
        assert(wanted.take(0) =~= Seq::<BackendView>::empty());
        assert(discovers(wanted, registry@));
    }
    let mut i: usize = 0;
    while i < healthy.len()
        invariant
            i <= healthy@.len() == order.len(),
            views_of(healthy@) == crate::registry::instances_under(order, registry@.instances),
            wanted == backends_under(order, registry@),
            lb@ == crate::config::balancing(wanted.take(i as int)),
        decreases healthy@.len() - i,
    {
        let instance = &healthy[i];
        lb = lb.backend(Backend::new(instance.url.as_str()).weight(instance.weight));
        proof {
            assert(views_of(healthy@)[i as int] == registry@.instances[order[i as int]]);
            assert(wanted.take(i + 1) =~= wanted.take(i as int).push(
                backend_of(registry@.instances[order[i as int]]),
            ));
        }
        i = i + 1;
    }
    proof {
        assert(wanted.take(wanted.len() as int) =~= wanted);
    }
    lb
}

/// Ferron manager for complete proxy lifecycle management.
#[derive(Debug)]
pub struct FerronManager {
    config_path: String,
    config: Option<FerronConfig>,
    given: Option<LoadBalancer>,
    auto_reload: bool,
    watching: bool,
    reload_count: u64,
}

spec fn balancer_view(balancer: Option<LoadBalancer>) -> Option<LoadBalancerView> {
    match balancer {
        Some(b) => Some(b@),
        None => None,
    }
}

fn clone_balancer(balancer: &Option<LoadBalancer>) -> (r: Option<LoadBalancer>)
    ensures
        balancer_view(r) == balancer_view(*balancer),
{
    match balancer {
        Some(b) => Some(b.clone()),
        None => None,
    }
}

spec fn config_view(config: Option<FerronConfig>) -> Option<FerronConfigView> {
    match config {
        Some(c) => Some(c@),
        None => None,
    }
}

impl View for FerronManager {
    type V = ManagerView;

    closed spec fn view(&self) -> ManagerView {
        ManagerView {
            config_path: self.config_path@,
            config: config_view(self.config),
            given: balancer_view(self.given),
            auto_reload: self.auto_reload,
            watching: self.watching,
            reload_count: self.reload_count,
        }
    }
}

/// The actions that were planned, or the error.
pub open spec fn planned(r: Result<Vec<ManagerAction>>) -> Result<Seq<ManagerAction>> {
    match r {
        Ok(actions) => Ok(actions@),
        Err(e) => Err(e),
    }
}

impl ManagerView {
    /// Whether `after` and `outcome` are what comes of a change of the registry:
    /// with auto reload, and while the process runs, the healthy instances are
    /// the backends of the configuration, which is written and reloaded. There is
    /// an error instead where there is nothing to make a configuration of.
    pub open spec fn follows(
        self,
        after: ManagerView,
        registry: RegistryView,
        status: ProcessStatus,
        outcome: Result<Seq<ManagerAction>>,
    ) -> bool {
        if self.auto_reload && status == ProcessStatus::Running {
            match outcome {
                Ok(actions) => {
                    &&& !self.lacks_config(registry)
                    &&& actions == regeneration_plan()
                    &&& exists|backends: Seq<BackendView>| #[trigger]
                        discovers(backends, registry) && after == self.counted().regenerated(
                            backends,
                        )
                },
                Err(e) => self.lacks_config(registry) && reports_no_config(e) && after == self,
            }
        } else {
            outcome matches Ok(actions) && actions == Seq::<ManagerAction>::empty() && after == self
        }
    }
}

/// Whether an error says that there is no configuration to start from.
pub open spec fn reports_no_config(e: FerronError) -> bool {
    e matches FerronError::Config(m) && m@ == "No base configuration set"@
}

/// Whether an error says that there is no registry.
pub open spec fn lacks_registry(e: FerronError) -> bool {
    e matches FerronError::Registry(m) && m@ == "Service registry not configured"@
}

impl FerronManager {
    /// Creates a builder of a manager.
    pub fn builder() -> (r: FerronManagerBuilder)
        ensures
            r@ == unset_builder(),
    {
        FerronManagerBuilder::default()
    }

    /// The configuration file path.
    pub fn config_path(&self) -> (r: &str)
        ensures
            r@ == self@.config_path,
    {
        self.config_path.as_str()
    }

    /// The configuration, if one is set.
    pub fn config(&self) -> (r: Option<&FerronConfig>)
        ensures
            match r {
                Some(config) => self@.config == Some(config@),
                None => self@.config is None,
            },
    {
        match &self.config {
            Some(config) => Some(config),
            None => None,
        }
    }

    /// Whether the process is reloaded as services come and go, and as the
    /// configuration file changes.
    pub fn auto_reload(&self) -> (r: bool)
        ensures
            r == self@.auto_reload,
    {
        self.auto_reload
    }

    /// Whether the configuration file is watched.
    pub fn is_watching(&self) -> (r: bool)
        ensures
            r == self@.watching,
    {
        self.watching
    }

    /// Takes note that the configuration file is watched.
    pub fn watcher_started(&mut self)
        ensures
            final(self)@ == (ManagerView { watching: true, ..old(self)@ }),
    {
        self.watching = true;
    }

    /// The number of reload signals so far, whatever they were sent for.
    pub fn reload_count(&self) -> (r: u64)
        ensures
            r == self@.reload_count,
    {
        self.reload_count
    }

    fn count_reload(&mut self)
        ensures
            final(self)@ == old(self)@.counted(),
    {
        self.reload_count = if self.reload_count == u64::MAX {
            0
        } else {
            self.reload_count + 1
        };
    }

    /// Puts the healthy instances of all services into the configuration, as the
    /// backends of its load balancer. Without any, the configuration has the load
    /// balancer that it was given with. Where no configuration is set, a blank
    /// one is taken, if there is a healthy instance to put into it.
    pub fn regenerate_config_from_registry(&mut self, registry: &ServiceRegistry) -> (r: Result<()>)
        ensures
            registry@.healthy().finite(),
            match r {
                Ok(_) => {
                    &&& !old(self)@.lacks_config(registry@)
                    &&& exists|backends: Seq<BackendView>| #[trigger]
                        discovers(backends, registry@) && final(self)@ == old(self)@.regenerated(
                            backends,
                        )
                },
                Err(e) => {
                    &&& old(self)@.lacks_config(registry@)
                    &&& reports_no_config(e)
                    &&& final(self)@ == old(self)@
                },
            },
    {
        let lb = discovered(registry);
        let ghost backends = choose|backends: Seq<BackendView>| #[trigger]
            discovers(backends, registry@) && lb@ == crate::config::balancing(backends);
        proof {
            crate::manager::laws::law_discovered_are_the_healthy(backends, registry@);
            if backends.len() == 0 {
                assert(registry@.healthy() =~= Set::<InstanceKey>::empty());
            }
            assert(lb@.backends.len() == lb.backends@.len());
        }
        let mut current: Option<FerronConfig> = None;
        core::mem::swap(&mut current, &mut self.config);
        let config = match current {
            Some(config) => config,
            None => {
                if lb.backends.len() == 0 {
                    return Err(FerronError::config("No base configuration set"));
                }
                FerronConfig::blank()
            },
        };
        let load_balancer = if lb.backends.len() == 0 {
            clone_balancer(&self.given)
        } else {
            Some(lb)
        };
        self.config = Some(FerronConfig { load_balancer, ..config });
        proof {
            assert(self@ =~= old(self)@.regenerated(backends));
        }
        Ok(())
    }

    /// What is to be done to start the process, with the registry's instances in
    /// the configuration if there is a registry.
    pub fn start(&mut self, registry: Option<&ServiceRegistry>) -> (r: Result<Vec<ManagerAction>>)
        ensures
            match registry {
                Some(registry) => match r {
                    Ok(actions) => {
                        &&& !old(self)@.lacks_config(registry@)
                        &&& actions@ == seq![
                            ManagerAction::WriteConfig,
                            ManagerAction::StartProcess,
                        ]
                        &&& exists|backends: Seq<BackendView>| #[trigger]
                            discovers(backends, registry@) && final(self)@ == old(
                                self,
                            )@.regenerated(backends)
                    },
                    Err(e) => {
                        &&& old(self)@.lacks_config(registry@)
                        &&& reports_no_config(e)
                        &&& final(self)@ == old(self)@
                    },
                },
                None => {
                    &&& r matches Ok(actions)
                    &&& actions@ == seq![ManagerAction::StartProcess]
                    &&& final(self)@ == old(self)@
                },
            },
    {
        let mut actions: Vec<ManagerAction> = Vec::new();
        match registry {
            Some(registry) => match self.regenerate_config_from_registry(registry) {
                Ok(_) => {
                    actions.push(ManagerAction::WriteConfig);
                },
                Err(e) => {
                    return Err(e);
                },
            },
            None => {},
        }
        actions.push(ManagerAction::StartProcess);
        Ok(actions)
    }

    /// What is to be done to stop watching the configuration file: nothing where
    /// it is not watched.
    pub fn stop_watching(&mut self) -> (r: Vec<ManagerAction>)
        ensures
            r@ == if old(self)@.watching {
                seq![ManagerAction::AbortWatcher]
            } else {
                Seq::empty()
            },
            final(self)@ == (ManagerView { watching: false, ..old(self)@ }),
    {
        let mut actions: Vec<ManagerAction> = Vec::new();
        if self.watching {
            actions.push(ManagerAction::AbortWatcher);
        }
        self.watching = false;
        actions
    }

    /// What is to be done to stop the process: the watcher ends first, whether
    /// the process runs or not.
    pub fn stop(&mut self) -> (r: Vec<ManagerAction>)
        ensures
            r@ == if old(self)@.watching {
                seq![ManagerAction::AbortWatcher, ManagerAction::StopProcess]
            } else {
                seq![ManagerAction::StopProcess]
            },
            final(self)@ == (ManagerView { watching: false, ..old(self)@ }),
    {
        let mut actions = self.stop_watching();
        actions.push(ManagerAction::StopProcess);
        actions
    }

    /// What is to be done to restart the process.
    pub fn restart(&self) -> (r: Vec<ManagerAction>)
        ensures
            r@ == seq![ManagerAction::RestartProcess],
    {
        let mut actions: Vec<ManagerAction> = Vec::new();
        actions.push(ManagerAction::RestartProcess);
        actions
    }

    /// What is to be done to reload the configuration, with the registry's
    /// instances in it if there is a registry. The reload counts in any case.
    ///
    /// This is not for the watcher, which would see its own reload change the
    /// file; that has [`FerronManager::signal_reload`].
    pub fn reload(&mut self, registry: Option<&ServiceRegistry>) -> (r: Result<Vec<ManagerAction>>)
        ensures
            match registry {
                Some(registry) => match r {
                    Ok(actions) => {
                        &&& !old(self)@.lacks_config(registry@)
                        &&& actions@ == regeneration_plan()
                        &&& exists|backends: Seq<BackendView>| #[trigger]
                            discovers(backends, registry@) && final(self)@ == old(
                                self,
                            )@.counted().regenerated(backends)
                    },
                    Err(e) => {
                        &&& old(self)@.lacks_config(registry@)
                        &&& reports_no_config(e)
                        &&& final(self)@ == old(self)@.counted()
                    },
                },
                None => {
                    &&& r matches Ok(actions)
                    &&& actions@ == signal_plan()
                    &&& final(self)@ == old(self)@.counted()
                },
            },
    {
        self.count_reload();
        let mut actions: Vec<ManagerAction> = Vec::new();
        match registry {
            Some(registry) => match self.regenerate_config_from_registry(registry) {
                Ok(_) => {
                    actions.push(ManagerAction::WriteConfig);
                },
                Err(e) => {
                    return Err(e);
                },
            },
            None => {},
        }
        actions.push(ManagerAction::ReloadProcess);
        Ok(actions)
    }

    /// What is to be done to have the process read the configuration file again
    /// as it is. The file is not written, so that the watcher, whose reload this
    /// is, does not see a change of its own making.
    pub fn signal_reload(&mut self) -> (r: Vec<ManagerAction>)
        ensures
            r@ == signal_plan(),
            final(self)@ == old(self)@.counted(),
    {
        self.count_reload();
        let mut actions: Vec<ManagerAction> = Vec::new();
        actions.push(ManagerAction::ReloadProcess);
        actions
    }

    /// Takes another configuration, given what came of writing it to the
    /// configuration path. What is left to do is to reload the process, if it
    /// runs.
    pub fn update_config(
        &mut self,
        config: FerronConfig,
        written: Result<()>,
        status: ProcessStatus,
    ) -> (r: Result<Vec<ManagerAction>>)
        ensures
            match written {
                Ok(_) => {
                    let updated = ManagerView {
                        config: Some(config@),
                        given: config@.load_balancer,
                        ..old(self)@
                    };
                    &&& r matches Ok(actions)
                    &&& if status == ProcessStatus::Running {
                        actions@ == signal_plan() && final(self)@ == updated.counted()
                    } else {
                        actions@ == Seq::<ManagerAction>::empty() && final(self)@ == updated
                    }
                },
                Err(e) => r == Result::<Vec<ManagerAction>>::Err(e) && final(self)@ == old(self)@,
            },
    {
        match written {
            Err(e) => Err(e),
            Ok(_) => {
                self.given = clone_balancer(&config.load_balancer);
                self.config = Some(config);
                if status == ProcessStatus::Running {
                    Ok(self.signal_reload())
                } else {
                    Ok(Vec::new())
                }
            },
        }
    }

    /// What is to be done when the instances in the registry have changed: with
    /// auto reload, and while the process runs, its configuration is regenerated
    /// and reloaded.
    pub fn backends_changed(&mut self, registry: &ServiceRegistry, status: ProcessStatus) -> (r:
        Result<Vec<ManagerAction>>)
        ensures
            old(self)@.follows(final(self)@, registry@, status, planned(r)),
    {
        let mut actions: Vec<ManagerAction> = Vec::new();
        if self.auto_reload && status == ProcessStatus::Running {
            match self.regenerate_config_from_registry(registry) {
                Ok(_) => {
                    let ghost backends = choose|backends: Seq<BackendView>| #[trigger]
                        discovers(backends, registry@) && self@ == old(self)@.regenerated(backends);
                    self.count_reload();
                    actions.push(ManagerAction::WriteConfig);
                    actions.push(ManagerAction::ReloadProcess);
                    proof {
                        assert(self@ =~= old(self)@.counted().regenerated(backends));
                        assert(actions@ =~= regeneration_plan());
                    }
                },
                Err(e) => {
                    return Err(e);
                },
            }
        }
        Ok(actions)
    }

    /// Registers a backend under a random identifier, and says what is to be
    /// done then.
    pub fn register_backend(
        &mut self,
        registry: Option<&mut ServiceRegistry>,
        service_name: &str,
        url: &str,
        status: ProcessStatus,
    ) -> (r: Result<(String, Vec<ManagerAction>)>)
        ensures
            match registry {
                None => (r matches Err(e) && lacks_registry(e)) && final(self)@ == old(self)@,
                Some(registry) => {
                    &&& r matches Ok(done)
                    &&& crate::registry::is_random_uuid(done.0@)
                    &&& exists|now: Timestamp| #[trigger]
                        crate::time::is_reading(now) && final(registry)@ == registry@.registered(
                            crate::registry::fresh_instance(
                                done.0@,
                                service_name@,
                                url@,
                                now@,
                            ),
                        )
                    &&& old(self)@.follows(final(self)@, final(registry)@, status, Ok(done.1@))
                },
            },
    {
        match registry {
            None => Err(FerronError::registry("Service registry not configured")),
            Some(registry) => match registry.register(service_name, url) {
                Ok(id) => {
                    proof {
                        assert(registry@.healthy().contains((service_name@, id@)));
                    }
                    match self.backends_changed(&*registry, status) {
                        Ok(actions) => Ok((id, actions)),
                        Err(e) => Err(e),
                    }
                },
                Err(e) => Err(e),
            },
        }
    }

    /// Deregisters a backend, and says what is to be done then. An error that
    /// comes after the deregistration does not undo it.
    pub fn deregister_backend(
        &mut self,
        registry: Option<&mut ServiceRegistry>,
        service_name: &str,
        instance_id: &str,
        status: ProcessStatus,
    ) -> (r: Result<Vec<ManagerAction>>)
        ensures
            match registry {
                None => (r matches Err(e) && lacks_registry(e)) && final(self)@ == old(self)@,
                Some(registry) => {
                    let key = (service_name@, instance_id@);
                    if registry@.instances.contains_key(key) {
                        &&& final(registry)@ == registry@.deregistered(key)
                        &&& old(self)@.follows(
                            final(self)@,
                            final(registry)@,
                            status,
                            planned(r),
                        )
                    } else {
                        &&& r matches Err(e)
                        &&& crate::registry::misses(e, key)
                        &&& final(registry)@ == registry@
                        &&& final(self)@ == old(self)@
                    }
                },
            },
    {
        match registry {
            None => Err(FerronError::registry("Service registry not configured")),
            Some(registry) => match registry.deregister(service_name, instance_id) {
                Ok(_) => self.backends_changed(&*registry, status),
                Err(e) => Err(e),
            },
        }
    }

    /// The URLs to check in the background when the process is started under
    /// supervision: those of all instances, healthy or not, where health checks
    /// are configured and there is any.
    pub fn start_supervised(&self, health_checks: bool, registry: Option<&ServiceRegistry>) -> (r:
        Option<Vec<String>>)
        ensures
            match r {
                Some(urls) => {
                    &&& health_checks
                    &&& registry matches Some(registry)
                    &&& urls@.len() > 0
                    &&& lists_all_urls(crate::text::texts(urls@), registry@)
                },
                None => !health_checks || registry is None || registry->0@.instances.dom() == Set::<
                    InstanceKey,
                >::empty(),
            },
    {
        match registry {
            Some(registry) => {
                if !health_checks {
                    return None;
                }
                let all = instances_by_service(registry, false);
                let ghost order = choose|order: Seq<InstanceKey>| #[trigger]
                    walks_by_service(order, registry@.instances.dom()) && views_of(all@)
                        == crate::registry::instances_under(order, registry@.instances);
                proof {
                    assert(views_of(all@).len() == order.len());
                }
                if all.len() == 0 {
                    proof {
                        assert(order.to_set() =~= Set::<InstanceKey>::empty());
                    }
                    return None;
                }
                let mut urls: Vec<String> = Vec::new();
                let mut i: usize = 0;
                while i < all.len()
                    invariant
                        i <= all@.len(),
                        urls@.len() == i,
                        forall|j: int| 0 <= j < i ==> #[trigger] urls@[j]@ == all@[j]@.url,
                    decreases all@.len() - i,
                {
                    urls.push(all[i].url.clone());
                    i = i + 1;
                }
                proof {
                    let told = crate::text::texts(urls@);
                    let wanted = crate::registry::urls_under(order, registry@.instances);
                    assert forall|j: int| 0 <= j < told.len() implies told[j] == wanted[j] by {
                        assert(urls@[j]@ == all@[j]@.url);
                        assert(views_of(all@)[j] == registry@.instances[order[j]]);
                    }
                    assert(told =~= wanted);
                    assert(lists_all_urls(told, registry@));
                }
                Some(urls)
            },
            None => None,
        }
    }
}

/// Builder of a [`FerronManager`].
#[derive(Debug)]
pub struct FerronManagerBuilder {
    binary_path: Option<String>,
    config_path: Option<String>,
    config: Option<FerronConfig>,
    registry: Option<ServiceRegistry>,
    health_config: Option<HealthCheckConfig>,
    auto_reload: bool,
    auto_restart: bool,
    working_dir: Option<String>,
}

/// The values of a [`FerronManagerBuilder`].
#[verifier::ext_equal]
pub struct ManagerBuilderView {
    pub binary_path: Option<Seq<char>>,
    pub config_path: Option<Seq<char>>,
    pub config: Option<FerronConfigView>,
    pub registry: Option<RegistryView>,
    pub health_config: Option<crate::health::HealthCheckConfigView>,
    pub auto_reload: bool,
    pub auto_restart: bool,
    pub working_dir: Option<Seq<char>>,
}

impl View for FerronManagerBuilder {
    type V = ManagerBuilderView;

    closed spec fn view(&self) -> ManagerBuilderView {
        ManagerBuilderView {
            binary_path: crate::text::opt_text(self.binary_path),
            config_path: crate::text::opt_text(self.config_path),
            config: config_view(self.config),
            registry: match self.registry {
                Some(r) => Some(r@),
                None => None,
            },
            health_config: match self.health_config {
                Some(c) => Some(c@),
                None => None,
            },
            auto_reload: self.auto_reload,
            auto_restart: self.auto_restart,
            working_dir: crate::text::opt_text(self.working_dir),
        }
    }
}

/// A builder in which nothing is set.
pub open spec fn unset_builder() -> ManagerBuilderView {
    ManagerBuilderView {
        binary_path: None,
        config_path: None,
        config: None,
        registry: None,
        health_config: None,
        auto_reload: false,
        auto_restart: false,
        working_dir: None,
    }
}

impl ManagerBuilderView {
    /// The configuration file path, or where it is by default.
    pub open spec fn path_or_default(self) -> Seq<char> {
        match self.config_path {
            Some(path) => path,
            None => "/etc/ferron/ferron.conf"@,
        }
    }

    /// The configuration of the process that the manager is for.
    pub open spec fn process(self) -> ProcessConfigView {
        ProcessConfigView {
            auto_restart: self.auto_restart,
            working_dir: self.working_dir,
            ..crate::process::process_config(
                crate::process::binary_or_default(self.binary_path),
                self.path_or_default(),
            )
        }
    }
}

impl ManagerBuilderView {
    /// Whether these parts are what is built.
    pub open spec fn makes(self, parts: ManagerParts) -> bool {
        &&& parts.manager@ == (ManagerView {
            config_path: self.path_or_default(),
            config: self.config,
            given: balancer_of(self.config),
            auto_reload: self.auto_reload,
            watching: false,
            reload_count: 0,
        })
        &&& parts.process@ == (crate::process::ProcessView {
            config: self.process(),
            child: false,
            status: ProcessStatus::Stopped,
            pid: None,
            restart_count: 0,
        })
        &&& match parts.registry {
            Some(registry) => self.registry == Some(registry@),
            None => self.registry is None,
        }
        &&& match parts.health_state {
            Some(state) => {
                &&& self.health_config == Some(state@.config)
                &&& state@.results == Map::<
                    Seq<char>,
                    crate::health::HealthCheckResultView,
                >::empty()
            },
            None => self.health_config is None,
        }
        &&& parts.write_config == (self.config is Some)
        &&& parts.watch_config == self.auto_reload
    }
}

impl Default for FerronManagerBuilder {
    fn default() -> (r: Self)
        ensures
            r@ == unset_builder(),
    {
        FerronManagerBuilder {
            binary_path: None,
            config_path: None,
            config: None,
            registry: None,
            health_config: None,
            auto_reload: false,
            auto_restart: false,
            working_dir: None,
        }
    }
}

/// What a [`FerronManagerBuilder`] builds. If the manager has a configuration, it
/// is to be written first; if it has auto reload, its configuration file is to
/// be watched then.
#[derive(Debug)]
pub struct ManagerParts {
    /// The manager
    pub manager: FerronManager,
    /// The process it manages
    pub process: FerronProcess,
    /// The registry it takes backends from
    pub registry: Option<ServiceRegistry>,
    /// The state of health checks
    pub health_state: Option<HealthState>,
    /// Whether the configuration is to be written to the configuration path
    pub write_config: bool,
    /// Whether the configuration file is to be watched
    pub watch_config: bool,
}

impl FerronManagerBuilder {
    /// Sets the Ferron binary path.
    pub fn binary_path(self, path: &str) -> (r: Self)
        ensures
            r@ == (ManagerBuilderView { binary_path: Some(path@), ..self@ }),
    {
        FerronManagerBuilder { binary_path: Some(path.to_owned()), ..self }
    }

    /// Sets the configuration file path.
    pub fn config_path(self, path: &str) -> (r: Self)
        ensures
            r@ == (ManagerBuilderView { config_path: Some(path@), ..self@ }),
    {
        FerronManagerBuilder { config_path: Some(path.to_owned()), ..self }
    }

    /// Sets the Ferron configuration.
    pub fn config(self, config: FerronConfig) -> (r: Self)
        ensures
            r@ == (ManagerBuilderView { config: Some(config@), ..self@ }),
    {
        FerronManagerBuilder { config: Some(config), ..self }
    }

    /// Sets the service registry for dynamic discovery.
    pub fn service_registry(self, registry: ServiceRegistry) -> (r: Self)
        ensures
            r@ == (ManagerBuilderView { registry: Some(registry@), ..self@ }),
    {
        FerronManagerBuilder { registry: Some(registry), ..self }
    }

    /// Enables health checks with a configuration.
    pub fn health_check(self, config: HealthCheckConfig) -> (r: Self)
        ensures
            r@ == (ManagerBuilderView { health_config: Some(config@), ..self@ }),
    {
        FerronManagerBuilder { health_config: Some(config), ..self }
    }

    /// Enables or disables auto reload.
    pub fn auto_reload(self, enabled: bool) -> (r: Self)
        ensures
            r@ == (ManagerBuilderView { auto_reload: enabled, ..self@ }),
    {
        FerronManagerBuilder { auto_reload: enabled, ..self }
    }

    /// Enables or disables auto restart on process crash.
    pub fn auto_restart(self, enabled: bool) -> (r: Self)
        ensures
            r@ == (ManagerBuilderView { auto_restart: enabled, ..self@ }),
    {
        FerronManagerBuilder { auto_restart: enabled, ..self }
    }

    /// Sets the working directory.
    pub fn working_dir(self, path: &str) -> (r: Self)
        ensures
            r@ == (ManagerBuilderView { working_dir: Some(path@), ..self@ }),
    {
        FerronManagerBuilder { working_dir: Some(path.to_owned()), ..self }
    }

    /// Builds the manager and what it works with.
    pub fn build(self) -> (r: Result<ManagerParts>)
        ensures
            r matches Ok(parts) && self@.makes(parts),
    {
        let config_path = match self.config_path {
            Some(path) => path,
            None => "/etc/ferron/ferron.conf".to_owned(),
        };
        let binary_path = match self.binary_path {
            Some(path) => path,
            None => "ferron".to_owned(),
        };
        let mut process_config = ProcessConfig::new(
            binary_path.as_str(),
            config_path.as_str(),
        ).auto_restart(self.auto_restart);
        match self.working_dir {
            Some(dir) => {
                process_config = process_config.working_dir(dir.as_str());
            },
            None => {},
        }
        let health_state = match self.health_config {
            Some(config) => Some(HealthState::new(config)),
            None => None,
        };
        let write_config = self.config.is_some();
        let given = match &self.config {
            Some(config) => clone_balancer(&config.load_balancer),
            None => None,
        };
        Ok(
            ManagerParts {
                manager: FerronManager {
                    config_path,
                    config: self.config,
                    given,
                    auto_reload: self.auto_reload,
                    watching: false,
                    reload_count: 0,
                },
                process: FerronProcess::new(process_config),
                registry: self.registry,
                health_state,
                write_config,
                watch_config: self.auto_reload,
            },
        )
    }
}

} // verus!
