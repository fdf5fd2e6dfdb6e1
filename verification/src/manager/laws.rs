//! What holds of the manager, whatever is registered.

use crate::config::{BackendView, FerronConfig, FerronConfigView, LoadBalanceStrategy};
use crate::error::{FerronError, Result};
use crate::health::HealthCheckConfig;
use crate::manager::{
    FerronManager, FerronManagerBuilder, ManagerAction, ManagerBuilderView, ManagerParts,
    ManagerView,
};
use crate::process::ProcessStatus;
use crate::registry::{InstanceKey, RegistryView, ServiceInstanceView, ServiceRegistry};
use crate::time::Timestamp;
use crate::watcher::laws::Moment;
use crate::watcher::WatcherView;
use vstd::prelude::*;

verus! {

/// Whether a backend is a healthy instance of a registry.
pub open spec fn is_healthy_instance(backend: BackendView, registry: RegistryView) -> bool {
    exists|key: InstanceKey| #[trigger]
        registry.healthy().contains(key) && backend == crate::manager::backend_of(
            registry.instances[key],
        )
}

/// The backends that are discovered are the healthy instances and no others:
/// one for each, at its URL and of its weight.
pub proof fn law_discovered_are_the_healthy(backends: Seq<BackendView>, registry: RegistryView)
    requires
        crate::manager::discovers(backends, registry),
    ensures
        registry.healthy().finite(),
        backends.len() == registry.healthy().len(),
        forall|key: InstanceKey| #[trigger]
            registry.healthy().contains(key) ==> backends.contains(
                crate::manager::backend_of(registry.instances[key]),
            ),
        forall|i: int|
            0 <= i < backends.len() ==> is_healthy_instance(#[trigger] backends[i], registry),
{
    let order = choose|order: Seq<InstanceKey>| #[trigger]
        crate::manager::walks_by_service(order, registry.healthy()) && backends
            == crate::manager::backends_under(order, registry);
    order.unique_seq_to_set();
    assert forall|key: InstanceKey| #[trigger]
        registry.healthy().contains(key) implies backends.contains(
        crate::manager::backend_of(registry.instances[key]),
    ) by {
        assert(order.to_set().contains(key));
        let i = choose|i: int| 0 <= i < order.len() && order[i] == key;
        assert(backends[i] == crate::manager::backend_of(registry.instances[key]));
    }
    assert forall|i: int| 0 <= i < backends.len() implies is_healthy_instance(
        #[trigger] backends[i],
        registry,
    ) by {
        assert(order.to_set().contains(order[i]));
    }
}

/// The backends that a configuration balances over.
pub open spec fn balanced(config: FerronConfigView) -> Seq<BackendView> {
    match config.load_balancer {
        Some(lb) => lb.backends,
        None => Seq::empty(),
    }
}

/// The backends of the load balancer that the configuration was given with.
pub open spec fn given_backends(manager: ManagerView) -> Seq<BackendView> {
    match manager.given {
        Some(lb) => lb.backends,
        None => Seq::empty(),
    }
}

/// Whether some of the backends is at a URL.
pub open spec fn serves(backends: Seq<BackendView>, url: Seq<char>) -> bool {
    exists|i: int| 0 <= i < backends.len() && (#[trigger] backends[i]).url == url
}

/// A healthy instance that is registered is a backend once the configuration is
/// regenerated, at its URL and of its weight, whether a configuration was set
/// before or not.
pub proof fn law_registered_instance_becomes_a_backend(
    manager: ManagerView,
    registry: RegistryView,
    instance: ServiceInstanceView,
    backends: Seq<BackendView>,
)
    requires
        instance.healthy,
        crate::manager::discovers(backends, registry.registered(instance)),
    ensures
        manager.regenerated(backends).config matches Some(config) && balanced(config).contains(
            crate::manager::backend_of(instance),
        ),
{
    let after = registry.registered(instance);
    law_discovered_are_the_healthy(backends, after);
    assert(after.healthy().contains((instance.service_name, instance.id)));
}

/// A URL at which no instance is healthy, and which the configuration was not
/// given with, is no backend once the configuration is regenerated.
pub proof fn law_unhealthy_instances_are_no_backends(
    manager: ManagerView,
    registry: RegistryView,
    url: Seq<char>,
    backends: Seq<BackendView>,
)
    requires
        crate::manager::discovers(backends, registry),
        forall|key: InstanceKey| #[trigger]
            registry.healthy().contains(key) ==> registry.instances[key].url != url,
        !serves(given_backends(manager), url),
    ensures
        manager.regenerated(backends).config matches Some(config) && !serves(balanced(config), url),
{
    law_discovered_are_the_healthy(backends, registry);
    if serves(backends, url) {
        let i = choose|i: int| 0 <= i < backends.len() && (#[trigger] backends[i]).url == url;
        assert(is_healthy_instance(backends[i], registry));
    }
}

/// The URL of an instance that is deregistered is no backend once the
/// configuration is regenerated, even if it was the last instance, unless
/// another instance has that URL or the configuration was given with it.
pub proof fn law_deregistered_instance_is_no_backend(
    manager: ManagerView,
    registry: RegistryView,
    key: InstanceKey,
    backends: Seq<BackendView>,
)
    requires
        registry.instances.contains_key(key),
        crate::manager::discovers(backends, registry.deregistered(key)),
        forall|other: InstanceKey| #[trigger]
            registry.instances.contains_key(other) && other != key ==> registry.instances[other].url
                != registry.instances[key].url,
        !serves(given_backends(manager), registry.instances[key].url),
    ensures
        manager.regenerated(backends).config matches Some(config) && !serves(
            balanced(config),
            registry.instances[key].url,
        ),
{
    let after = registry.deregistered(key);
    assert forall|other: InstanceKey| #[trigger] after.healthy().contains(
        other,
    ) implies after.instances[other].url != registry.instances[key].url by {
        assert(registry.instances.contains_key(other));
    }
    law_unhealthy_instances_are_no_backends(
        manager,
        after,
        registry.instances[key].url,
        backends,
    );
}

/// To regenerate the configuration touches its load balancer only, which is the
/// one it was given with where no instance is healthy.
pub proof fn law_regeneration_touches_the_load_balancer_only(
    manager: ManagerView,
    backends: Seq<BackendView>,
    registry: RegistryView,
)
    requires
        crate::manager::discovers(backends, registry),
    ensures
        ({
            let after = manager.regenerated(backends);
            &&& after == (ManagerView { config: after.config, ..manager })
            &&& after.config == Some(
                FerronConfigView {
                    load_balancer: after.config->0.load_balancer,
                    ..manager.config_or_blank()
                },
            )
            &&& registry.healthy().len() == 0 ==> after.config->0.load_balancer == manager.given
        }),
{
    law_discovered_are_the_healthy(backends, registry);
}

/// What was discovered before is gone once the configuration is regenerated.
pub proof fn law_last_regeneration_stands(
    manager: ManagerView,
    before: Seq<BackendView>,
    backends: Seq<BackendView>,
)
    ensures
        manager.regenerated(before).regenerated(backends) == manager.regenerated(backends),
{
}

/// A reload is counted once, and that changes nothing else; a configuration that
/// is regenerated without a reload is not counted.
pub proof fn law_reloads_are_counted(manager: ManagerView, backends: Seq<BackendView>)
    ensures
        manager.counted() == (ManagerView { reload_count: manager.counted().reload_count, ..manager
        }),
        manager.counted().reload_count == (manager.reload_count + 1) % 0x1_0000_0000_0000_0000,
        manager.regenerated(backends).reload_count == manager.reload_count,
        manager.counted().regenerated(backends) == manager.regenerated(backends).counted(),
{
}

/// How many times some actions write the configuration file.
pub open spec fn writes(actions: Seq<ManagerAction>) -> nat
    decreases actions.len(),
{
    if actions.len() == 0 {
        0
    } else {
        writes(actions.drop_last()) + if actions.last() == ManagerAction::WriteConfig {
            1nat
        } else {
            0nat
        }
    }
}

/// How many times some actions signal the process to reload.
pub open spec fn signals(actions: Seq<ManagerAction>) -> nat
    decreases actions.len(),
{
    if actions.len() == 0 {
        0
    } else {
        signals(actions.drop_last()) + if actions.last() == ManagerAction::ReloadProcess {
            1nat
        } else {
            0nat
        }
    }
}

/// Where a change of the registry leads to a reload signal, it is one, and it is
/// counted; where it does not, nothing is.
pub proof fn law_signals_are_counted(
    manager: ManagerView,
    after: ManagerView,
    registry: RegistryView,
    status: ProcessStatus,
    outcome: Result<Seq<ManagerAction>>,
)
    requires
        manager.follows(after, registry, status, outcome),
    ensures
        match outcome {
            Ok(actions) => {
                &&& signals(actions) <= 1
                &&& after.reload_count == (manager.reload_count + signals(actions))
                    % 0x1_0000_0000_0000_0000
            },
            Err(_) => after == manager,
        },
        signals(crate::manager::signal_plan()) == 1,
        signals(crate::manager::regeneration_plan()) == 1,
{
    reveal_with_fuel(signals, 3);
    let plan = crate::manager::regeneration_plan();
    assert(plan.drop_last() =~= seq![ManagerAction::WriteConfig]);
    assert(seq![ManagerAction::WriteConfig].drop_last() =~= Seq::<ManagerAction>::empty());
    assert(crate::manager::signal_plan().drop_last() =~= Seq::<ManagerAction>::empty());
}

/// A reload by the watcher never writes the file that is watched, so that it
/// makes no change of its own, and there are never more reloads than changes
/// made by others.
pub proof fn law_reloads_do_not_feed_themselves(watcher: WatcherView, moments: Seq<Moment>)
    requires
        watcher.last_change is None,
    ensures
        writes(crate::manager::signal_plan()) == 0,
        crate::watcher::laws::reloads(watcher, moments) <= crate::watcher::laws::changes(moments),
{
    reveal_with_fuel(writes, 2);
    crate::watcher::laws::law_every_reload_has_its_change(watcher, moments);
}

/// Without auto reload a change of the registry leads to nothing, whatever the
/// process does; with it, actions are planned exactly while the process runs.
pub proof fn law_nothing_follows_without_auto_reload(
    manager: ManagerView,
    after: ManagerView,
    registry: RegistryView,
    status: ProcessStatus,
    outcome: Result<Seq<ManagerAction>>,
)
    requires
        manager.follows(after, registry, status, outcome),
    ensures
        !manager.auto_reload || status != ProcessStatus::Running ==> outcome is Ok
            && outcome->Ok_0.len() == 0 && after == manager,
        outcome is Ok && outcome->Ok_0.len() > 0 <==> manager.auto_reload && status
            == ProcessStatus::Running && (manager.config is Some || exists|key: InstanceKey|
            #[trigger]
            registry.instances.contains_key(key) && registry.instances[key].healthy),
        outcome is Err <==> manager.auto_reload && status == ProcessStatus::Running
            && manager.config is None && forall|key: InstanceKey| #[trigger]
            registry.instances.contains_key(key) ==> !registry.instances[key].healthy,
{
    if exists|key: InstanceKey| #[trigger]
        registry.instances.contains_key(key) && registry.instances[key].healthy {
        let key = choose|key: InstanceKey| #[trigger]
            registry.instances.contains_key(key) && registry.instances[key].healthy;
        assert(registry.healthy().contains(key));
    } else {
        assert(registry.healthy() =~= Set::<InstanceKey>::empty());
    }
}

/// Whether `order` names the healthy instances of a registry, each once, those
/// of a service one after the other.
pub open spec fn names_the_healthy(order: Seq<InstanceKey>, registry: RegistryView) -> bool {
    &&& order.no_duplicates()
    &&& forall|i: int|
        0 <= i < order.len() ==> registry.instances.contains_key(#[trigger] order[i])
            && registry.instances[order[i]].healthy
    &&& forall|key: InstanceKey| #[trigger]
        registry.instances.contains_key(key) && registry.instances[key].healthy ==> order.contains(
            key,
        )
    &&& forall|a: int, b: int, c: int|
        0 <= a < b < c < order.len() && (#[trigger] order[a]).0 == (#[trigger] order[c]).0 ==> (
        #[trigger] order[b]).0 == order[a].0
}

/// Whether a configuration balances over the healthy instances of a registry:
/// with one backend for each, at its URL and of its weight, taken in turn.
pub open spec fn balances_over_the_healthy(
    config: FerronConfigView,
    registry: RegistryView,
) -> bool {
    exists|order: Seq<InstanceKey>| #[trigger]
        names_the_healthy(order, registry) && config.load_balancer is Some
            && config.load_balancer->0.strategy == LoadBalanceStrategy::RoundRobin
            && config.load_balancer->0.health_check_interval is None
            && config.load_balancer->0.backends.len() == order.len() && forall|i: int|
            0 <= i < order.len() ==> (#[trigger] config.load_balancer->0.backends[i]).url
                == registry.instances[order[i]].url && config.load_balancer->0.backends[i].weight
                == registry.instances[order[i]].weight
}

/// Whether no instance of a registry is healthy.
pub open spec fn none_is_healthy(registry: RegistryView) -> bool {
    forall|key: InstanceKey| #[trigger]
        registry.instances.contains_key(key) ==> !registry.instances[key].healthy
}

/// Whether a configuration was regenerated from a registry: it balances over the
/// healthy instances, or as it was given where there is none, and is otherwise
/// as it was, or blank.
pub open spec fn is_regenerated(
    before: ManagerView,
    after: ManagerView,
    registry: RegistryView,
) -> bool {
    let config = after.config->0;
    &&& after.config is Some
    &&& none_is_healthy(registry) ==> config.load_balancer == before.given
    &&& !none_is_healthy(registry) ==> balances_over_the_healthy(config, registry)
    &&& before.config is Some ==> config == (FerronConfigView {
        load_balancer: config.load_balancer,
        ..before.config->0
    })
    &&& before.config is None ==> config.domains.len() == 0 && config.backend is None
        && config.locations.len() == 0 && config.tls is None && !config.gzip && forall|
        name: Seq<char>,
    | !#[trigger] config.headers.contains_key(name)
    &&& after.given == before.given
    &&& after.config_path == before.config_path
    &&& after.auto_reload == before.auto_reload
    &&& after.watching == before.watching
}

proof fn lemma_none_is_healthy(registry: RegistryView)
    ensures
        none_is_healthy(registry) <==> registry.healthy() == Set::<InstanceKey>::empty(),
{
    if none_is_healthy(registry) {
        assert(registry.healthy() =~= Set::<InstanceKey>::empty());
    }
    if registry.healthy() == Set::<InstanceKey>::empty() {
        assert forall|key: InstanceKey| #[trigger]
            registry.instances.contains_key(key) implies !registry.instances[key].healthy by {
            assert(!registry.healthy().contains(key));
        }
    }
}

proof fn lemma_regenerated(
    before: ManagerView,
    backends: Seq<BackendView>,
    registry: RegistryView,
)
    requires
        crate::manager::discovers(backends, registry),
    ensures
        is_regenerated(before, before.regenerated(backends), registry),
        before.regenerated(backends).reload_count == before.reload_count,
{
    lemma_none_is_healthy(registry);
    law_discovered_are_the_healthy(backends, registry);
    let order = choose|order: Seq<InstanceKey>| #[trigger]
        crate::manager::walks_by_service(order, registry.healthy()) && backends
            == crate::manager::backends_under(order, registry);
    crate::string_map::laws::law_walk_visits_each_key_once(order, registry.healthy());
    assert forall|i: int| 0 <= i < order.len() implies registry.instances.contains_key(
        #[trigger] order[i],
    ) && registry.instances[order[i]].healthy by {
        assert(registry.healthy().contains(order[i]));
    }
    assert forall|key: InstanceKey| #[trigger]
        registry.instances.contains_key(key) && registry.instances[key].healthy implies order.contains(
        key,
    ) by {
        assert(registry.healthy().contains(key));
    }
    assert(names_the_healthy(order, registry));
    let config = before.regenerated(backends).config->0;
    if !none_is_healthy(registry) {
        assert(backends.len() > 0) by {
            if backends.len() == 0 {
                assert(registry.healthy() =~= Set::<InstanceKey>::empty());
            }
        }
        assert forall|i: int| 0 <= i < order.len() implies (
        #[trigger] config.load_balancer->0.backends[i]).url == registry.instances[order[i]].url
            && config.load_balancer->0.backends[i].weight == registry.instances[order[i]].weight by {
            assert(config.load_balancer->0.backends[i] == backends[i]);
        }
        assert(balances_over_the_healthy(config, registry));
    } else {
        assert(registry.healthy().len() == 0);
    }
}

/// To regenerate the configuration from a registry makes it balance over exactly
/// the healthy instances. It fails, and changes nothing, exactly when no
/// configuration is set and no instance is healthy.
pub proof fn law_regenerate_balances_over_the_healthy(
    manager: &mut FerronManager,
    registry: ServiceRegistry,
    r: Result<()>,
)
    requires
        call_ensures(FerronManager::regenerate_config_from_registry, (manager, &registry), r),
    ensures
        r is Err <==> old(manager)@.config is None && none_is_healthy(registry@),
        r is Ok ==> is_regenerated(old(manager)@, final(manager)@, registry@) && final(manager)@.reload_count == old(manager)@.reload_count,
        r matches Err(e) ==> {
            &&& e matches FerronError::Config(m) && m@ == "No base configuration set"@
            &&& final(manager)@ == old(manager)@
        },
{
    lemma_none_is_healthy(registry@);
    if r is Ok {
        let backends = choose|backends: Seq<BackendView>| #[trigger]
            crate::manager::discovers(backends, registry@) && final(manager)@ == old(manager)@.regenerated(backends);
        lemma_regenerated(old(manager)@, backends, registry@);
    }
}

/// To start is to write the regenerated configuration and then start the process;
/// without a registry the process is just started.
pub proof fn law_start_writes_then_starts(
    manager: &mut FerronManager,
    registry: Option<&ServiceRegistry>,
    r: Result<Vec<ManagerAction>>,
)
    requires
        call_ensures(FerronManager::start, (manager, registry), r),
    ensures
        registry is None ==> {
            &&& r is Ok && r->Ok_0@.len() == 1 && r->Ok_0@[0] == ManagerAction::StartProcess
            &&& final(manager)@ == old(manager)@
        },
        registry matches Some(registry) ==> {
            &&& r is Err <==> old(manager)@.config is None && none_is_healthy(registry@)
            &&& r matches Ok(actions) ==> {
                &&& actions@.len() == 2
                &&& actions@[0] == ManagerAction::WriteConfig
                &&& actions@[1] == ManagerAction::StartProcess
                &&& is_regenerated(old(manager)@, final(manager)@, registry@)
                &&& final(manager)@.reload_count == old(manager)@.reload_count
            }
            &&& r matches Err(e) ==> {
                &&& e matches FerronError::Config(m) && m@ == "No base configuration set"@
                &&& final(manager)@ == old(manager)@
            }
        },
{
    match registry {
        Some(registry) => {
            lemma_none_is_healthy(registry@);
            if r is Ok {
                let backends = choose|backends: Seq<BackendView>| #[trigger]
                    crate::manager::discovers(backends, registry@) && final(manager)@ == old(manager)@.regenerated(backends);
                lemma_regenerated(old(manager)@, backends, registry@);
            }
        },
        None => {},
    }
}

/// Whether a count is one more, beginning again after the largest.
pub open spec fn one_more(before: u64, after: u64) -> bool {
    after == before + 1 || (before == u64::MAX && after == 0)
}

/// To reload is to write the regenerated configuration and then signal the
/// process; without a registry it is just signalled. It counts once.
pub proof fn law_reload_writes_then_signals(
    manager: &mut FerronManager,
    registry: Option<&ServiceRegistry>,
    r: Result<Vec<ManagerAction>>,
)
    requires
        call_ensures(FerronManager::reload, (manager, registry), r),
    ensures
        one_more(old(manager)@.reload_count, final(manager)@.reload_count),
        registry is None ==> {
            &&& r is Ok && r->Ok_0@.len() == 1 && r->Ok_0@[0] == ManagerAction::ReloadProcess
            &&& final(manager)@ == (ManagerView {
                reload_count: final(manager)@.reload_count,
                ..old(manager)@
            })
        },
        registry matches Some(registry) ==> {
            &&& r is Err <==> old(manager)@.config is None && none_is_healthy(registry@)
            &&& r matches Ok(actions) ==> {
                &&& actions@.len() == 2
                &&& actions@[0] == ManagerAction::WriteConfig
                &&& actions@[1] == ManagerAction::ReloadProcess
                &&& is_regenerated(old(manager)@, final(manager)@, registry@)
            }
            &&& r matches Err(e) ==> {
                &&& e matches FerronError::Config(m) && m@ == "No base configuration set"@
                &&& final(manager)@ == (ManagerView {
                    reload_count: final(manager)@.reload_count,
                    ..old(manager)@
                })
            }
        },
{
    match registry {
        Some(registry) => {
            lemma_none_is_healthy(registry@);
            if r is Ok {
                let backends = choose|backends: Seq<BackendView>| #[trigger]
                    crate::manager::discovers(backends, registry@) && final(manager)@ == old(manager)@.counted().regenerated(backends);
                lemma_regenerated(old(manager)@.counted(), backends, registry@);
            }
        },
        None => {},
    }
}

/// To signal a reload never writes the configuration and changes nothing but the
/// count.
pub proof fn law_signal_reload_only_signals(manager: &mut FerronManager, r: Vec<ManagerAction>)
    requires
        call_ensures(FerronManager::signal_reload, (manager,), r),
    ensures
        r@.len() == 1 && r@[0] == ManagerAction::ReloadProcess,
        one_more(old(manager)@.reload_count, final(manager)@.reload_count),
        final(manager)@ == (ManagerView { reload_count: final(manager)@.reload_count, ..old(manager)@
        }),
{
}

/// To stop ends the watcher first, if there is one, and then the process; to stop
/// watching ends just the watcher. Afterwards nothing is watched, and all else is
/// as it was. To restart is to restart the process.
pub proof fn law_stop_ends_the_watcher_first(
    manager: &mut FerronManager,
    still: FerronManager,
    r: Vec<ManagerAction>,
)
    ensures
        call_ensures(FerronManager::stop, (manager,), r) ==> {
            &&& r@.last() == ManagerAction::StopProcess
            &&& old(manager)@.watching ==> r@.len() == 2 && r@[0] == ManagerAction::AbortWatcher
            &&& !old(manager)@.watching ==> r@.len() == 1
            &&& final(manager)@ == (ManagerView { watching: false, ..old(manager)@ })
        },
        call_ensures(FerronManager::stop_watching, (manager,), r) ==> {
            &&& old(manager)@.watching ==> r@.len() == 1 && r@[0] == ManagerAction::AbortWatcher
            &&& !old(manager)@.watching ==> r@.len() == 0
            &&& final(manager)@ == (ManagerView { watching: false, ..old(manager)@ })
        },
        call_ensures(FerronManager::restart, (&still,), r) ==> r@.len() == 1 && r@[0]
            == ManagerAction::RestartProcess,
        call_ensures(FerronManager::watcher_started, (manager,), ()) ==> final(manager)@ == (
        ManagerView { watching: true, ..old(manager)@ }),
{
}

/// A configuration that was written is taken, with its load balancer as the one
/// to fall back to, and a process that runs is signalled, which counts. One that
/// could not be written is not taken, and the error is handed on.
pub proof fn law_update_takes_what_was_written(
    manager: &mut FerronManager,
    config: FerronConfig,
    written: Result<()>,
    status: ProcessStatus,
    r: Result<Vec<ManagerAction>>,
)
    requires
        call_ensures(FerronManager::update_config, (manager, config, written, status), r),
    ensures
        r is Ok <==> written is Ok,
        written matches Err(e) ==> r is Err && r->Err_0 == e && final(manager)@ == old(manager)@,
        r matches Ok(actions) ==> {
            &&& final(manager)@.config == Some(config@)
            &&& final(manager)@.given == config@.load_balancer
            &&& final(manager)@ == (ManagerView {
                config: final(manager)@.config,
                given: final(manager)@.given,
                reload_count: final(manager)@.reload_count,
                ..old(manager)@
            })
            &&& status == ProcessStatus::Running ==> {
                &&& actions@.len() == 1 && actions@[0] == ManagerAction::ReloadProcess
                &&& one_more(old(manager)@.reload_count, final(manager)@.reload_count)
            }
            &&& status != ProcessStatus::Running ==> {
                &&& actions@.len() == 0
                &&& final(manager)@.reload_count == old(manager)@.reload_count
            }
        },
{
}

/// What a change of the registry comes to, action by action: with auto reload and
/// a process that runs, the configuration is regenerated, written and reloaded,
/// which counts once; otherwise nothing at all happens.
pub open spec fn comes_of_a_change(
    before: ManagerView,
    after: ManagerView,
    registry: RegistryView,
    status: ProcessStatus,
    outcome: Result<Seq<ManagerAction>>,
) -> bool {
    &&& !before.auto_reload || status != ProcessStatus::Running ==> {
        &&& outcome is Ok && outcome->Ok_0.len() == 0
        &&& after == before
    }
    &&& before.auto_reload && status == ProcessStatus::Running ==> {
        &&& outcome is Err <==> before.config is None && none_is_healthy(registry)
        &&& outcome matches Ok(actions) ==> {
            &&& actions.len() == 2
            &&& actions[0] == ManagerAction::WriteConfig
            &&& actions[1] == ManagerAction::ReloadProcess
            &&& is_regenerated(before, after, registry)
            &&& one_more(before.reload_count, after.reload_count)
        }
        &&& outcome matches Err(e) ==> {
            &&& e matches FerronError::Config(m) && m@ == "No base configuration set"@
            &&& after == before
        }
    }
}

proof fn lemma_follows(
    before: ManagerView,
    after: ManagerView,
    registry: RegistryView,
    status: ProcessStatus,
    outcome: Result<Seq<ManagerAction>>,
)
    requires
        before.follows(after, registry, status, outcome),
    ensures
        comes_of_a_change(before, after, registry, status, outcome),
{
    lemma_none_is_healthy(registry);
    if before.auto_reload && status == ProcessStatus::Running && outcome is Ok {
        let backends = choose|backends: Seq<BackendView>| #[trigger]
            crate::manager::discovers(backends, registry) && after == before.counted().regenerated(
                backends,
            );
        lemma_regenerated(before.counted(), backends, registry);
    }
}

/// What a change of the registry comes to.
pub proof fn law_change_of_the_registry(
    manager: &mut FerronManager,
    registry: ServiceRegistry,
    status: ProcessStatus,
    r: Result<Vec<ManagerAction>>,
)
    requires
        call_ensures(FerronManager::backends_changed, (manager, &registry, status), r),
    ensures
        comes_of_a_change(
            old(manager)@,
            final(manager)@,
            registry@,
            status,
            match r {
                Ok(actions) => Ok(actions@),
                Err(e) => Err(e),
            },
        ),
{
    lemma_follows(old(manager)@, final(manager)@, registry@, status, crate::manager::planned(r));
}

/// To register a backend puts a new instance into the registry, under the
/// identifier that is returned, and what comes of that is planned; without
/// auto reload, or while the process does not run, nothing is. It fails only
/// where there is no registry.
pub proof fn law_register_backend(
    manager: &mut FerronManager,
    registry: Option<&mut ServiceRegistry>,
    service: &str,
    url: &str,
    status: ProcessStatus,
    r: Result<(String, Vec<ManagerAction>)>,
)
    requires
        call_ensures(FerronManager::register_backend, (manager, registry, service, url, status), r),
    ensures
        registry is None ==> {
            &&& r is Err && r->Err_0 is Registry && r->Err_0->Registry_0@
                == "Service registry not configured"@
            &&& final(manager)@ == old(manager)@
        },
        registry matches Some(registry) ==> {
            &&& r is Ok
            &&& ({
                let key = (service@, r->Ok_0.0@);
                let put = final(registry)@.instances[key];
                &&& final(registry)@.instances.contains_key(key)
                &&& put.id == r->Ok_0.0@ && put.service_name == service@ && put.url == url@
                &&& put.healthy && put.weight == 1
                &&& crate::registry::laws::all_but(registry@, final(registry)@, key)
            })
            &&& comes_of_a_change(
                old(manager)@,
                final(manager)@,
                final(registry)@,
                status,
                Ok(r->Ok_0.1@),
            )
        },
{
    match registry {
        Some(registry) => {
            let id = r->Ok_0.0@;
            let now = choose|now: Timestamp| #[trigger]
                crate::time::is_reading(now) && final(registry)@ == registry@.registered(
                    crate::registry::fresh_instance(id, service@, url@, now@),
                );
            assert(crate::time::is_reading(now));
            lemma_follows(
                old(manager)@,
                final(manager)@,
                final(registry)@,
                status,
                Ok(r->Ok_0.1@),
            );
        },
        None => {},
    }
}

/// To deregister a backend takes its instance out of the registry, and what comes
/// of that is planned. One that is not there is reported, and nothing changes.
pub proof fn law_deregister_backend(
    manager: &mut FerronManager,
    registry: Option<&mut ServiceRegistry>,
    service: &str,
    id: &str,
    status: ProcessStatus,
    r: Result<Vec<ManagerAction>>,
)
    requires
        call_ensures(FerronManager::deregister_backend, (manager, registry, service, id, status), r),
    ensures
        registry is None ==> {
            &&& r is Err && r->Err_0 is Registry && r->Err_0->Registry_0@
                == "Service registry not configured"@
            &&& final(manager)@ == old(manager)@
        },
        registry matches Some(registry) ==> {
            let key = (service@, id@);
            &&& registry@.instances.contains_key(key) ==> {
                &&& !final(registry)@.instances.contains_key(key)
                &&& crate::registry::laws::all_but(registry@, final(registry)@, key)
                &&& comes_of_a_change(
                    old(manager)@,
                    final(manager)@,
                    final(registry)@,
                    status,
                    match r {
                        Ok(actions) => Ok(actions@),
                        Err(e) => Err(e),
                    },
                )
            }
            &&& !registry@.instances.contains_key(key) ==> {
                &&& r is Err && r->Err_0 is ServiceNotFound && r->Err_0->ServiceNotFound_0@
                    == service@ + ":"@ + id@
                &&& final(registry)@ == registry@
                &&& final(manager)@ == old(manager)@
            }
        },
{
    match registry {
        Some(registry) => {
            if registry@.instances.contains_key((service@, id@)) {
                lemma_follows(
                    old(manager)@,
                    final(manager)@,
                    final(registry)@,
                    status,
                    crate::manager::planned(r),
                );
            }
        },
        None => {},
    }
}

/// Under supervision the URLs of all instances, healthy or not, are checked, one
/// for each, where health checks are configured and there is an instance.
pub proof fn law_supervision_checks_every_instance(
    manager: FerronManager,
    health_checks: bool,
    registry: Option<&ServiceRegistry>,
    r: Option<Vec<String>>,
)
    requires
        call_ensures(FerronManager::start_supervised, (&manager, health_checks, registry), r),
    ensures
        r is Some <==> health_checks && registry is Some && exists|key: InstanceKey| #[trigger]
            registry->0@.instances.contains_key(key),
        r matches Some(urls) ==> exists|order: Seq<InstanceKey>|
            #![trigger order.no_duplicates()]
            {
                &&& order.no_duplicates()
                &&& urls@.len() == order.len()
                &&& forall|i: int|
                    0 <= i < order.len() ==> registry->0@.instances.contains_key(
                        #[trigger] order[i],
                    ) && urls@[i]@ == registry->0@.instances[order[i]].url
                &&& forall|key: InstanceKey| #[trigger]
                    registry->0@.instances.contains_key(key) ==> order.contains(key)
            },
{
    if r is Some {
        let instances = registry->0@.instances;
        let urls = crate::text::texts(r->0@);
        let order = choose|order: Seq<InstanceKey>| #[trigger]
            crate::manager::walks_by_service(order, instances.dom()) && urls
                == crate::registry::urls_under(order, instances);
        crate::string_map::laws::law_walk_visits_each_key_once(order, instances.dom());
        assert(urls.len() == order.len() && urls.len() == r->0@.len());
        assert(instances.dom().contains(order[0]));
        assert(instances.contains_key(order[0]));
        assert(order.no_duplicates());
        assert forall|i: int| 0 <= i < order.len() implies instances.contains_key(
            #[trigger] order[i],
        ) && r->0@[i]@ == instances[order[i]].url by {
            assert(instances.dom().contains(order[i]));
            assert(urls[i] == r->0@[i]@);
        }
        assert forall|key: InstanceKey| #[trigger] instances.contains_key(key) implies order.contains(
            key,
        ) by {
            assert(instances.dom().contains(key));
        }
    } else if health_checks && registry is Some {
        assert forall|key: InstanceKey| !#[trigger] registry->0@.instances.contains_key(key) by {
            assert(!registry->0@.instances.dom().contains(key));
        }
    }
}

/// The getters of a manager tell what it is.
pub proof fn law_getters_tell_the_state(
    manager: FerronManager,
    path: &str,
    config: Option<&FerronConfig>,
    flag: bool,
    count: u64,
)
    ensures
        call_ensures(FerronManager::config_path, (&manager,), path) ==> path@
            == manager@.config_path,
        call_ensures(FerronManager::config, (&manager,), config) ==> {
            &&& config is Some <==> manager@.config is Some
            &&& config is Some ==> config->0@ == manager@.config->0
        },
        call_ensures(FerronManager::auto_reload, (&manager,), flag) ==> flag
            == manager@.auto_reload,
        call_ensures(FerronManager::is_watching, (&manager,), flag) ==> flag == manager@.watching,
        call_ensures(FerronManager::reload_count, (&manager,), count) ==> count
            == manager@.reload_count,
{
}

/// A builder begins with nothing set; each setting sets its own value and
/// nothing else.
pub proof fn law_builder_settings(
    b: FerronManagerBuilder,
    text: &str,
    config: FerronConfig,
    registry: ServiceRegistry,
    checks: HealthCheckConfig,
    flag: bool,
    r: FerronManagerBuilder,
)
    ensures
        call_ensures(FerronManager::builder, (), r) ==> {
            &&& r@.binary_path is None && r@.config_path is None && r@.config is None
            &&& r@.registry is None && r@.health_config is None && r@.working_dir is None
            &&& !r@.auto_reload && !r@.auto_restart
        },
        call_ensures(FerronManagerBuilder::binary_path, (b, text), r) ==> r@.binary_path == Some(
            text@,
        ) && r@ == (ManagerBuilderView { binary_path: r@.binary_path, ..b@ }),
        call_ensures(FerronManagerBuilder::config_path, (b, text), r) ==> r@.config_path == Some(
            text@,
        ) && r@ == (ManagerBuilderView { config_path: r@.config_path, ..b@ }),
        call_ensures(FerronManagerBuilder::working_dir, (b, text), r) ==> r@.working_dir == Some(
            text@,
        ) && r@ == (ManagerBuilderView { working_dir: r@.working_dir, ..b@ }),
        call_ensures(FerronManagerBuilder::config, (b, config), r) ==> r@.config == Some(config@)
            && r@ == (ManagerBuilderView { config: r@.config, ..b@ }),
        call_ensures(FerronManagerBuilder::service_registry, (b, registry), r) ==> r@.registry
            == Some(registry@) && r@ == (ManagerBuilderView { registry: r@.registry, ..b@ }),
        call_ensures(FerronManagerBuilder::health_check, (b, checks), r) ==> r@.health_config
            == Some(checks@) && r@ == (ManagerBuilderView { health_config: r@.health_config, ..b@ }),
        call_ensures(FerronManagerBuilder::auto_reload, (b, flag), r) ==> r@.auto_reload == flag
            && r@ == (ManagerBuilderView { auto_reload: r@.auto_reload, ..b@ }),
        call_ensures(FerronManagerBuilder::auto_restart, (b, flag), r) ==> r@.auto_restart == flag
            && r@ == (ManagerBuilderView { auto_restart: r@.auto_restart, ..b@ }),
{
}

/// What is built is what was set, and the defaults where nothing was: the paths
/// go to manager and process, the registry and the checks are handed on, a
/// configuration that was set is to be written, and with auto reload its file is
/// to be watched. Nothing runs, is watched or was counted yet.
pub proof fn law_built_is_what_was_set(b: FerronManagerBuilder, r: Result<ManagerParts>)
    requires
        call_ensures(FerronManagerBuilder::build, (b,), r),
    ensures
        r is Ok,
        ({
            let parts = r->Ok_0;
            let path = parts.manager@.config_path;
            let process = parts.process@;
            &&& b@.config_path is Some ==> path == b@.config_path->0
            &&& b@.config_path is None ==> path == "/etc/ferron/ferron.conf"@
            &&& parts.manager@.config == b@.config
            &&& b@.config is Some ==> parts.manager@.given == b@.config->0.load_balancer
            &&& b@.config is None ==> parts.manager@.given is None
            &&& parts.manager@.auto_reload == b@.auto_reload
            &&& !parts.manager@.watching && parts.manager@.reload_count == 0
            &&& process.config.config_path == path
            &&& b@.binary_path is Some ==> process.config.binary_path == b@.binary_path->0
            &&& b@.binary_path is None ==> process.config.binary_path == "ferron"@
            &&& process.config.working_dir == b@.working_dir
            &&& process.config.auto_restart == b@.auto_restart
            &&& process.config.max_restarts == 3 && process.config.restart_delay_ms == 1000
            &&& process.config.extra_args.len() == 0
            &&& process.config.pid_file == Some("/var/run/ferron.pid"@)
            &&& process.config.stdout_log is None && process.config.stderr_log is None
            &&& process.status == ProcessStatus::Stopped && process.pid is None && !process.child
            &&& process.restart_count == 0
            &&& parts.registry is Some <==> b@.registry is Some
            &&& parts.registry is Some ==> parts.registry->0@ == b@.registry->0
            &&& parts.health_state is Some <==> b@.health_config is Some
            &&& parts.health_state is Some ==> parts.health_state->0@.config == b@.health_config->0
                && forall|url: Seq<char>| !#[trigger]
                parts.health_state->0@.results.contains_key(url)
            &&& parts.write_config <==> b@.config is Some
            &&& parts.watch_config <==> b@.auto_reload
        }),
{
}

/// Whether a configuration is of one domain, with automatic certificates and
/// compression.
pub open spec fn is_site_of(config: FerronConfig, domain: Seq<char>) -> bool {
    &&& config.domains@.len() == 1 && config.domains@[0]@ == domain
    &&& config.tls is Some && config.tls->0.auto
    &&& config.gzip
}

proof fn lemma_one_domain(config: FerronConfig, domain: Seq<char>)
    requires
        config@.domains == seq![domain],
    ensures
        config.domains@.len() == 1 && config.domains@[0]@ == domain,
{
    assert(config@.domains.len() == config.domains@.len());
    assert(config@.domains[0] == config.domains@[0]@);
}

/// A reverse proxy passes its domain on to the one backend it was made for.
pub proof fn law_reverse_proxy_passes_on(domain: &str, url: &str, r: Result<FerronConfig>)
    requires
        call_ensures(crate::manager::helpers::reverse_proxy_config, (domain, url), r),
    ensures
        r matches Ok(config) && {
            &&& is_site_of(config, domain@)
            &&& config.backend is Some && config.backend->0.url@ == url@
            &&& config.backend->0.weight == 1
            &&& config.load_balancer is None
            &&& config.locations@.len() == 0
            &&& forall|name: Seq<char>| !#[trigger] config.headers@.contains_key(name)
        },
{
    let config = r->Ok_0;
    lemma_one_domain(config, domain@);
    assert(config@.locations.len() == config.locations@.len());
    assert(config@.headers == config.headers@);
    assert(config@.tls == config.tls && config@.gzip == config.gzip);
}

/// A load-balanced configuration has one backend for each URL that was given, in
/// their order, each of weight 1.
pub proof fn law_load_balancer_has_every_backend(
    domain: &str,
    backends: Vec<&str>,
    r: Result<FerronConfig>,
)
    requires
        call_ensures(crate::manager::helpers::load_balanced_config, (domain, backends), r),
    ensures
        r matches Ok(config) && {
            &&& is_site_of(config, domain@)
            &&& config.load_balancer is Some
            &&& config.load_balancer->0.strategy == LoadBalanceStrategy::RoundRobin
            &&& config.load_balancer->0.health_check_interval is None
            &&& config.load_balancer->0.backends@.len() == backends@.len()
            &&& forall|i: int|
                0 <= i < backends@.len() ==> (
                #[trigger] config.load_balancer->0.backends@[i]).url@ == backends@[i]@
                    && config.load_balancer->0.backends@[i].weight == 1
            &&& config.backend is None
            &&& config.locations@.len() == 0
            &&& forall|name: Seq<char>| !#[trigger] config.headers@.contains_key(name)
        },
{
    let config = r->Ok_0;
    lemma_one_domain(config, domain@);
    let lb = config.load_balancer->0;
    let urls = backends@.map_values(|url: &str| url@);
    assert(config@.load_balancer == Some(lb@));
    assert(lb@.backends.len() == lb.backends@.len());
    assert(lb@.backends == crate::manager::helpers::backends_at(urls));
    assert forall|i: int| 0 <= i < backends@.len() implies (#[trigger] lb.backends@[i]).url@
        == backends@[i]@ && lb.backends@[i].weight == 1 by {
        assert(lb@.backends[i] == lb.backends@[i]@);
        assert(urls[i] == backends@[i]@);
    }
    assert(config@.locations.len() == config.locations@.len());
    assert(config@.headers == config.headers@);
    assert(config@.tls == config.tls && config@.gzip == config.gzip);
}

/// The configuration of an application passes its domain on to its port on this
/// host, and each part of it to that part of the application. Only the API is
/// bounded. Browsers are told to be strict.
pub proof fn law_application_is_passed_on(domain: &str, port: u16, r: Result<FerronConfig>)
    requires
        call_ensures(crate::manager::helpers::armature_app_config, (domain, port), r),
    ensures
        r matches Ok(config) && {
            let host = "http://127.0.0.1:"@;
            let url = config.backend->0.url@;
            let locations = config.locations@;
            &&& is_site_of(config, domain@)
            &&& config.backend is Some && config.backend->0.weight == 1
            &&& url.len() > host.len() && url.take(host.len() as int) == host
            &&& crate::text::laws::number(url.skip(host.len() as int)) == port
            &&& config.load_balancer is None
            &&& locations.len() == 3
            &&& locations[0].path@ == "/api"@ && locations[1].path@ == "/ws"@ && locations[2].path@
                == "/health"@
            &&& forall|i: int|
                0 <= i < 3 ==> (#[trigger] locations[i]).proxy is Some && locations[i].proxy->0@
                    == url + locations[i].path@
            &&& locations[0].rate_limit is Some && locations[0].rate_limit->0.requests == 100
                && locations[0].rate_limit->0.burst == Some(200u32)
            &&& locations[1].rate_limit is None && locations[2].rate_limit is None
        },
        r matches Ok(config) && {
            let headers = config.headers@;
            &&& headers.contains_key("X-Frame-Options"@) && headers["X-Frame-Options"@] == "DENY"@
            &&& headers.contains_key("X-Content-Type-Options"@)
                && headers["X-Content-Type-Options"@] == "nosniff"@
            &&& headers.contains_key("X-XSS-Protection"@) && headers["X-XSS-Protection"@]
                == "1; mode=block"@
            &&& headers.contains_key("Referrer-Policy"@) && headers["Referrer-Policy"@]
                == "strict-origin-when-cross-origin"@
            &&& forall|name: Seq<char>| #[trigger]
                headers.contains_key(name) ==> name == "X-Frame-Options"@ || name
                    == "X-Content-Type-Options"@ || name == "X-XSS-Protection"@ || name
                    == "Referrer-Policy"@
        },
{
    let config = r->Ok_0;
    lemma_one_domain(config, domain@);
    assert(config@.tls == config.tls && config@.gzip == config.gzip);
    assert(config@.headers == config.headers@);
    assert(config@.backend == Some(config.backend->0@));
    let host = "http://127.0.0.1:"@;
    let digits = crate::text::decimal(port as nat);
    let url = config.backend->0.url@;
    crate::text::laws::law_decimal_is_unambiguous(port as nat, port as nat);
    assert(digits.len() > 0);
    assert(url =~= host + digits);
    assert(url.take(host.len() as int) =~= host);
    assert(url.skip(host.len() as int) =~= digits);
    let locations = config.locations@;
    assert(config@.locations.len() == locations.len());
    assert forall|i: int| 0 <= i < 3 implies (#[trigger] locations[i]).proxy is Some
        && locations[i].proxy->0@ == url + locations[i].path@ by {
        assert(config@.locations[i] == locations[i]@);
        assert(crate::text::opt_text(locations[i].proxy) == locations[i]@.proxy);
    }
    assert(config@.locations[0] == locations[0]@);
    assert(config@.locations[1] == locations[1]@);
    assert(config@.locations[2] == locations[2]@);
    reveal_strlit("X-Frame-Options");
    reveal_strlit("X-Content-Type-Options");
    reveal_strlit("X-XSS-Protection");
    reveal_strlit("Referrer-Policy");
    assert("X-Frame-Options"@.len() == 15);
    assert("X-Content-Type-Options"@.len() == 22);
    assert("X-XSS-Protection"@.len() == 16);
    assert("Referrer-Policy"@.len() == 15);
    assert("Referrer-Policy"@[0] != "X-Frame-Options"@[0]);
}

} // verus!
