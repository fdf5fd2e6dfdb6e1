//! What holds of every registry, whatever was registered before.

use crate::error::{FerronError, Result};
use crate::registry::{
    InstanceKey, RegistryStats, RegistryView, ServiceInstance, ServiceInstanceView, ServiceRegistry,
};
use crate::time::{TimeDelta, Timestamp};
use vstd::prelude::*;

verus! {

/// A registered instance is found under its service and identifier, its service
/// is listed, and every other instance stays as it was.
pub proof fn law_registered_instance_is_found(
    registry: RegistryView,
    instance: ServiceInstanceView,
    other: InstanceKey,
)
    ensures
        ({
            let key = (instance.service_name, instance.id);
            let after = registry.registered(instance);
            &&& after.instances.contains_key(key)
            &&& after.instances[key] == instance
            &&& after.of_service(instance.service_name).contains(key)
            &&& after.healthy_of_service(instance.service_name).contains(key) == instance.healthy
            &&& after.services() == registry.services().insert(instance.service_name)
            &&& other != key ==> {
                &&& after.instances.contains_key(other) == registry.instances.contains_key(other)
                &&& after.instances[other] == registry.instances[other]
            }
        }),
{
    let key = (instance.service_name, instance.id);
    let after = registry.registered(instance);
    assert(after.instances.contains_key((instance.service_name, instance.id)));
    assert forall|s: Seq<char>| after.services().contains(s) == registry.services().insert(
        instance.service_name,
    ).contains(s) by {
        if registry.services().contains(s) {
            let id = choose|id: Seq<char>| #[trigger] registry.instances.contains_key((s, id));
            assert(after.instances.contains_key((s, id)));
        }
        if after.services().contains(s) && s != instance.service_name {
            let id = choose|id: Seq<char>| #[trigger] after.instances.contains_key((s, id));
            assert(registry.instances.contains_key((s, id)));
        }
    }
    assert(after.services() =~= registry.services().insert(instance.service_name));
}

/// To deregister an instance undoes its registration, where nothing was
/// registered under its key before; listeners hear of both.
pub proof fn law_deregister_undoes_register(registry: RegistryView, instance: ServiceInstanceView)
    requires
        !registry.instances.contains_key((instance.service_name, instance.id)),
    ensures
        ({
            let key = (instance.service_name, instance.id);
            let after = registry.registered(instance).deregistered(key);
            &&& after.instances == registry.instances
            &&& after.changes == registry.changes.push(instance.service_name).push(
                instance.service_name,
            )
        }),
{
    let key = (instance.service_name, instance.id);
    assert(registry.registered(instance).deregistered(key).instances =~= registry.instances);
}

/// A deregistered instance is gone, and every other instance stays; its service
/// is still listed exactly when it has another instance.
pub proof fn law_deregistered_instance_is_gone(
    registry: RegistryView,
    key: InstanceKey,
    other: InstanceKey,
)
    requires
        registry.instances.contains_key(key),
    ensures
        ({
            let after = registry.deregistered(key);
            &&& !after.instances.contains_key(key)
            &&& other != key ==> {
                &&& after.instances.contains_key(other) == registry.instances.contains_key(other)
                &&& registry.instances.contains_key(other) ==> after.instances[other]
                    == registry.instances[other]
            }
            &&& after.services().contains(key.0) <==> exists|id: Seq<char>|
                id != key.1 && #[trigger] registry.instances.contains_key((key.0, id))
        }),
{
    let after = registry.deregistered(key);
    if after.services().contains(key.0) {
        let id = choose|id: Seq<char>| #[trigger] after.instances.contains_key((key.0, id));
        assert(id != key.1 && registry.instances.contains_key((key.0, id)));
    }
    if exists|id: Seq<char>|
        id != key.1 && #[trigger] registry.instances.contains_key((key.0, id)) {
        let id = choose|id: Seq<char>|
            id != key.1 && #[trigger] registry.instances.contains_key((key.0, id));
        assert(after.instances.contains_key((key.0, id)));
    }
}

/// An instance marked unhealthy is no longer among the healthy ones of its
/// service, and marking it healthy brings it back; its service still lists it
/// throughout, and the healthy instances of other services stay.
pub proof fn law_marking_moves_one_instance(
    registry: RegistryView,
    key: InstanceKey,
    healthy: bool,
    service: Seq<char>,
)
    requires
        registry.instances.contains_key(key),
    ensures
        ({
            let after = registry.marked(key, healthy);
            &&& after.of_service(service) == registry.of_service(service)
            &&& after.services() == registry.services()
            &&& after.healthy_of_service(key.0) == if healthy {
                registry.healthy_of_service(key.0).insert(key)
            } else {
                registry.healthy_of_service(key.0).remove(key)
            }
            &&& service != key.0 ==> after.healthy_of_service(service)
                == registry.healthy_of_service(service)
        }),
{
    let after = registry.marked(key, healthy);
    assert(after.instances.dom() =~= registry.instances.dom());
    assert(after.of_service(service) =~= registry.of_service(service));
    assert forall|s: Seq<char>| after.services().contains(s) == registry.services().contains(s) by {
        if registry.services().contains(s) {
            let id = choose|id: Seq<char>| #[trigger] registry.instances.contains_key((s, id));
            assert(after.instances.contains_key((s, id)));
        }
        if after.services().contains(s) {
            let id = choose|id: Seq<char>| #[trigger] after.instances.contains_key((s, id));
            assert(registry.instances.contains_key((s, id)));
        }
    }
    assert(after.services() =~= registry.services());
    assert(after.healthy_of_service(key.0) =~= if healthy {
        registry.healthy_of_service(key.0).insert(key)
    } else {
        registry.healthy_of_service(key.0).remove(key)
    });
    assert(service != key.0 ==> after.healthy_of_service(service) =~= registry.healthy_of_service(
        service,
    ));
}

/// To mark an instance back undoes a marking.
pub proof fn law_marking_back_restores(registry: RegistryView, key: InstanceKey, healthy: bool)
    requires
        registry.instances.contains_key(key),
        registry.instances[key].healthy == healthy,
    ensures
        registry.marked(key, !healthy).marked(key, healthy) == registry,
{
    assert(registry.marked(key, !healthy).marked(key, healthy) =~= registry);
}

/// The healthy instances of a service are instances of the service.
pub proof fn law_healthy_instances_are_instances(registry: RegistryView, service: Seq<char>)
    ensures
        registry.healthy_of_service(service).subset_of(registry.of_service(service)),
        registry.healthy_of_service(service) == registry.healthy().intersect(
            registry.of_service(service),
        ),
{
    assert(registry.healthy_of_service(service) =~= registry.healthy().intersect(
        registry.of_service(service),
    ));
}

/// A service is listed exactly when it has an instance.
pub proof fn law_listed_services_have_instances(registry: RegistryView, service: Seq<char>)
    ensures
        registry.services().contains(service) <==> registry.of_service(service) != Set::<
            InstanceKey,
        >::empty(),
{
    if registry.services().contains(service) {
        let id = choose|id: Seq<char>| #[trigger] registry.instances.contains_key((service, id));
        assert(registry.of_service(service).contains((service, id)));
    }
    if registry.of_service(service) != Set::<InstanceKey>::empty() {
        let key = registry.of_service(service).choose();
        assert(registry.of_service(service).contains(key)) by {
            if forall|k: InstanceKey| !registry.of_service(service).contains(k) {
                assert(registry.of_service(service) =~= Set::<InstanceKey>::empty());
            }
        }
        assert(registry.instances.contains_key((service, key.1)));
    }
}

/// There are no more services than instances, and no services exactly where
/// there are no instances.
pub proof fn law_services_are_at_most_instances(registry: RegistryView)
    requires
        registry.instances.dom().finite(),
    ensures
        registry.services().finite(),
        registry.services().len() <= registry.instances.len(),
        registry.services().len() == 0 <==> registry.instances.len() == 0,
{
    let name_of = |k: InstanceKey| k.0;
    let named = registry.instances.dom().map(name_of);
    assert forall|s: Seq<char>| registry.services().contains(s) == named.contains(s) by {
        if registry.services().contains(s) {
            let id = choose|id: Seq<char>| #[trigger] registry.instances.contains_key((s, id));
            assert(name_of((s, id)) == s);
        }
        if named.contains(s) {
            let k = choose|k: InstanceKey| registry.instances.dom().contains(k) && s == name_of(k);
            assert(registry.instances.contains_key((s, k.1)));
        }
    }
    assert(registry.services() =~= named);
    registry.instances.dom().lemma_map_finite(name_of);
    vstd::set_lib::lemma_map_size_bound(registry.instances.dom(), named, name_of);
    if registry.instances.len() != 0 {
        let k = registry.instances.dom().choose();
        assert(registry.instances.contains_key((k.0, k.1)));
        assert(registry.services().contains(k.0));
    }
}

/// An instance with a heartbeat is not stale before `max_age` has passed, so
/// that a removal of stale instances keeps it.
pub proof fn law_heartbeat_keeps_instance(
    registry: RegistryView,
    key: InstanceKey,
    heard_at: int,
    now: int,
    max_age: int,
)
    requires
        registry.instances.contains_key(key),
        now <= heard_at + max_age,
    ensures
        ({
            let after = registry.heard(key, heard_at);
            &&& !after.stale(now, max_age).contains(key)
            &&& after.without_stale(now, max_age).instances.contains_key(key)
            &&& after.without_stale(now, max_age).instances[key].healthy
                == registry.instances[key].healthy
        }),
{
}

/// A removal of stale instances takes out the stale ones, keeps all others as
/// they were, and leaves nothing for a second one at the same time.
pub proof fn law_stale_removal_is_exact(
    registry: RegistryView,
    now: int,
    max_age: int,
    key: InstanceKey,
)
    ensures
        ({
            let after = registry.without_stale(now, max_age);
            &&& after.instances.contains_key(key) <==> registry.instances.contains_key(key)
                && !registry.instances[key].stale_at(now, max_age)
            &&& after.instances.contains_key(key) ==> after.instances[key]
                == registry.instances[key]
            &&& after.stale(now, max_age) == Set::<InstanceKey>::empty()
            &&& after.without_stale(now, max_age) == after
        }),
{
    let after = registry.without_stale(now, max_age);
    assert(after.stale(now, max_age) =~= Set::<InstanceKey>::empty());
    assert(after.without_stale(now, max_age) =~= after);
}

/// What is stale stays stale as time passes, and is stale for every smaller
/// `max_age` too.
pub proof fn law_staleness_grows(
    registry: RegistryView,
    now: int,
    max_age: int,
    later: int,
    less: int,
)
    requires
        now <= later,
        less <= max_age,
    ensures
        registry.stale(now, max_age).subset_of(registry.stale(later, less)),
{
}

/// Listeners hear of every registration and deregistration, in their order, and
/// of nothing else.
pub proof fn law_listeners_hear_of_registrations(
    registry: RegistryView,
    instance: ServiceInstanceView,
    key: InstanceKey,
    healthy: bool,
    now: int,
    max_age: int,
)
    ensures
        registry.registered(instance).changes == registry.changes.push(instance.service_name),
        registry.deregistered(key).changes == registry.changes.push(key.0),
        registry.marked(key, healthy).changes == registry.changes,
        registry.heard(key, now).changes == registry.changes,
        registry.without_stale(now, max_age).changes == registry.changes,
{
}

/// An instance is stale exactly when more than `max_age` lies between its last
/// heartbeat and now: after a heartbeat nothing else matters.
pub proof fn law_stale_exactly_after_max_age(
    registry: RegistryView,
    key: InstanceKey,
    heard_at: int,
    now: int,
    max_age: int,
)
    requires
        registry.instances.contains_key(key),
    ensures
        registry.heard(key, heard_at).stale(now, max_age).contains(key) <==> now - heard_at
            > max_age,
        registry.stale(now, max_age).contains(key) <==> now - registry.instances[key].last_heartbeat
            > max_age,
{
}

/// Whether an instance is healthy has nothing to do with whether it is stale.
pub proof fn law_marking_does_not_change_what_is_stale(
    registry: RegistryView,
    key: InstanceKey,
    healthy: bool,
    now: int,
    max_age: int,
)
    requires
        registry.instances.contains_key(key),
    ensures
        registry.marked(key, healthy).stale(now, max_age) == registry.stale(now, max_age),
{
    assert(registry.marked(key, healthy).stale(now, max_age) =~= registry.stale(now, max_age));
}

/// Two instances with the same last heartbeat are stale at the same times,
/// whatever else they are.
pub proof fn law_only_the_heartbeat_matters(
    a: ServiceInstance,
    b: ServiceInstance,
    now: Timestamp,
    max_age: TimeDelta,
    stale_a: bool,
    stale_b: bool,
)
    requires
        call_ensures(ServiceInstance::is_stale_at, (&a, &now, &max_age), stale_a),
        call_ensures(ServiceInstance::is_stale_at, (&b, &now, &max_age), stale_b),
    ensures
        stale_a <==> now@ - a.last_heartbeat@ > max_age@,
        a.last_heartbeat@ == b.last_heartbeat@ ==> stale_a == stale_b,
{
}

/// Whether an instance is stale now is a matter of its heartbeat and a time that
/// the clock may show.
pub proof fn law_stale_now_goes_by_the_clock(i: ServiceInstance, max_age: TimeDelta, r: bool) -> (now:
    Timestamp)
    requires
        call_ensures(ServiceInstance::is_stale, (&i, &max_age), r),
    ensures
        call_ensures(Timestamp::now, (), now),
        r <==> now@ - i.last_heartbeat@ > max_age@,
{
    choose|now: Timestamp| #[trigger]
        crate::time::is_reading(now) && r == i@.stale_at(now@, max_age@)
}

/// A new instance has the values it was made with, is healthy, of weight 1 and
/// heard of when it was registered.
pub proof fn law_new_instance_has_its_values(
    id: String,
    service: &str,
    url: &str,
    at: Timestamp,
    r: ServiceInstance,
)
    requires
        call_ensures(ServiceInstance::with_id, (id, service, url, at), r) || call_ensures(
            ServiceInstance::new,
            (service, url),
            r,
        ),
    ensures
        call_ensures(ServiceInstance::with_id, (id, service, url, at), r) ==> r.id@ == id@
            && r.registered_at@ == at@,
        r.service_name@ == service@,
        r.url@ == url@,
        r.weight == 1,
        r.healthy,
        r.last_heartbeat@ == r.registered_at@,
        r.tags@.len() == 0,
        forall|k: Seq<char>| !#[trigger] r.metadata@.contains_key(k),
{
    assert(r@.tags.len() == r.tags@.len());
    assert(r@.id == r.id@ && r@.registered_at == r.registered_at@ && r@.last_heartbeat
        == r.last_heartbeat@);
    assert(r@.metadata == r.metadata@);
}

/// Each setting of an instance sets its own value and nothing else.
pub proof fn law_instance_settings_set_one_value(
    i: ServiceInstance,
    weight: u32,
    key: &str,
    value: &str,
    r: ServiceInstance,
    other: Seq<char>,
)
    ensures
        call_ensures(ServiceInstance::weight, (i, weight), r) ==> r.weight == weight && r@ == (
        ServiceInstanceView { weight: r@.weight, ..i@ }),
        call_ensures(ServiceInstance::metadata, (i, key, value), r) ==> {
            &&& r.metadata@.contains_key(key@) && r.metadata@[key@] == value@
            &&& other != key@ ==> (r.metadata@.contains_key(other) <==> i.metadata@.contains_key(
                other,
            ))
            &&& other != key@ && i.metadata@.contains_key(other) ==> r.metadata@[other]
                == i.metadata@[other]
            &&& r@ == (ServiceInstanceView { metadata: r@.metadata, ..i@ })
        },
        call_ensures(ServiceInstance::tag, (i, key), r) ==> {
            &&& r@.tags.len() == i@.tags.len() + 1
            &&& r@.tags.last() == key@
            &&& r@.tags.drop_last() == i@.tags
            &&& r@ == (ServiceInstanceView { tags: r@.tags, ..i@ })
        },
{
    if call_ensures(ServiceInstance::tag, (i, key), r) {
        assert(r@.tags.drop_last() =~= i@.tags);
    }
}

/// A heartbeat of an instance sets the time it was last heard of and nothing
/// else.
pub proof fn law_instance_heartbeat_sets_the_time(i: &mut ServiceInstance, now: Timestamp)
    requires
        call_ensures(ServiceInstance::heartbeat_at, (i, now), ()),
    ensures
        final(i).last_heartbeat@ == now@,
        final(i)@ == (ServiceInstanceView { last_heartbeat: final(i)@.last_heartbeat, ..old(i)@ }),
{
}

/// A heartbeat now sets a time that the clock may show.
pub proof fn law_instance_heartbeat_now(i: &mut ServiceInstance)
    requires
        call_ensures(ServiceInstance::heartbeat, (i,), ()),
    ensures
        exists|now: Timestamp|
            #![trigger crate::time::is_reading(now)]
            call_ensures(Timestamp::now, (), now) && final(i).last_heartbeat@ == now@,
        final(i)@ == (ServiceInstanceView { last_heartbeat: final(i)@.last_heartbeat, ..old(i)@ }),
{
    let now = choose|now: Timestamp| #[trigger]
        crate::time::is_reading(now) && final(i)@.last_heartbeat == now@;
    assert(crate::time::is_reading(now));
}

/// Whether all but one instance are as they were.
pub open spec fn all_but(before: RegistryView, after: RegistryView, key: InstanceKey) -> bool {
    forall|other: InstanceKey|
        #![trigger after.instances.contains_key(other)]
        other != key ==> {
            &&& after.instances.contains_key(other) <==> before.instances.contains_key(other)
            &&& before.instances.contains_key(other) ==> after.instances[other]
                == before.instances[other]
        }
}

/// To register an instance puts it under its service and identifier, returns the
/// identifier, leaves all other instances alone and tells of its service.
pub proof fn law_register_instance_puts_one(
    registry: &mut ServiceRegistry,
    instance: ServiceInstance,
    r: Result<String>,
)
    requires
        call_ensures(ServiceRegistry::register_instance, (registry, instance), r),
    ensures
        r matches Ok(id) && id@ == instance.id@,
        ({
            let key = (instance.service_name@, instance.id@);
            &&& final(registry)@.instances.contains_key(key)
            &&& final(registry)@.instances[key] == instance@
            &&& all_but(old(registry)@, final(registry)@, key)
        }),
        final(registry)@.changes.len() == old(registry)@.changes.len() + 1,
        final(registry)@.changes.last() == instance.service_name@,
        final(registry)@.changes.drop_last() == old(registry)@.changes,
{
    assert(final(registry)@.changes.drop_last() =~= old(registry)@.changes);
}

/// To register a service puts a new instance under the identifier that is
/// returned: at the URL, healthy and of weight 1. All others stay.
pub proof fn law_register_puts_a_new_instance(
    registry: &mut ServiceRegistry,
    service: &str,
    url: &str,
    r: Result<String>,
)
    requires
        call_ensures(ServiceRegistry::register, (registry, service, url), r),
    ensures
        r matches Ok(id) && {
            let key = (service@, id@);
            let put = final(registry)@.instances[key];
            &&& id@.len() == 36
            &&& final(registry)@.instances.contains_key(key)
            &&& put.id == id@ && put.service_name == service@ && put.url == url@
            &&& put.weight == 1 && put.healthy && put.last_heartbeat == put.registered_at
            &&& put.tags.len() == 0
            &&& all_but(old(registry)@, final(registry)@, key)
        },
        final(registry)@.changes.len() == old(registry)@.changes.len() + 1,
        final(registry)@.changes.last() == service@,
        final(registry)@.changes.drop_last() == old(registry)@.changes,
{
    let id = r->Ok_0;
    let now = choose|now: Timestamp| #[trigger]
        crate::time::is_reading(now) && final(registry)@ == old(registry)@.registered(
            crate::registry::fresh_instance(id@, service@, url@, now@),
        );
    assert(crate::time::is_reading(now));
    assert(final(registry)@.changes.drop_last() =~= old(registry)@.changes);
}

/// To deregister an instance takes it out and leaves all others alone; one that
/// is not there is reported by service and identifier, and nothing changes.
pub proof fn law_deregister_takes_one(
    registry: &mut ServiceRegistry,
    service: &str,
    id: &str,
    r: Result<()>,
)
    requires
        call_ensures(ServiceRegistry::deregister, (registry, service, id), r),
    ensures
        r is Ok <==> old(registry)@.instances.contains_key((service@, id@)),
        r is Ok ==> {
            &&& !final(registry)@.instances.contains_key((service@, id@))
            &&& all_but(old(registry)@, final(registry)@, (service@, id@))
            &&& final(registry)@.changes == old(registry)@.changes.push(service@)
        },
        r matches Err(e) ==> {
            &&& e matches FerronError::ServiceNotFound(m)
            &&& m@ == service@ + ":"@ + id@
            &&& final(registry)@ == old(registry)@
        },
{
}

/// A heartbeat sets the time that one instance was last heard of, and nothing
/// else; one that is not there is reported.
pub proof fn law_heartbeat_touches_one_time(
    registry: &mut ServiceRegistry,
    service: &str,
    id: &str,
    now: Timestamp,
    r: Result<()>,
)
    requires
        call_ensures(ServiceRegistry::heartbeat_at, (registry, service, id, now), r),
    ensures
        r is Ok <==> old(registry)@.instances.contains_key((service@, id@)),
        r is Ok ==> {
            let key = (service@, id@);
            let was = old(registry)@.instances[key];
            let is = final(registry)@.instances[key];
            &&& final(registry)@.instances.contains_key(key)
            &&& is.last_heartbeat == now@
            &&& is == (ServiceInstanceView { last_heartbeat: is.last_heartbeat, ..was })
            &&& all_but(old(registry)@, final(registry)@, key)
            &&& final(registry)@.changes == old(registry)@.changes
        },
        r matches Err(e) ==> {
            &&& e matches FerronError::ServiceNotFound(m)
            &&& m@ == service@ + ":"@ + id@
            &&& final(registry)@ == old(registry)@
        },
{
}

/// A heartbeat now sets a time that the clock may show.
pub proof fn law_heartbeat_now_touches_one_time(
    registry: &mut ServiceRegistry,
    service: &str,
    id: &str,
    r: Result<()>,
)
    requires
        call_ensures(ServiceRegistry::heartbeat, (registry, service, id), r),
    ensures
        r is Ok <==> old(registry)@.instances.contains_key((service@, id@)),
        r is Ok ==> {
            let key = (service@, id@);
            let was = old(registry)@.instances[key];
            let is = final(registry)@.instances[key];
            &&& final(registry)@.instances.contains_key(key)
            &&& exists|now: Timestamp|
                #![trigger crate::time::is_reading(now)]
                call_ensures(Timestamp::now, (), now) && is.last_heartbeat == now@
            &&& is == (ServiceInstanceView { last_heartbeat: is.last_heartbeat, ..was })
            &&& all_but(old(registry)@, final(registry)@, key)
            &&& final(registry)@.changes == old(registry)@.changes
        },
        r matches Err(e) ==> {
            &&& e matches FerronError::ServiceNotFound(m)
            &&& m@ == service@ + ":"@ + id@
            &&& final(registry)@ == old(registry)@
        },
{
    if r is Ok {
        let now = choose|now: Timestamp| #[trigger]
            crate::time::is_reading(now) && final(registry)@ == old(registry)@.heard(
                (service@, id@),
                now@,
            );
        assert(crate::time::is_reading(now));
    }
}

/// To mark an instance sets whether it is healthy, and nothing else; one that is
/// not there is reported.
pub proof fn law_marking_touches_one_flag(
    registry: &mut ServiceRegistry,
    service: &str,
    id: &str,
    healthy: bool,
    r: Result<()>,
)
    requires
        if healthy {
            call_ensures(ServiceRegistry::mark_healthy, (registry, service, id), r)
        } else {
            call_ensures(ServiceRegistry::mark_unhealthy, (registry, service, id), r)
        },
    ensures
        r is Ok <==> old(registry)@.instances.contains_key((service@, id@)),
        r is Ok ==> {
            let key = (service@, id@);
            let was = old(registry)@.instances[key];
            let is = final(registry)@.instances[key];
            &&& final(registry)@.instances.contains_key(key)
            &&& is.healthy == healthy
            &&& is == (ServiceInstanceView { healthy: is.healthy, ..was })
            &&& all_but(old(registry)@, final(registry)@, key)
            &&& final(registry)@.changes == old(registry)@.changes
        },
        r matches Err(e) ==> {
            &&& e matches FerronError::ServiceNotFound(m)
            &&& m@ == service@ + ":"@ + id@
            &&& final(registry)@ == old(registry)@
        },
{
}

/// Whether `order` names the instances of a service, or the healthy ones, and
/// each once.
pub open spec fn names_instances(
    order: Seq<InstanceKey>,
    registry: RegistryView,
    service: Seq<char>,
    only_healthy: bool,
) -> bool {
    &&& order.no_duplicates()
    &&& forall|i: int|
        0 <= i < order.len() ==> {
            let key = #[trigger] order[i];
            &&& registry.instances.contains_key(key)
            &&& key.0 == service
            &&& only_healthy ==> registry.instances[key].healthy
        }
    &&& forall|key: InstanceKey| #[trigger]
        registry.instances.contains_key(key) && key.0 == service && (only_healthy
            ==> registry.instances[key].healthy) ==> order.contains(key)
}

proof fn lemma_names_instances(
    order: Seq<InstanceKey>,
    registry: RegistryView,
    service: Seq<char>,
    only_healthy: bool,
)
    requires
        crate::string_map::is_walk(
            order,
            if only_healthy {
                registry.healthy_of_service(service)
            } else {
                registry.of_service(service)
            },
        ),
    ensures
        names_instances(order, registry, service, only_healthy),
{
    let keys = if only_healthy {
        registry.healthy_of_service(service)
    } else {
        registry.of_service(service)
    };
    crate::string_map::laws::law_walk_visits_each_key_once(order, keys);
    assert forall|key: InstanceKey| #[trigger]
        registry.instances.contains_key(key) && key.0 == service && (only_healthy
            ==> registry.instances[key].healthy) implies order.contains(key) by {
        assert(keys.contains(key));
    }
}

/// The instances that are listed of a service are its instances, or its healthy
/// ones, as they are registered, and each once.
pub proof fn law_listed_instances_are_those_of_the_service(
    registry: ServiceRegistry,
    service: &str,
    only_healthy: bool,
    r: Vec<ServiceInstance>,
) -> (order: Seq<InstanceKey>)
    requires
        if only_healthy {
            call_ensures(ServiceRegistry::get_healthy_instances, (&registry, service), r)
        } else {
            call_ensures(ServiceRegistry::get_instances, (&registry, service), r)
        },
    ensures
        names_instances(order, registry@, service@, only_healthy),
        r@.len() == order.len(),
        forall|i: int|
            0 <= i < order.len() ==> (#[trigger] r@[i])@ == registry@.instances[order[i]],
{
    let keys = if only_healthy {
        registry@.healthy_of_service(service@)
    } else {
        registry@.of_service(service@)
    };
    let views = r@.map_values(|i: ServiceInstance| i@);
    assert(crate::registry::lists_instances(views, keys, registry@.instances));
    let order = choose|order: Seq<InstanceKey>|
        {
            &&& #[trigger] crate::string_map::is_walk(order, keys)
            &&& views == crate::registry::instances_under(order, registry@.instances)
        };
    lemma_names_instances(order, registry@, service@, only_healthy);
    assert(views.len() == order.len());
    assert forall|i: int| 0 <= i < order.len() implies (#[trigger] r@[i])@
        == registry@.instances[order[i]] by {
        assert(views[i] == r@[i]@);
    }
    order
}

/// The URLs that are listed of a service are those of its instances, or of its
/// healthy ones, one for each.
pub proof fn law_listed_urls_are_those_of_the_service(
    registry: ServiceRegistry,
    service: &str,
    only_healthy: bool,
    r: Vec<String>,
) -> (order: Seq<InstanceKey>)
    requires
        if only_healthy {
            call_ensures(ServiceRegistry::get_healthy_urls, (&registry, service), r)
        } else {
            call_ensures(ServiceRegistry::get_urls, (&registry, service), r)
        },
    ensures
        names_instances(order, registry@, service@, only_healthy),
        r@.len() == order.len(),
        forall|i: int|
            0 <= i < order.len() ==> (#[trigger] r@[i])@ == registry@.instances[order[i]].url,
{
    let keys = if only_healthy {
        registry@.healthy_of_service(service@)
    } else {
        registry@.of_service(service@)
    };
    let texts = crate::text::texts(r@);
    assert(crate::registry::lists_urls(texts, keys, registry@.instances));
    let order = choose|order: Seq<InstanceKey>|
        {
            &&& #[trigger] crate::string_map::is_walk(order, keys)
            &&& texts == crate::registry::urls_under(order, registry@.instances)
        };
    lemma_names_instances(order, registry@, service@, only_healthy);
    assert(texts.len() == order.len());
    assert forall|i: int| 0 <= i < order.len() implies (#[trigger] r@[i])@
        == registry@.instances[order[i]].url by {
        assert(texts[i] == r@[i]@);
    }
    order
}

/// The services that are listed are those with an instance, each once.
pub proof fn law_listed_services_are_those_with_instances(
    registry: ServiceRegistry,
    r: Vec<String>,
    service: Seq<char>,
)
    requires
        call_ensures(ServiceRegistry::get_services, (&registry,), r),
    ensures
        (exists|i: int| 0 <= i < r@.len() && (#[trigger] r@[i])@ == service) <==> exists|
            id: Seq<char>,
        | #[trigger] registry@.instances.contains_key((service, id)),
        forall|i: int, j: int|
            0 <= i < j < r@.len() ==> (#[trigger] r@[i])@ != (#[trigger] r@[j])@,
{
    let texts = crate::text::texts(r@);
    crate::string_map::laws::law_walk_visits_each_key_once(texts, registry@.services());
    assert forall|i: int, j: int| 0 <= i < j < r@.len() implies (#[trigger] r@[i])@ != (
    #[trigger] r@[j])@ by {
        assert(texts[i] != texts[j]);
    }
    if exists|i: int| 0 <= i < r@.len() && (#[trigger] r@[i])@ == service {
        let i = choose|i: int| 0 <= i < r@.len() && (#[trigger] r@[i])@ == service;
        assert(registry@.services().contains(texts[i]));
    }
    if exists|id: Seq<char>| #[trigger] registry@.instances.contains_key((service, id)) {
        assert(registry@.services().contains(service));
        assert(texts.contains(service));
        let i = choose|i: int| 0 <= i < texts.len() && texts[i] == service;
        assert(r@[i]@ == service);
    }
}

/// A removal of stale instances takes out exactly those that were last heard of
/// longer ago than `max_age`, healthy or not, names each of them once, keeps
/// all others as they were and tells nobody.
pub proof fn law_removal_goes_by_the_heartbeat(
    registry: &mut ServiceRegistry,
    now: Timestamp,
    max_age: TimeDelta,
    r: Vec<(String, String)>,
    key: InstanceKey,
)
    requires
        call_ensures(ServiceRegistry::remove_stale_at, (registry, &now, &max_age), r),
    ensures
        ({
            let before = old(registry)@.instances;
            let after = final(registry)@.instances;
            let stale = before.contains_key(key) && now@ - before[key].last_heartbeat > max_age@;
            &&& after.contains_key(key) <==> before.contains_key(key) && !stale
            &&& after.contains_key(key) ==> after[key] == before[key]
            &&& (exists|i: int|
                0 <= i < r@.len() && (#[trigger] r@[i]).0@ == key.0 && r@[i].1@ == key.1) <==> stale
        }),
        forall|i: int, j: int|
            0 <= i < j < r@.len() ==> (#[trigger] r@[i]).0@ != (#[trigger] r@[j]).0@ || r@[i].1@
                != r@[j].1@,
        final(registry)@.changes == old(registry)@.changes,
{
    let keys = crate::registry::key_texts(r@);
    let stale = old(registry)@.stale(now@, max_age@);
    crate::string_map::laws::law_walk_visits_each_key_once(keys, stale);
    assert forall|i: int, j: int| 0 <= i < j < r@.len() implies (#[trigger] r@[i]).0@ != (
    #[trigger] r@[j]).0@ || r@[i].1@ != r@[j].1@ by {
        assert(keys[i] != keys[j]);
    }
    if exists|i: int| 0 <= i < r@.len() && (#[trigger] r@[i]).0@ == key.0 && r@[i].1@ == key.1 {
        let i = choose|i: int|
            0 <= i < r@.len() && (#[trigger] r@[i]).0@ == key.0 && r@[i].1@ == key.1;
        assert(keys[i] == key);
        assert(stale.contains(keys[i]));
    }
    if stale.contains(key) {
        assert(keys.contains(key));
        let i = choose|i: int| 0 <= i < keys.len() && keys[i] == key;
        assert(r@[i].0@ == key.0 && r@[i].1@ == key.1);
    }
}

/// A removal now goes by one time that the clock may show.
pub proof fn law_removal_now_goes_by_the_clock(
    registry: &mut ServiceRegistry,
    max_age: TimeDelta,
    r: Vec<(String, String)>,
)
    requires
        call_ensures(ServiceRegistry::remove_stale, (registry, &max_age), r),
    ensures
        exists|now: Timestamp|
            #![trigger crate::time::is_reading(now)]
            call_ensures(Timestamp::now, (), now) && forall|key: InstanceKey|
                #![trigger final(registry)@.instances.contains_key(key)]
                {
                    &&& final(registry)@.instances.contains_key(key) <==> old(registry)@.instances.contains_key(key) && now@ - old(registry)@.instances[key].last_heartbeat <= max_age@
                    &&& final(registry)@.instances.contains_key(key) ==> final(registry)@.instances[key] == old(registry)@.instances[key]
                },
        final(registry)@.changes == old(registry)@.changes,
{
    let now = choose|now: Timestamp| #[trigger]
        crate::time::is_reading(now) && final(registry)@ == old(registry)@.without_stale(
            now@,
            max_age@,
        );
    assert(crate::time::is_reading(now));
}

/// The statistics count the instances, the healthy and the unhealthy among them,
/// and the services that have any.
pub proof fn law_statistics_count(registry: ServiceRegistry, r: RegistryStats)
    requires
        call_ensures(ServiceRegistry::stats, (&registry,), r),
    ensures
        ({
            let instances = registry@.instances;
            &&& r.total_instances == instances.dom().len()
            &&& r.healthy_instances == instances.dom().filter(
                |k: InstanceKey| instances[k].healthy,
            ).len()
            &&& r.healthy_instances + r.unhealthy_instances == r.total_instances
            &&& r.service_count <= r.total_instances
            &&& r.service_count == 0 <==> r.total_instances == 0
            &&& r.service_count == instances.dom().map(|k: InstanceKey| k.0).len()
        }),
{
    let instances = registry@.instances;
    law_services_are_at_most_instances(registry@);
    assert(registry@.healthy() =~= instances.dom().filter(|k: InstanceKey| instances[k].healthy));
    let name_of = |k: InstanceKey| k.0;
    let named = instances.dom().map(name_of);
    assert forall|s: Seq<char>| registry@.services().contains(s) == named.contains(s) by {
        if registry@.services().contains(s) {
            let id = choose|id: Seq<char>| #[trigger] instances.contains_key((s, id));
            assert(name_of((s, id)) == s);
        }
        if named.contains(s) {
            let k = choose|k: InstanceKey| instances.dom().contains(k) && s == name_of(k);
            assert(instances.contains_key((s, k.1)));
        }
    }
    assert(registry@.services() =~= named);
}

/// What is to be told is handed out once, oldest first, and nothing else
/// changes; a new registry has nothing to tell and no instances.
pub proof fn law_changes_are_handed_out_once(
    registry: &mut ServiceRegistry,
    r: Vec<String>,
    fresh: ServiceRegistry,
    key: InstanceKey,
)
    ensures
        call_ensures(ServiceRegistry::take_changes, (registry,), r) ==> {
            &&& r@.len() == old(registry)@.changes.len()
            &&& forall|i: int|
                0 <= i < r@.len() ==> (#[trigger] r@[i])@ == old(registry)@.changes[i]
            &&& final(registry)@.changes.len() == 0
            &&& final(registry)@.instances == old(registry)@.instances
        },
        call_ensures(ServiceRegistry::new, (), fresh) ==> {
            &&& !fresh@.instances.contains_key(key)
            &&& fresh@.changes.len() == 0
        },
{
    if call_ensures(ServiceRegistry::take_changes, (registry,), r) {
        let texts = crate::text::texts(r@);
        assert(texts.len() == r@.len());
        assert forall|i: int| 0 <= i < r@.len() implies (#[trigger] r@[i])@ == old(registry)@.changes[i] by {
            assert(texts[i] == r@[i]@);
        }
    }
}

/// A new identifier is written as 36 characters: hyphens that part it 8-4-4-4-12,
/// lower case hexadecimal digits elsewhere, of which two tell that it is random.
pub proof fn law_new_identifier_is_a_random_uuid(service: &str, url: &str, r: ServiceInstance)
    requires
        call_ensures(ServiceInstance::new, (service, url), r),
    ensures
        r.id@.len() == 36,
        forall|i: int|
            0 <= i < 36 ==> {
                let n = #[trigger] r.id@[i] as int;
                if i == 8 || i == 13 || i == 18 || i == 23 {
                    n == 45
                } else {
                    48 <= n <= 57 || 97 <= n <= 102
                }
            },
        r.id@[14] as int == 52,
        r.id@[19] as int == 56 || r.id@[19] as int == 57 || r.id@[19] as int == 97 || r.id@[19] as int
            == 98,
{
    assert(crate::registry::is_random_uuid(r.id@)) by {
        assert(r@.id == r.id@);
    }
}

/// The values of an instance are those of its fields, and a copy has them too.
pub proof fn law_values_are_those_of_the_fields(i: ServiceInstance, copy: ServiceInstance)
    ensures
        i@.id == i.id@ && i@.service_name == i.service_name@ && i@.url == i.url@,
        i@.weight == i.weight && i@.healthy == i.healthy && i@.metadata == i.metadata@,
        i@.registered_at == i.registered_at@ && i@.last_heartbeat == i.last_heartbeat@,
        i@.tags.len() == i.tags@.len(),
        forall|j: int| 0 <= j < i.tags@.len() ==> #[trigger] i@.tags[j] == i.tags@[j]@,
        call_ensures(<ServiceInstance as Clone>::clone, (&i,), copy) ==> copy@ == i@,
{
}

} // verus!
