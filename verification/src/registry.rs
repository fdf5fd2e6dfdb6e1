//! Registry of the service instances that can be discovered as backends.

use crate::error::{FerronError, Result};
use crate::string_map::StringMap;
use crate::text::{clone_list, holds_text, joined, same_text};
use crate::time::{TimeDelta, Timestamp};
use vstd::prelude::*;

pub mod laws;

verus! {

/// A registered service instance.
#[derive(Debug)]
pub struct ServiceInstance {
    /// Unique instance ID
    pub id: String,
    /// Service name
    pub service_name: String,
    /// Instance URL (e.g., "http://localhost:3000")
    pub url: String,
    /// Instance weight for load balancing
    pub weight: u32,
    /// Metadata for the instance
    pub metadata: StringMap<String>,
    /// Registration timestamp
    pub registered_at: Timestamp,
    /// Last heartbeat timestamp
    pub last_heartbeat: Timestamp,
    /// Whether the instance is healthy
    pub healthy: bool,
    /// Tags for filtering
    pub tags: Vec<String>,
}

/// The values of a [`ServiceInstance`]; times in nanoseconds since the epoch.
#[verifier::ext_equal]
pub struct ServiceInstanceView {
    pub id: Seq<char>,
    pub service_name: Seq<char>,
    pub url: Seq<char>,
    pub weight: u32,
    pub metadata: Map<Seq<char>, Seq<char>>,
    pub registered_at: int,
    pub last_heartbeat: int,
    pub healthy: bool,
    pub tags: Seq<Seq<char>>,
}

impl View for ServiceInstance {
    type V = ServiceInstanceView;

    open spec fn view(&self) -> ServiceInstanceView {
        ServiceInstanceView {
            id: self.id@,
            service_name: self.service_name@,
            url: self.url@,
            weight: self.weight,
            metadata: self.metadata@,
            registered_at: self.registered_at@,
            last_heartbeat: self.last_heartbeat@,
            healthy: self.healthy,
            tags: crate::text::texts(self.tags@),
        }
    }
}

impl Clone for ServiceInstance {
    fn clone(&self) -> (r: Self)
        ensures
            r@ == self@,
    {
        ServiceInstance {
            id: self.id.clone(),
            service_name: self.service_name.clone(),
            url: self.url.clone(),
            weight: self.weight,
            metadata: self.metadata.clone(),
            registered_at: self.registered_at,
            last_heartbeat: self.last_heartbeat,
            healthy: self.healthy,
            tags: clone_list(&self.tags),
        }
    }
}

/// A lower case hexadecimal digit.
pub open spec fn is_lower_hex(c: char) -> bool {
    '0' <= c <= '9' || 'a' <= c <= 'f'
}

/// The hyphenated notation of a random (version 4) UUID: 36 characters, with
/// hyphens that part them 8-4-4-4-12, the version digit 4 and a variant digit
/// of 8, 9, a or b.
pub open spec fn is_random_uuid(s: Seq<char>) -> bool {
    &&& s.len() == 36
    &&& s[8] == '-' && s[13] == '-' && s[18] == '-' && s[23] == '-'
    &&& forall|i: int|
        0 <= i < 36 && i != 8 && i != 13 && i != 18 && i != 23 ==> is_lower_hex(#[trigger] s[i])
    &&& s[14] == '4'
    &&& s[19] == '8' || s[19] == '9' || s[19] == 'a' || s[19] == 'b'
}

/// `uuid::Uuid::new_v4`, written out by its `Display`. Which identifier comes
/// is up to chance: claimed is the notation, not that it never came before. The
/// call panics on a system without a source of randomness.
#[verifier::external_body]
fn random_id() -> (r: String)
    ensures
        is_random_uuid(r@),
{
    uuid::Uuid::new_v4().to_string()
}

/// An instance as it is when it is created: healthy, of weight 1, without
/// metadata and tags.
pub open spec fn fresh_instance(
    id: Seq<char>,
    service_name: Seq<char>,
    url: Seq<char>,
    at: int,
) -> ServiceInstanceView {
    ServiceInstanceView {
        id,
        service_name,
        url,
        weight: 1,
        metadata: Map::empty(),
        registered_at: at,
        last_heartbeat: at,
        healthy: true,
        tags: Seq::empty(),
    }
}

impl ServiceInstanceView {
    /// Whether the last heartbeat lies further back than `max_age`.
    pub open spec fn stale_at(self, now: int, max_age: int) -> bool {
        now - self.last_heartbeat > max_age
    }
}

impl ServiceInstance {
    /// Creates an instance with the given identifier and time.
    pub fn with_id(id: String, service_name: &str, url: &str, at: Timestamp) -> (r: Self)
        ensures
            r@ == fresh_instance(id@, service_name@, url@, at@),
    {
        let tags: Vec<String> = Vec::new();
        proof {
            assert(crate::text::texts(tags@) =~= Seq::<Seq<char>>::empty());
        }
        ServiceInstance {
            id,
            service_name: service_name.to_owned(),
            url: url.to_owned(),
            weight: 1,
            metadata: StringMap::new(),
            registered_at: at,
            last_heartbeat: at,
            healthy: true,
            tags,
        }
    }

    /// Creates an instance with a random identifier, registered now.
    pub fn new(service_name: &str, url: &str) -> (r: Self)
        ensures
            is_random_uuid(r@.id),
            exists|now: Timestamp| #[trigger]
                crate::time::is_reading(now) && r@ == fresh_instance(
                    r@.id,
                    service_name@,
                    url@,
                    now@,
                ),
    {
        let now = Timestamp::now();
        proof {
            assert(crate::time::is_reading(now));
        }
        ServiceInstance::with_id(random_id(), service_name, url, now)
    }

    /// Sets the weight.
    pub fn weight(self, weight: u32) -> (r: Self)
        ensures
            r@ == (ServiceInstanceView { weight, ..self@ }),
    {
        ServiceInstance { weight, ..self }
    }

    /// Adds metadata, in place of what the key had.
    pub fn metadata(self, key: &str, value: &str) -> (r: Self)
        ensures
            r@ == (ServiceInstanceView {
                metadata: self@.metadata.insert(key@, value@),
                ..self@
            }),
    {
        let mut metadata = self.metadata;
        metadata.insert(key.to_owned(), value.to_owned());
        ServiceInstance { metadata, ..self }
    }

    /// Adds a tag.
    pub fn tag(self, tag: &str) -> (r: Self)
        ensures
            r@ == (ServiceInstanceView { tags: self@.tags.push(tag@), ..self@ }),
    {
        let ghost before = self.tags@;
        let mut tags = self.tags;
        tags.push(tag.to_owned());
        proof {
            assert(crate::text::texts(tags@) =~= crate::text::texts(before).push(tag@));
        }
        ServiceInstance { tags, ..self }
    }

    /// Sets the heartbeat to the given time.
    pub fn heartbeat_at(&mut self, now: Timestamp)
        ensures
            final(self)@ == (ServiceInstanceView { last_heartbeat: now@, ..old(self)@ }),
    {
        self.last_heartbeat = now;
    }

    /// Sets the heartbeat to the current time.
    pub fn heartbeat(&mut self)
        ensures
            exists|now: Timestamp| #[trigger]
                crate::time::is_reading(now) && final(self)@ == (ServiceInstanceView {
                    last_heartbeat: now@,
                    ..old(self)@
                }),
    {
        let now = Timestamp::now();
        proof {
            assert(crate::time::is_reading(now));
        }
        self.heartbeat_at(now);
    }

    /// Whether there was no heartbeat for longer than `max_age` at the given
    /// time.
    pub fn is_stale_at(&self, now: &Timestamp, max_age: &TimeDelta) -> (r: bool)
        ensures
            r == self@.stale_at(now@, max_age@),
    {
        now.exceeds(&self.last_heartbeat, max_age)
    }

    /// Whether there was no heartbeat for longer than `max_age` up to now.
    pub fn is_stale(&self, max_age: &TimeDelta) -> (r: bool)
        ensures
            exists|now: Timestamp| #[trigger]
                crate::time::is_reading(now) && r == self@.stale_at(now@, max_age@),
    {
        let now = Timestamp::now();
        let r = self.is_stale_at(&now, max_age);
        proof {
            assert(crate::time::is_reading(now));
        }
        r
    }
}

/// An instance is known by its service and its identifier.
pub type InstanceKey = (Seq<char>, Seq<char>);

/// Whether an error says that there is no instance under a key.
pub open spec fn misses(e: FerronError, key: InstanceKey) -> bool {
    e matches FerronError::ServiceNotFound(m) && m@ == key.0 + ":"@ + key.1
}

/// The contents of a [`ServiceRegistry`]: the instances, and the services whose
/// listeners are still to be told of a change, oldest first.
#[verifier::ext_equal]
pub struct RegistryView {
    pub instances: Map<InstanceKey, ServiceInstanceView>,
    pub changes: Seq<Seq<char>>,
}

impl RegistryView {
    /// The services that have an instance.
    pub open spec fn services(self) -> Set<Seq<char>> {
        Set::new(
            |service: Seq<char>|
                exists|id: Seq<char>| #[trigger] self.instances.contains_key((service, id)),
        )
    }

    /// The instances of a service.
    pub open spec fn of_service(self, service: Seq<char>) -> Set<InstanceKey> {
        self.instances.dom().filter(|k: InstanceKey| k.0 == service)
    }

    /// The healthy instances of a service.
    pub open spec fn healthy_of_service(self, service: Seq<char>) -> Set<InstanceKey> {
        self.instances.dom().filter(
            |k: InstanceKey| k.0 == service && self.instances[k].healthy,
        )
    }

    /// The healthy instances of all services.
    pub open spec fn healthy(self) -> Set<InstanceKey> {
        self.instances.dom().filter(|k: InstanceKey| self.instances[k].healthy)
    }

    /// The unhealthy instances of all services.
    pub open spec fn unhealthy(self) -> Set<InstanceKey> {
        self.instances.dom().filter(|k: InstanceKey| !self.instances[k].healthy)
    }

    /// The instances without a heartbeat for longer than `max_age`.
    pub open spec fn stale(self, now: int, max_age: int) -> Set<InstanceKey> {
        self.instances.dom().filter(|k: InstanceKey| self.instances[k].stale_at(now, max_age))
    }

    /// With an instance put in, of which the listeners of its service are told.
    pub open spec fn registered(self, instance: ServiceInstanceView) -> RegistryView {
        RegistryView {
            instances: self.instances.insert((instance.service_name, instance.id), instance),
            changes: self.changes.push(instance.service_name),
        }
    }

    /// With an instance taken out, of which the listeners of its service are
    /// told.
    pub open spec fn deregistered(self, key: InstanceKey) -> RegistryView {
        RegistryView {
            instances: self.instances.remove(key),
            changes: self.changes.push(key.0),
        }
    }

    /// With an instance changed, of which nobody is told.
    pub open spec fn updated(self, key: InstanceKey, instance: ServiceInstanceView) -> RegistryView {
        RegistryView { instances: self.instances.insert(key, instance), ..self }
    }

    /// With an instance marked healthy or unhealthy.
    pub open spec fn marked(self, key: InstanceKey, healthy: bool) -> RegistryView {
        self.updated(key, ServiceInstanceView { healthy, ..self.instances[key] })
    }

    /// With the heartbeat of an instance set.
    pub open spec fn heard(self, key: InstanceKey, now: int) -> RegistryView {
        self.updated(key, ServiceInstanceView { last_heartbeat: now, ..self.instances[key] })
    }

    /// Without the stale instances, of which nobody is told.
    pub open spec fn without_stale(self, now: int, max_age: int) -> RegistryView {
        RegistryView {
            instances: self.instances.remove_keys(self.stale(now, max_age)),
            ..self
        }
    }
}

/// The instances under some keys.
pub open spec fn instances_under(
    order: Seq<InstanceKey>,
    instances: Map<InstanceKey, ServiceInstanceView>,
) -> Seq<ServiceInstanceView> {
    order.map_values(|k: InstanceKey| instances[k])
}

/// Whether `items` are the instances under `keys`, each once, in some order.
pub open spec fn lists_instances(
    items: Seq<ServiceInstanceView>,
    keys: Set<InstanceKey>,
    instances: Map<InstanceKey, ServiceInstanceView>,
) -> bool {
    exists|order: Seq<InstanceKey>|
        {
            &&& #[trigger] crate::string_map::is_walk(order, keys)
            &&& items == instances_under(order, instances)
        }
}

/// The URLs of the instances under some keys.
pub open spec fn urls_under(
    order: Seq<InstanceKey>,
    instances: Map<InstanceKey, ServiceInstanceView>,
) -> Seq<Seq<char>> {
    order.map_values(|k: InstanceKey| instances[k].url)
}

/// Whether `urls` are the URLs of the instances under `keys`, one for each, in
/// some order.
pub open spec fn lists_urls(
    urls: Seq<Seq<char>>,
    keys: Set<InstanceKey>,
    instances: Map<InstanceKey, ServiceInstanceView>,
) -> bool {
    exists|order: Seq<InstanceKey>|
        {
            &&& #[trigger] crate::string_map::is_walk(order, keys)
            &&& urls == urls_under(order, instances)
        }
}

/// Service registry for managing backend instances.
#[derive(Debug)]
pub struct ServiceRegistry {
    instances: Vec<ServiceInstance>,
    changes: Vec<String>,
}

spec fn key_of(instance: ServiceInstance) -> InstanceKey {
    (instance.service_name@, instance.id@)
}

spec fn keys_of(list: Seq<ServiceInstance>) -> Seq<InstanceKey> {
    list.map_values(|i: ServiceInstance| key_of(i))
}

spec fn index_of(list: Seq<ServiceInstance>, key: InstanceKey) -> int {
    choose|i: int| 0 <= i < list.len() && key_of(#[trigger] list[i]) == key
}

spec fn by_key(list: Seq<ServiceInstance>) -> Map<InstanceKey, ServiceInstanceView> {
    Map::new(
        |key: InstanceKey| keys_of(list).contains(key),
        |key: InstanceKey| list[index_of(list, key)]@,
    )
}

spec fn keys_at(list: Seq<ServiceInstance>, picks: Seq<usize>) -> Seq<InstanceKey> {
    picks.map_values(|p: usize| key_of(list[p as int]))
}

impl View for ServiceRegistry {
    type V = RegistryView;

    closed spec fn view(&self) -> RegistryView {
        RegistryView {
            instances: by_key(self.instances@),
            changes: crate::text::texts(self.changes@),
        }
    }
}

proof fn lemma_by_key(list: Seq<ServiceInstance>)
    requires
        keys_of(list).no_duplicates(),
    ensures
        forall|i: int|
            #![trigger list[i]]
            0 <= i < list.len() ==> by_key(list).contains_key(key_of(list[i])) && by_key(
                list,
            )[key_of(list[i])] == list[i]@,
        forall|key: InstanceKey| #[trigger]
            by_key(list).contains_key(key) ==> 0 <= index_of(list, key) < list.len() && key_of(
                list[index_of(list, key)],
            ) == key,
        crate::string_map::is_walk(keys_of(list), by_key(list).dom()),
        by_key(list).dom().finite(),
        by_key(list).len() == list.len(),
{
    let keys = keys_of(list);
    assert forall|key: InstanceKey| #[trigger] by_key(list).contains_key(key) implies 0 <= index_of(
        list,
        key,
    ) < list.len() && key_of(list[index_of(list, key)]) == key by {
        let i = choose|i: int| 0 <= i < keys.len() && keys[i] == key;
        assert(key_of(list[i]) == key);
    }
    assert forall|i: int| #![trigger list[i]] 0 <= i < list.len() implies by_key(list).contains_key(
        key_of(list[i]),
    ) && by_key(list)[key_of(list[i])] == list[i]@ by {
        let key = key_of(list[i]);
        assert(keys[i] == key);
        assert(keys.contains(key));
        let j = index_of(list, key);
        assert(keys[j] == key);
    }
    assert(keys.to_set() =~= by_key(list).dom());
    keys.unique_seq_to_set();
}

impl ServiceRegistry {
    #[verifier::type_invariant]
    spec fn distinct(self) -> bool {
        keys_of(self.instances@).no_duplicates()
    }

    /// Creates a registry without instances.
    pub fn new() -> (r: Self)
        ensures
            r@.instances == Map::<InstanceKey, ServiceInstanceView>::empty(),
            r@.changes == Seq::<Seq<char>>::empty(),
    {
        let r = ServiceRegistry { instances: Vec::new(), changes: Vec::new() };
        proof {
            assert(r@.instances =~= Map::<InstanceKey, ServiceInstanceView>::empty());
            assert(r@.changes =~= Seq::<Seq<char>>::empty());
        }
        r
    }

    fn position(&self, service_name: &str, instance_id: &str) -> (r: Option<usize>)
        ensures
            match r {
                Some(i) => i < self.instances@.len() && key_of(self.instances@[i as int]) == (
                    service_name@,
                    instance_id@,
                ),
                None => !self@.instances.contains_key((service_name@, instance_id@)),
            },
    {
        proof {
            use_type_invariant(self);
            lemma_by_key(self.instances@);
        }
        let mut i: usize = 0;
        while i < self.instances.len()
            invariant
                i <= self.instances@.len(),
                forall|j: int|
                    0 <= j < i ==> key_of(#[trigger] self.instances@[j]) != (
                        service_name@,
                        instance_id@,
                    ),
            decreases self.instances@.len() - i,
        {
            if same_text(self.instances[i].service_name.as_str(), service_name) && same_text(
                self.instances[i].id.as_str(),
                instance_id,
            ) {
                return Some(i);
            }
            i = i + 1;
        }
        None
    }

    fn not_found(service_name: &str, instance_id: &str) -> (r: FerronError)
        ensures
            misses(r, (service_name@, instance_id@)),
    {
        let head = joined(service_name, ":");
        FerronError::ServiceNotFound(joined(head.as_str(), instance_id))
    }

    fn put(&mut self, instance: ServiceInstance)
        ensures
            final(self)@ == old(self)@.updated(
                (instance@.service_name, instance@.id),
                instance@,
            ),
    {
        proof {
            use_type_invariant(&*self);
            lemma_by_key(self.instances@);
        }
        let at = self.position(instance.service_name.as_str(), instance.id.as_str());
        let ghost before = self.instances@;
        let ghost key = key_of(instance);
        let ghost value = instance@;
        let mut instances: Vec<ServiceInstance> = Vec::new();
        core::mem::swap(&mut instances, &mut self.instances);
        match at {
            Some(i) => {
                instances.set(i, instance);
                proof {
                    assert(keys_of(instances@) =~= keys_of(before));
                }
            },
            None => {
                instances.push(instance);
                proof {
                    assert(keys_of(instances@) =~= keys_of(before).push(key));
                    assert(!keys_of(before).contains(key));
                }
            },
        }
        proof {
            let after = instances@;
            let last = if at is Some {
                at->0 as int
            } else {
                before.len() as int
            };
            assert(keys_of(after).no_duplicates());
            lemma_by_key(after);
            assert forall|q: InstanceKey| #[trigger] by_key(after).contains_key(q) <==> by_key(
                before,
            ).contains_key(q) || q == key by {
                if by_key(after).contains_key(q) {
                    let i = index_of(after, q);
                    if i != last {
                        assert(after[i] == before[i]);
                    }
                }
                if by_key(before).contains_key(q) {
                    let i = index_of(before, q);
                    assert(key_of(after[i]) == q);
                }
                assert(after[last]@ == value);
            }
            assert forall|q: InstanceKey| #[trigger] by_key(after).contains_key(q) implies by_key(
                after,
            )[q] == by_key(before).insert(key, value)[q] by {
                let i = index_of(after, q);
                assert(keys_of(after)[i] == q);
                assert(keys_of(after)[last] == key);
                if i != last {
                    assert(after[i] == before[i]);
                    assert(by_key(before)[key_of(before[i])] == before[i]@);
                } else {
                    assert(after[last]@ == value);
                }
            }
            assert(by_key(after) =~= by_key(before).insert(key, value));
        }
        self.instances = instances;
    }

    fn take(&mut self, service_name: &str, instance_id: &str) -> (r: Option<ServiceInstance>)
        ensures
            match r {
                Some(instance) => {
                    let key = (service_name@, instance_id@);
                    &&& old(self)@.instances.contains_key(key)
                    &&& instance@ == old(self)@.instances[key]
                    &&& key_of(instance) == key
                    &&& final(self)@.instances == old(self)@.instances.remove(key)
                    &&& final(self)@.changes == old(self)@.changes
                },
                None => {
                    &&& !old(self)@.instances.contains_key((service_name@, instance_id@))
                    &&& final(self)@ == old(self)@
                },
            },
    {
        proof {
            use_type_invariant(&*self);
            lemma_by_key(self.instances@);
        }
        let ghost before = self.instances@;
        match self.position(service_name, instance_id) {
            Some(at) => {
                let ghost key = (service_name@, instance_id@);
                let mut instances: Vec<ServiceInstance> = Vec::new();
                core::mem::swap(&mut instances, &mut self.instances);
                let taken = instances.remove(at);
                proof {
                    let after = instances@;
                    assert(taken == before[at as int]);
                    assert(keys_of(before)[at as int] == key);
                    assert forall|a: int, b: int| 0 <= a < b < keys_of(after).len() implies keys_of(
                        after,
                    )[a] != keys_of(after)[b] by {
                        let a0 = if a < at { a } else { a + 1 };
                        let b0 = if b < at { b } else { b + 1 };
                        assert(keys_of(after)[a] == keys_of(before)[a0]);
                        assert(keys_of(after)[b] == keys_of(before)[b0]);
                    }
                    assert(keys_of(after).no_duplicates());
                    lemma_by_key(after);
                    assert forall|q: InstanceKey| #[trigger] by_key(after).contains_key(q) implies q
                        != key && by_key(before).contains_key(q) && by_key(after)[q] == by_key(
                        before,
                    )[q] by {
                        let a = index_of(after, q);
                        let a0 = if a < at { a } else { a + 1 };
                        assert(after[a] == before[a0]);
                        assert(keys_of(before)[a0] == q);
                    }
                    assert forall|q: InstanceKey| #[trigger]
                        by_key(before).contains_key(q) && q != key implies by_key(
                        after,
                    ).contains_key(q) by {
                        let b = index_of(before, q);
                        let b0 = if b < at { b } else { b - 1 };
                        assert(after[b0] == before[b]);
                    }
                    assert(by_key(after) =~= by_key(before).remove(key));
                }
                self.instances = instances;
                Some(taken)
            },
            None => None,
        }
    }

    fn announce(&mut self, service_name: &str)
        ensures
            final(self)@ == (RegistryView {
                changes: old(self)@.changes.push(service_name@),
                ..old(self)@
            }),
    {
        proof {
            use_type_invariant(&*self);
        }
        let ghost before = self.changes@;
        let mut changes: Vec<String> = Vec::new();
        core::mem::swap(&mut changes, &mut self.changes);
        changes.push(service_name.to_owned());
        proof {
            assert(crate::text::texts(changes@) =~= crate::text::texts(before).push(service_name@));
        }
        self.changes = changes;
    }

    /// The services whose listeners are to be told of a change, oldest first;
    /// each call hands out every change once.
    pub fn take_changes(&mut self) -> (r: Vec<String>)
        ensures
            crate::text::texts(r@) == old(self)@.changes,
            final(self)@ == (RegistryView { changes: Seq::empty(), ..old(self)@ }),
    {
        let mut changes: Vec<String> = Vec::new();
        proof {
            use_type_invariant(&*self);
            assert(crate::text::texts(changes@) =~= Seq::<Seq<char>>::empty());
        }
        core::mem::swap(&mut changes, &mut self.changes);
        changes
    }

    /// Registers an instance, in place of one of the same service with the same
    /// identifier.
    pub fn register_instance(&mut self, instance: ServiceInstance) -> (r: Result<String>)
        ensures
            r matches Ok(id) && id@ == instance@.id,
            final(self)@ == old(self)@.registered(instance@),
    {
        let service_name = instance.service_name.clone();
        let instance_id = instance.id.clone();
        self.put(instance);
        self.announce(service_name.as_str());
        Ok(instance_id)
    }

    /// Registers a new instance under a random identifier.
    pub fn register(&mut self, service_name: &str, url: &str) -> (r: Result<String>)
        ensures
            r matches Ok(id) && is_random_uuid(id@) && exists|now: Timestamp| #[trigger]
                crate::time::is_reading(now) && final(self)@ == old(self)@.registered(
                    fresh_instance(id@, service_name@, url@, now@),
                ),
    {
        let instance = ServiceInstance::new(service_name, url);
        self.register_instance(instance)
    }

    /// Deregisters an instance.
    pub fn deregister(&mut self, service_name: &str, instance_id: &str) -> (r: Result<()>)
        ensures
            match r {
                Ok(_) => {
                    &&& old(self)@.instances.contains_key((service_name@, instance_id@))
                    &&& final(self)@ == old(self)@.deregistered((service_name@, instance_id@))
                },
                Err(e) => {
                    &&& !old(self)@.instances.contains_key((service_name@, instance_id@))
                    &&& misses(e, (service_name@, instance_id@))
                    &&& final(self)@ == old(self)@
                },
            },
    {
        match self.take(service_name, instance_id) {
            Some(_) => {
                self.announce(service_name);
                Ok(())
            },
            None => Err(ServiceRegistry::not_found(service_name, instance_id)),
        }
    }

    /// Sets the heartbeat of an instance to the given time.
    pub fn heartbeat_at(&mut self, service_name: &str, instance_id: &str, now: Timestamp) -> (r:
        Result<()>)
        ensures
            match r {
                Ok(_) => {
                    &&& old(self)@.instances.contains_key((service_name@, instance_id@))
                    &&& final(self)@ == old(self)@.heard((service_name@, instance_id@), now@)
                },
                Err(e) => {
                    &&& !old(self)@.instances.contains_key((service_name@, instance_id@))
                    &&& misses(e, (service_name@, instance_id@))
                    &&& final(self)@ == old(self)@
                },
            },
    {
        match self.take(service_name, instance_id) {
            Some(mut instance) => {
                instance.heartbeat_at(now);
                self.put(instance);
                proof {
                    let key = (service_name@, instance_id@);
                    assert(self@ =~= old(self)@.heard(key, now@));
                }
                Ok(())
            },
            None => Err(ServiceRegistry::not_found(service_name, instance_id)),
        }
    }

    /// Sets the heartbeat of an instance to the current time.
    pub fn heartbeat(&mut self, service_name: &str, instance_id: &str) -> (r: Result<()>)
        ensures
            match r {
                Ok(_) => {
                    &&& old(self)@.instances.contains_key((service_name@, instance_id@))
                    &&& exists|now: Timestamp| #[trigger]
                        crate::time::is_reading(now) && final(self)@ == old(self)@.heard(
                            (service_name@, instance_id@),
                            now@,
                        )
                },
                Err(e) => {
                    &&& !old(self)@.instances.contains_key((service_name@, instance_id@))
                    &&& misses(e, (service_name@, instance_id@))
                    &&& final(self)@ == old(self)@
                },
            },
    {
        let now = Timestamp::now();
        proof {
            assert(crate::time::is_reading(now));
        }
        self.heartbeat_at(service_name, instance_id, now)
    }

    fn mark(&mut self, service_name: &str, instance_id: &str, healthy: bool) -> (r: Result<()>)
        ensures
            match r {
                Ok(_) => {
                    &&& old(self)@.instances.contains_key((service_name@, instance_id@))
                    &&& final(self)@ == old(self)@.marked((service_name@, instance_id@), healthy)
                },
                Err(e) => {
                    &&& !old(self)@.instances.contains_key((service_name@, instance_id@))
                    &&& misses(e, (service_name@, instance_id@))
                    &&& final(self)@ == old(self)@
                },
            },
    {
        match self.take(service_name, instance_id) {
            Some(mut instance) => {
                instance.healthy = healthy;
                self.put(instance);
                proof {
                    let key = (service_name@, instance_id@);
                    assert(self@ =~= old(self)@.marked(key, healthy));
                }
                Ok(())
            },
            None => Err(ServiceRegistry::not_found(service_name, instance_id)),
        }
    }

    /// Marks an instance as unhealthy.
    pub fn mark_unhealthy(&mut self, service_name: &str, instance_id: &str) -> (r: Result<()>)
        ensures
            match r {
                Ok(_) => {
                    &&& old(self)@.instances.contains_key((service_name@, instance_id@))
                    &&& final(self)@ == old(self)@.marked((service_name@, instance_id@), false)
                },
                Err(e) => {
                    &&& !old(self)@.instances.contains_key((service_name@, instance_id@))
                    &&& misses(e, (service_name@, instance_id@))
                    &&& final(self)@ == old(self)@
                },
            },
    {
        self.mark(service_name, instance_id, false)
    }

    /// Marks an instance as healthy.
    pub fn mark_healthy(&mut self, service_name: &str, instance_id: &str) -> (r: Result<()>)
        ensures
            match r {
                Ok(_) => {
                    &&& old(self)@.instances.contains_key((service_name@, instance_id@))
                    &&& final(self)@ == old(self)@.marked((service_name@, instance_id@), true)
                },
                Err(e) => {
                    &&& !old(self)@.instances.contains_key((service_name@, instance_id@))
                    &&& misses(e, (service_name@, instance_id@))
                    &&& final(self)@ == old(self)@
                },
            },
    {
        self.mark(service_name, instance_id, true)
    }
}

enum Choice<'a> {
    OfService(&'a str),
    HealthyOfService(&'a str),
    Healthy,
    Stale(&'a Timestamp, &'a TimeDelta),
}

impl Choice<'_> {
    spec fn takes(self, key: InstanceKey, instance: ServiceInstanceView) -> bool {
        match self {
            Choice::OfService(service) => key.0 == service@,
            Choice::HealthyOfService(service) => key.0 == service@ && instance.healthy,
            Choice::Healthy => instance.healthy,
            Choice::Stale(now, max_age) => instance.stale_at(now@, max_age@),
        }
    }

    spec fn among(self, registry: RegistryView) -> Set<InstanceKey> {
        match self {
            Choice::OfService(service) => registry.of_service(service@),
            Choice::HealthyOfService(service) => registry.healthy_of_service(service@),
            Choice::Healthy => registry.healthy(),
            Choice::Stale(now, max_age) => registry.stale(now@, max_age@),
        }
    }

    fn holds(&self, instance: &ServiceInstance) -> (r: bool)
        ensures
            r == self.takes(key_of(*instance), instance@),
    {
        match self {
            Choice::OfService(service) => same_text(instance.service_name.as_str(), service),
            Choice::HealthyOfService(service) => same_text(
                instance.service_name.as_str(),
                service,
            ) && instance.healthy,
            Choice::Healthy => instance.healthy,
            Choice::Stale(now, max_age) => instance.is_stale_at(now, max_age),
        }
    }
}

impl ServiceRegistry {
    fn matching(&self, choice: &Choice) -> (r: Vec<usize>)
        ensures
            forall|i: int| 0 <= i < r@.len() ==> #[trigger] r@[i] < self.instances@.len(),
            crate::string_map::is_walk(keys_at(self.instances@, r@), choice.among(self@)),
    {
        let ghost list = self.instances@;
        let ghost all = keys_of(list);
        let ghost ok = |k: InstanceKey| choice.takes(k, by_key(list)[k]);
        proof {
            use_type_invariant(self);
            lemma_by_key(list);
        }
        let mut r: Vec<usize> = Vec::new();
        let mut i: usize = 0;
        while i < self.instances.len()
            invariant
                i <= list.len(),
                list == self.instances@,
                all == keys_of(list),
                crate::string_map::is_walk(all, by_key(list).dom()),
                ok == (|k: InstanceKey| choice.takes(k, by_key(list)[k])),
                forall|j: int|
                    #![trigger list[j]]
                    0 <= j < list.len() ==> by_key(list)[key_of(list[j])] == list[j]@,
                forall|j: int| 0 <= j < r@.len() ==> #[trigger] r@[j] < list.len(),
                keys_at(list, r@).no_duplicates(),
                forall|k: InstanceKey| #[trigger]
                    keys_at(list, r@).contains(k) <==> all.take(i as int).contains(k) && ok(k),
            decreases list.len() - i,
        {
            let ghost before = keys_at(list, r@);
            if choice.holds(&self.instances[i]) {
                r.push(i);
            }
            proof {
                let k = all[i as int];
                assert(k == key_of(list[i as int]));
                assert(by_key(list)[k] == list[i as int]@);
                if ok(k) {
                    assert(keys_at(list, r@) =~= before.push(k));
                }
                crate::string_map::lemma_walk_step(all, i as int, ok, before, keys_at(list, r@));
            }
            i = i + 1;
        }
        proof {
            assert(all.take(list.len() as int) =~= all);
            let wanted = choice.among(self@);
            let found = keys_at(list, r@);
            assert forall|k: InstanceKey| found.to_set().contains(k) == wanted.contains(k) by {
                assert(found.contains(k) <==> all.contains(k) && ok(k));
                assert(all.to_set().contains(k) == by_key(list).dom().contains(k));
            }
            assert(found.to_set() =~= wanted);
        }
        r
    }

    fn copies(&self, picks: &Vec<usize>, Ghost(keys): Ghost<Set<InstanceKey>>) -> (r: Vec<
        ServiceInstance,
    >)
        requires
            forall|i: int| 0 <= i < picks@.len() ==> #[trigger] picks@[i] < self.instances@.len(),
            crate::string_map::is_walk(keys_at(self.instances@, picks@), keys),
        ensures
            lists_instances(
                r@.map_values(|i: ServiceInstance| i@),
                keys,
                self@.instances,
            ),
            r@.len() == keys.len(),
    {
        proof {
            use_type_invariant(self);
            lemma_by_key(self.instances@);
        }
        let mut r: Vec<ServiceInstance> = Vec::new();
        let mut i: usize = 0;
        while i < picks.len()
            invariant
                i <= picks@.len(),
                r@.len() == i,
                forall|j: int|
                    0 <= j < picks@.len() ==> #[trigger] picks@[j] < self.instances@.len(),
                forall|j: int|
                    0 <= j < i ==> #[trigger] r@[j]@ == self.instances@[picks@[j] as int]@,
            decreases picks@.len() - i,
        {
            r.push(self.instances[picks[i]].clone());
            i = i + 1;
        }
        proof {
            let order = keys_at(self.instances@, picks@);
            order.unique_seq_to_set();
            assert(r@.map_values(|i: ServiceInstance| i@) =~= instances_under(
                order,
                self@.instances,
            ));
        }
        r
    }

    fn urls(&self, picks: &Vec<usize>, Ghost(keys): Ghost<Set<InstanceKey>>) -> (r: Vec<String>)
        requires
            forall|i: int| 0 <= i < picks@.len() ==> #[trigger] picks@[i] < self.instances@.len(),
            crate::string_map::is_walk(keys_at(self.instances@, picks@), keys),
        ensures
            lists_urls(crate::text::texts(r@), keys, self@.instances),
            r@.len() == keys.len(),
    {
        proof {
            use_type_invariant(self);
            lemma_by_key(self.instances@);
        }
        let mut r: Vec<String> = Vec::new();
        let mut i: usize = 0;
        while i < picks.len()
            invariant
                i <= picks@.len(),
                r@.len() == i,
                forall|j: int|
                    0 <= j < picks@.len() ==> #[trigger] picks@[j] < self.instances@.len(),
                forall|j: int|
                    0 <= j < i ==> #[trigger] r@[j]@ == self.instances@[picks@[j] as int]@.url,
            decreases picks@.len() - i,
        {
            r.push(self.instances[picks[i]].url.clone());
            i = i + 1;
        }
        proof {
            let order = keys_at(self.instances@, picks@);
            order.unique_seq_to_set();
            assert(crate::text::texts(r@) =~= urls_under(order, self@.instances));
        }
        r
    }

    /// The instances of a service.
    pub fn get_instances(&self, service_name: &str) -> (r: Vec<ServiceInstance>)
        ensures
            lists_instances(
                r@.map_values(|i: ServiceInstance| i@),
                self@.of_service(service_name@),
                self@.instances,
            ),
            r@.len() == self@.of_service(service_name@).len(),
    {
        let picks = self.matching(&Choice::OfService(service_name));
        self.copies(&picks, Ghost(self@.of_service(service_name@)))
    }

    /// The healthy instances of a service.
    pub fn get_healthy_instances(&self, service_name: &str) -> (r: Vec<ServiceInstance>)
        ensures
            lists_instances(
                r@.map_values(|i: ServiceInstance| i@),
                self@.healthy_of_service(service_name@),
                self@.instances,
            ),
            r@.len() == self@.healthy_of_service(service_name@).len(),
    {
        let picks = self.matching(&Choice::HealthyOfService(service_name));
        self.copies(&picks, Ghost(self@.healthy_of_service(service_name@)))
    }

    /// The URLs of the instances of a service.
    pub fn get_urls(&self, service_name: &str) -> (r: Vec<String>)
        ensures
            lists_urls(
                crate::text::texts(r@),
                self@.of_service(service_name@),
                self@.instances,
            ),
            r@.len() == self@.of_service(service_name@).len(),
    {
        let picks = self.matching(&Choice::OfService(service_name));
        self.urls(&picks, Ghost(self@.of_service(service_name@)))
    }

    /// The URLs of the healthy instances of a service.
    pub fn get_healthy_urls(&self, service_name: &str) -> (r: Vec<String>)
        ensures
            lists_urls(
                crate::text::texts(r@),
                self@.healthy_of_service(service_name@),
                self@.instances,
            ),
            r@.len() == self@.healthy_of_service(service_name@).len(),
    {
        let picks = self.matching(&Choice::HealthyOfService(service_name));
        self.urls(&picks, Ghost(self@.healthy_of_service(service_name@)))
    }

    /// The services that have an instance.
    pub fn get_services(&self) -> (r: Vec<String>)
        ensures
            crate::string_map::is_walk(crate::text::texts(r@), self@.services()),
            r@.len() == self@.services().len(),
    {
        let ghost list = self.instances@;
        proof {
            use_type_invariant(self);
            lemma_by_key(list);
        }
        let mut r: Vec<String> = Vec::new();
        let mut i: usize = 0;
        while i < self.instances.len()
            invariant
                i <= list.len(),
                list == self.instances@,
                crate::text::texts(r@).no_duplicates(),
                forall|s: Seq<char>| #[trigger]
                    crate::text::texts(r@).contains(s) ==> exists|j: int|
                        0 <= j < i && (#[trigger] list[j]).service_name@ == s,
                forall|j: int|
                    0 <= j < i ==> crate::text::texts(r@).contains(
                        (#[trigger] list[j]).service_name@,
                    ),
            decreases list.len() - i,
        {
            let ghost before = crate::text::texts(r@);
            let ghost s = list[i as int].service_name@;
            if !holds_text(&r, self.instances[i].service_name.as_str()) {
                r.push(self.instances[i].service_name.clone());
                proof {
                    let after = crate::text::texts(r@);
                    assert(after =~= before.push(s));
                    assert(after[before.len() as int] == s);
                    assert forall|q: Seq<char>| before.contains(q) implies after.contains(q) by {
                        let j = choose|j: int| 0 <= j < before.len() && before[j] == q;
                        assert(after[j] == q);
                    }
                    assert forall|q: Seq<char>| #[trigger] after.contains(q) implies q == s
                        || before.contains(q) by {
                        let j = choose|j: int| 0 <= j < after.len() && after[j] == q;
                        if j < before.len() {
                            assert(before[j] == q);
                        }
                    }
                    assert forall|j: int| 0 <= j < i implies after.contains(
                        (#[trigger] list[j]).service_name@,
                    ) by {
                        assert(before.contains(list[j].service_name@));
                    }
                }
            }
            i = i + 1;
        }
        proof {
            let found = crate::text::texts(r@);
            assert forall|s: Seq<char>| found.to_set().contains(s) == self@.services().contains(
                s,
            ) by {
                if found.contains(s) {
                    let j = choose|j: int|
                        0 <= j < list.len() && (#[trigger] list[j]).service_name@ == s;
                    assert(self@.instances.contains_key((s, list[j].id@)));
                }
                if self@.services().contains(s) {
                    let id = choose|id: Seq<char>| #[trigger] self@.instances.contains_key((s, id));
                    let j = index_of(list, (s, id));
                    assert(found.contains(list[j].service_name@));
                }
            }
            assert(found.to_set() =~= self@.services());
            found.unique_seq_to_set();
        }
        r
    }
}

/// The keys of a list of service names and instance identifiers.
pub open spec fn key_texts(list: Seq<(String, String)>) -> Seq<InstanceKey> {
    list.map_values(|p: (String, String)| (p.0@, p.1@))
}

/// Registry statistics.
#[derive(Debug, Clone, Copy, PartialEq, Eq, Structural)]
pub struct RegistryStats {
    /// Number of registered services
    pub service_count: usize,
    /// Total number of instances
    pub total_instances: usize,
    /// Number of healthy instances
    pub healthy_instances: usize,
    /// Number of unhealthy instances
    pub unhealthy_instances: usize,
}

impl ServiceRegistry {
    /// Removes the instances without a heartbeat for longer than `max_age` at
    /// the given time, and returns their service names and identifiers.
    pub fn remove_stale_at(&mut self, now: &Timestamp, max_age: &TimeDelta) -> (r: Vec<
        (String, String),
    >)
        ensures
            crate::string_map::is_walk(key_texts(r@), old(self)@.stale(now@, max_age@)),
            final(self)@ == old(self)@.without_stale(now@, max_age@),
            r@.len() == old(self)@.stale(now@, max_age@).len(),
    {
        let picks = self.matching(&Choice::Stale(now, max_age));
        let ghost order = keys_at(self.instances@, picks@);
        let mut removed: Vec<(String, String)> = Vec::new();
        let mut i: usize = 0;
        while i < picks.len()
            invariant
                i <= picks@.len(),
                removed@.len() == i,
                *self == *old(self),
                forall|j: int|
                    0 <= j < picks@.len() ==> #[trigger] picks@[j] < self.instances@.len(),
                order == keys_at(self.instances@, picks@),
                forall|j: int|
                    0 <= j < i ==> (#[trigger] removed@[j]).0@ == order[j].0 && removed@[j].1@
                        == order[j].1,
            decreases picks@.len() - i,
        {
            let instance = &self.instances[picks[i]];
            removed.push((instance.service_name.clone(), instance.id.clone()));
            i = i + 1;
        }
        proof {
            assert(key_texts(removed@) =~= order);
            order.unique_seq_to_set();
        }
        i = 0;
        while i < removed.len()
            invariant
                i <= removed@.len(),
                key_texts(removed@) == order,
                self@.changes == old(self)@.changes,
                self@.instances == old(self)@.instances.remove_keys(order.take(i as int).to_set()),
            decreases removed@.len() - i,
        {
            let ghost before = self@.instances;
            let ghost key = order[i as int];
            assert(key == (removed@[i as int].0@, removed@[i as int].1@));
            let _gone = self.take(removed[i].0.as_str(), removed[i].1.as_str());
            proof {
                assert(self@.instances =~= before.remove(key));
                assert(order.take(i + 1) =~= order.take(i as int).push(key));
                assert forall|q: InstanceKey| order.take(i + 1).to_set().contains(q) <==> q == key
                    || order.take(i as int).to_set().contains(q) by {
                    if order.take(i as int).contains(q) {
                        let j = choose|j: int| 0 <= j < i && order.take(i as int)[j] == q;
                        assert(order.take(i + 1)[j] == q);
                    }
                    assert(order.take(i + 1)[i as int] == key);
                }
                assert(self@.instances =~= old(self)@.instances.remove_keys(
                    order.take(i + 1).to_set(),
                ));
            }
            i = i + 1;
        }
        proof {
            assert(order.take(removed@.len() as int) =~= order);
        }
        removed
    }

    /// Removes the instances without a heartbeat for longer than `max_age` up
    /// to now, and returns their service names and identifiers.
    pub fn remove_stale(&mut self, max_age: &TimeDelta) -> (r: Vec<(String, String)>)
        ensures
            exists|now: Timestamp|
                {
                    &&& #[trigger] crate::time::is_reading(now)
                    &&& final(self)@ == old(self)@.without_stale(now@, max_age@)
                    &&& crate::string_map::is_walk(
                        key_texts(r@),
                        old(self)@.stale(now@, max_age@),
                    )
                    &&& r@.len() == old(self)@.stale(now@, max_age@).len()
                },
    {
        let now = Timestamp::now();
        proof {
            assert(crate::time::is_reading(now));
        }
        self.remove_stale_at(&now, max_age)
    }

    /// Registry statistics.
    pub fn stats(&self) -> (r: RegistryStats)
        ensures
            r.service_count == self@.services().len(),
            r.total_instances == self@.instances.len(),
            self@.instances.dom().finite(),
            r.healthy_instances == self@.healthy().len(),
            r.unhealthy_instances == self@.unhealthy().len(),
            r.healthy_instances + r.unhealthy_instances == r.total_instances,
    {
        let services = self.get_services();
        let healthy = self.matching(&Choice::Healthy);
        proof {
            use_type_invariant(self);
            lemma_by_key(self.instances@);
            keys_at(self.instances@, healthy@).unique_seq_to_set();
            vstd::set_lib::lemma_len_subset(self@.healthy(), self@.instances.dom());
            vstd::set_lib::lemma_len_subset(self@.unhealthy(), self@.instances.dom());
            vstd::set_lib::lemma_set_disjoint_lens(self@.healthy(), self@.unhealthy());
            assert(self@.healthy() + self@.unhealthy() =~= self@.instances.dom());
        }
        let total_instances: usize = self.instances.len();
        let healthy_instances: usize = healthy.len();
        RegistryStats {
            service_count: services.len(),
            total_instances,
            healthy_instances,
            unhealthy_instances: total_instances - healthy_instances,
        }
    }
}

impl Default for ServiceRegistry {
    fn default() -> (r: Self)
        ensures
            r@.instances == Map::<InstanceKey, ServiceInstanceView>::empty(),
            r@.changes == Seq::<Seq<char>>::empty(),
    {
        ServiceRegistry::new()
    }
}

} // verus!
