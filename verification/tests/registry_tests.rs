use armature_ferron::error::FerronError;
use armature_ferron::registry::{ServiceInstance, ServiceRegistry};
use armature_ferron::time::{TimeDelta, Timestamp};

#[test]
fn test_register_and_get() {
    let mut registry = ServiceRegistry::new();

    let id = registry.register("api", "http://localhost:3000").unwrap();
    assert!(!id.is_empty());

    let instances = registry.get_instances("api");
    assert_eq!(instances.len(), 1);
    assert_eq!(instances[0].url, "http://localhost:3000");
}

#[test]
fn test_deregister() {
    let mut registry = ServiceRegistry::new();

    let id = registry.register("api", "http://localhost:3000").unwrap();
    assert_eq!(registry.get_instances("api").len(), 1);

    registry.deregister("api", &id).unwrap();
    assert_eq!(registry.get_instances("api").len(), 0);
}

#[test]
fn test_health_marking() {
    let mut registry = ServiceRegistry::new();

    let id = registry.register("api", "http://localhost:3000").unwrap();

    registry.mark_unhealthy("api", &id).unwrap();
    assert_eq!(registry.get_healthy_instances("api").len(), 0);

    registry.mark_healthy("api", &id).unwrap();
    assert_eq!(registry.get_healthy_instances("api").len(), 1);
}

#[test]
fn test_multiple_instances() {
    let mut registry = ServiceRegistry::new();

    registry.register("api", "http://localhost:3001").unwrap();
    registry.register("api", "http://localhost:3002").unwrap();
    registry.register("api", "http://localhost:3003").unwrap();

    let instances = registry.get_instances("api");
    assert_eq!(instances.len(), 3);

    let urls = registry.get_urls("api");
    assert!(urls.contains(&"http://localhost:3001".to_string()));
    assert!(urls.contains(&"http://localhost:3002".to_string()));
    assert!(urls.contains(&"http://localhost:3003".to_string()));
}

#[test]
fn test_stats() {
    let mut registry = ServiceRegistry::new();

    let id1 = registry.register("api", "http://localhost:3001").unwrap();
    registry.register("api", "http://localhost:3002").unwrap();
    registry.register("web", "http://localhost:8080").unwrap();

    registry.mark_unhealthy("api", &id1).unwrap();

    let stats = registry.stats();
    assert_eq!(stats.service_count, 2);
    assert_eq!(stats.total_instances, 3);
    assert_eq!(stats.healthy_instances, 2);
    assert_eq!(stats.unhealthy_instances, 1);
}

#[test]
fn test_service_instance_builder() {
    let instance = ServiceInstance::new("api", "http://localhost:3000")
        .weight(3)
        .metadata("version", "1.0.0")
        .tag("production");

    assert_eq!(instance.service_name, "api");
    assert_eq!(instance.url, "http://localhost:3000");
    assert_eq!(instance.weight, 3);
    assert_eq!(instance.metadata.get("version"), Some(&"1.0.0".to_string()));
    assert!(instance.tags.contains(&"production".to_string()));
}

fn at(secs: i64) -> Timestamp {
    Timestamp::new(secs, 0).unwrap()
}

fn instance(id: &str, service: &str, secs: i64) -> ServiceInstance {
    ServiceInstance::with_id(
        id.to_string(),
        service,
        &format!("http://{}-{}", service, id),
        at(secs),
    )
}

#[test]
fn identifiers_are_random_uuids() {
    let a = ServiceInstance::new("api", "http://a");
    let b = ServiceInstance::new("api", "http://a");
    assert_ne!(a.id, b.id);
    for id in [&a.id, &b.id] {
        assert_eq!(id.len(), 36);
        for (i, c) in id.chars().enumerate() {
            match i {
                8 | 13 | 18 | 23 => assert_eq!(c, '-'),
                14 => assert_eq!(c, '4'),
                19 => assert!("89ab".contains(c)),
                _ => assert!("0123456789abcdef".contains(c)),
            }
        }
    }
}

#[test]
fn fresh_instances_have_defaults() {
    let fresh = instance("1", "api", 50);
    assert_eq!(fresh.weight, 1);
    assert!(fresh.healthy);
    assert!(fresh.tags.is_empty());
    assert!(fresh.metadata.is_empty());
    assert_eq!(fresh.registered_at, at(50));
    assert_eq!(fresh.last_heartbeat, at(50));
}

#[test]
fn a_second_registration_replaces_the_first() {
    let mut registry = ServiceRegistry::new();
    registry.register_instance(instance("1", "api", 0)).unwrap();
    let id = registry
        .register_instance(instance("1", "api", 9).weight(7))
        .unwrap();
    assert_eq!(id, "1");
    let all = registry.get_instances("api");
    assert_eq!(all.len(), 1);
    assert_eq!(all[0].weight, 7);
}

#[test]
fn the_same_identifier_in_two_services_is_two_instances() {
    let mut registry = ServiceRegistry::new();
    registry.register_instance(instance("1", "api", 0)).unwrap();
    registry.register_instance(instance("1", "web", 0)).unwrap();
    let mut services = registry.get_services();
    services.sort();
    assert_eq!(services, vec!["api".to_string(), "web".to_string()]);
    registry.deregister("api", "1").unwrap();
    assert_eq!(registry.get_services(), vec!["web".to_string()]);
    assert_eq!(registry.get_urls("web"), vec!["http://web-1".to_string()]);
}

fn is_missing(result: Result<(), FerronError>, message: &str) -> bool {
    matches!(result, Err(FerronError::ServiceNotFound(m)) if m == message)
}

#[test]
fn unknown_instances_are_reported() {
    let mut registry = ServiceRegistry::default();
    registry.register_instance(instance("1", "api", 0)).unwrap();
    assert!(is_missing(registry.deregister("api", "2"), "api:2"));
    assert!(is_missing(registry.deregister("web", "1"), "web:1"));
    assert!(is_missing(registry.heartbeat("api", "2"), "api:2"));
    assert!(is_missing(registry.mark_healthy("api", "2"), "api:2"));
    assert!(is_missing(registry.mark_unhealthy("api", "2"), "api:2"));
    assert_eq!(registry.stats().total_instances, 1);
}

#[test]
fn stale_means_longer_than_the_maximum() {
    let i = instance("1", "api", 100);
    assert!(!i.is_stale_at(&at(130), &TimeDelta::seconds(30)));
    assert!(i.is_stale_at(
        &Timestamp::new(130, 1).unwrap(),
        &TimeDelta::seconds(30)
    ));
    assert!(!i.is_stale_at(&at(90), &TimeDelta::seconds(0)));
    assert!(i.is_stale_at(&at(90), &TimeDelta::seconds(-11)));
    assert!(i.is_stale(&TimeDelta::seconds(60)));
    assert!(!ServiceInstance::new("api", "u").is_stale(&TimeDelta::seconds(60)));
}

#[test]
fn stale_instances_are_removed_and_named() {
    let mut registry = ServiceRegistry::new();
    registry.register_instance(instance("1", "api", 0)).unwrap();
    registry.register_instance(instance("2", "api", 90)).unwrap();
    registry.register_instance(instance("1", "web", 10)).unwrap();
    let mut removed = registry.remove_stale_at(&at(100), &TimeDelta::seconds(50));
    removed.sort();
    assert_eq!(
        removed,
        vec![
            ("api".to_string(), "1".to_string()),
            ("web".to_string(), "1".to_string())
        ]
    );
    assert_eq!(registry.get_services(), vec!["api".to_string()]);
    assert_eq!(registry.get_urls("api"), vec!["http://api-2".to_string()]);
    assert!(registry
        .remove_stale_at(&at(100), &TimeDelta::seconds(50))
        .is_empty());
    assert_eq!(registry.remove_stale(&TimeDelta::seconds(50)).len(), 1);
    assert_eq!(registry.stats().service_count, 0);
}

#[test]
fn a_heartbeat_keeps_an_instance() {
    let mut registry = ServiceRegistry::new();
    registry.register_instance(instance("1", "api", 0)).unwrap();
    registry.heartbeat_at("api", "1", at(80)).unwrap();
    assert!(registry
        .remove_stale_at(&at(100), &TimeDelta::seconds(50))
        .is_empty());
    let kept = registry.get_instances("api");
    assert_eq!(kept[0].last_heartbeat, at(80));
    assert_eq!(kept[0].registered_at, at(0));
    registry.heartbeat("api", "1").unwrap();
    assert!(registry.remove_stale(&TimeDelta::seconds(60)).is_empty());
}

#[test]
fn marking_back_restores_the_instance() {
    let mut registry = ServiceRegistry::new();
    registry.register_instance(instance("1", "api", 0)).unwrap();
    registry.register_instance(instance("2", "api", 0)).unwrap();
    registry.mark_unhealthy("api", "1").unwrap();
    assert_eq!(
        registry.get_healthy_urls("api"),
        vec!["http://api-2".to_string()]
    );
    assert_eq!(registry.get_urls("api").len(), 2);
    registry.mark_healthy("api", "1").unwrap();
    assert_eq!(registry.get_healthy_urls("api").len(), 2);
}

#[test]
fn changes_are_handed_out_once_and_in_order() {
    let mut registry = ServiceRegistry::new();
    registry.register_instance(instance("1", "api", 0)).unwrap();
    registry.register_instance(instance("1", "web", 0)).unwrap();
    registry.mark_unhealthy("api", "1").unwrap();
    registry.heartbeat_at("api", "1", at(1)).unwrap();
    registry.deregister("api", "1").unwrap();
    registry.remove_stale_at(&at(100), &TimeDelta::seconds(1));
    assert_eq!(registry.take_changes(), vec!["api", "web", "api"]);
    assert!(registry.take_changes().is_empty());
}

#[test]
fn what_is_stale_stays_stale() {
    let i = instance("1", "api", 0);
    assert!(i.is_stale_at(&at(31), &TimeDelta::seconds(30)));
    assert!(i.is_stale_at(&at(90), &TimeDelta::seconds(30)));
    assert!(i.is_stale_at(&at(31), &TimeDelta::seconds(10)));
    assert!(!i.is_stale_at(&at(31), &TimeDelta::new(31, 0).unwrap()));
}
