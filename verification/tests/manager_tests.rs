use armature_ferron::config::{Backend, FerronConfig, LoadBalanceStrategy, LoadBalancer};
use armature_ferron::error::FerronError;
use armature_ferron::health::HealthCheckConfig;
use armature_ferron::manager::{helpers, FerronManager, ManagerAction, ManagerParts};
use armature_ferron::process::ProcessStatus;
use armature_ferron::registry::{ServiceInstance, ServiceRegistry};

#[test]
fn test_reverse_proxy_config() {
    let config = helpers::reverse_proxy_config("example.com", "http://localhost:3000").unwrap();

    assert_eq!(config.domains, vec!["example.com"]);
    assert_eq!(
        config.backend.as_ref().map(|b| b.url.as_str()),
        Some("http://localhost:3000")
    );
    assert!(config.tls.is_some());
}

#[test]
fn test_load_balanced_config() {
    let config = helpers::load_balanced_config(
        "example.com",
        vec!["http://localhost:3001", "http://localhost:3002"],
    )
    .unwrap();

    assert!(config.load_balancer.is_some());
    let lb = config.load_balancer.unwrap();
    assert_eq!(lb.backends.len(), 2);
}

#[test]
fn test_armature_app_config() {
    let config = helpers::armature_app_config("api.example.com", 3000).unwrap();

    assert_eq!(config.domains, vec!["api.example.com"]);
    assert!(!config.locations.is_empty());
    assert!(config.headers.contains_key("X-Frame-Options"));
}

#[test]
fn test_manager_builder() {
    let config = FerronConfig::builder()
        .domain("example.com")
        .backend_url("http://localhost:3000")
        .build()
        .unwrap();

    let result = FerronManager::builder()
        .binary_path("/nonexistent/ferron")
        .config_path("/tmp/test_ferron.conf")
        .config(config)
        .auto_reload(true)
        .auto_restart(true)
        .build();

    assert!(result.is_ok());
}

fn base_config() -> FerronConfig {
    FerronConfig::builder()
        .domain("example.com")
        .backend_url("http://localhost:3000")
        .build()
        .unwrap()
}

fn parts(auto_reload: bool) -> ManagerParts {
    FerronManager::builder()
        .binary_path("/nonexistent/ferron")
        .config_path("/tmp/ferron.conf")
        .config(base_config())
        .auto_reload(auto_reload)
        .build()
        .unwrap()
}

fn backend_urls(manager: &FerronManager) -> Vec<String> {
    match &manager.config().unwrap().load_balancer {
        Some(lb) => lb.backends.iter().map(|b| b.url.clone()).collect(),
        None => vec![],
    }
}

#[test]
fn test_build_spawns_watcher_when_auto_reload_enabled() {
    let mut built = parts(true);
    assert!(built.watch_config);
    built.manager.watcher_started();
    assert!(built.manager.is_watching());
}

#[test]
fn test_build_does_not_spawn_watcher_without_auto_reload() {
    let built = parts(false);
    assert!(!built.watch_config);
    assert!(!built.manager.is_watching());
}

#[test]
fn test_watcher_reload_does_not_regenerate_from_registry() {
    let mut registry = ServiceRegistry::new();
    registry.register("svc", "http://127.0.0.1:9999").unwrap();
    let built = FerronManager::builder()
        .binary_path("/nonexistent/ferron")
        .config_path("/tmp/ferron.conf")
        .config(base_config())
        .service_registry(registry)
        .auto_reload(true)
        .build()
        .unwrap();
    assert!(built.watch_config);
    assert!(built.registry.is_some());
    let mut manager = built.manager;
    manager.watcher_started();
    assert!(manager.is_watching());

    let actions = manager.signal_reload();
    assert!(
        manager.reload_count() >= 1,
        "expected the config file watcher to trigger a reload on an external edit"
    );
    assert!(
        !actions.contains(&ManagerAction::WriteConfig),
        "the watcher's reload path must not rewrite the config file it just observed"
    );
    assert_eq!(actions, vec![ManagerAction::ReloadProcess]);
    assert!(manager.config().unwrap().load_balancer.is_none());
}

#[test]
fn test_stop_terminates_the_watcher_task() {
    let mut manager = parts(true).manager;
    manager.watcher_started();
    assert_eq!(
        manager.stop(),
        vec![ManagerAction::AbortWatcher, ManagerAction::StopProcess]
    );
    assert!(
        !manager.is_watching(),
        "stop() must abort/join the watcher task and clear watch_handle"
    );
    assert_eq!(manager.stop(), vec![ManagerAction::StopProcess]);
    assert!(manager.stop_watching().is_empty());
}

#[test]
fn builder_defaults_and_parts() {
    let built = FerronManager::builder().build().unwrap();
    assert_eq!(built.manager.config_path(), "/etc/ferron/ferron.conf");
    assert!(built.manager.config().is_none());
    assert!(!built.manager.auto_reload());
    assert_eq!(built.manager.reload_count(), 0);
    assert!(!built.write_config);
    assert!(built.registry.is_none());
    assert!(built.health_state.is_none());
    let process = built.process.config();
    assert_eq!(process.binary_path, "ferron");
    assert_eq!(process.config_path, "/etc/ferron/ferron.conf");
    assert!(!process.auto_restart);
    assert_eq!(process.max_restarts, 3);

    let built = FerronManager::builder()
        .working_dir("/srv")
        .auto_restart(true)
        .service_registry(ServiceRegistry::new())
        .health_check(HealthCheckConfig::new().path("/up"))
        .config(base_config())
        .build()
        .unwrap();
    assert!(built.write_config);
    assert!(built.registry.is_some());
    assert_eq!(built.health_state.unwrap().config().path, "/up");
    assert_eq!(
        built.process.config().working_dir,
        Some("/srv".to_string())
    );
    assert!(built.process.config().auto_restart);
}

#[test]
fn start_takes_backends_from_the_registry() {
    let mut registry = ServiceRegistry::new();
    let id = registry.register("a", "http://a1").unwrap();
    registry.register("a", "http://a2").unwrap();
    registry.register("b", "http://b1").unwrap();
    registry.mark_unhealthy("a", &id).unwrap();

    let mut manager = parts(false).manager;
    assert_eq!(
        manager.start(Some(&registry)).unwrap(),
        vec![ManagerAction::WriteConfig, ManagerAction::StartProcess]
    );
    let mut urls = backend_urls(&manager);
    urls.sort();
    assert_eq!(urls, vec!["http://a2".to_string(), "http://b1".to_string()]);
    let config = manager.config().unwrap();
    assert_eq!(config.domains, vec!["example.com"]);
    let lb = config.load_balancer.as_ref().unwrap();
    assert_eq!(lb.strategy, LoadBalanceStrategy::RoundRobin);
    assert!(lb.backends.iter().all(|b| b.weight == 1));

    assert_eq!(
        manager.start(None).unwrap(),
        vec![ManagerAction::StartProcess]
    );
}

#[test]
fn without_healthy_instances_the_load_balancer_stays() {
    let config = FerronConfig::builder()
        .domain("d")
        .load_balancer(LoadBalancer::new().backend(Backend::new("http://fixed").weight(4)))
        .build()
        .unwrap();
    let mut manager = FerronManager::builder().config(config).build().unwrap().manager;
    manager
        .regenerate_config_from_registry(&ServiceRegistry::new())
        .unwrap();
    assert_eq!(backend_urls(&manager), vec!["http://fixed".to_string()]);
}

#[test]
fn a_manager_without_configuration_starts_with_discovered_backends() {
    let mut registry = ServiceRegistry::new();
    registry
        .register("api-service", "http://localhost:3000")
        .unwrap();
    registry
        .register("api-service", "http://localhost:3001")
        .unwrap();
    let built = FerronManager::builder()
        .config_path("/etc/ferron/ferron.conf")
        .service_registry(registry)
        .auto_reload(true)
        .build()
        .unwrap();
    let mut manager = built.manager;
    assert!(manager.config().is_none());
    assert_eq!(
        manager.start(built.registry.as_ref()).unwrap(),
        vec![ManagerAction::WriteConfig, ManagerAction::StartProcess]
    );
    let mut urls = backend_urls(&manager);
    urls.sort();
    assert_eq!(
        urls,
        vec![
            "http://localhost:3000".to_string(),
            "http://localhost:3001".to_string()
        ]
    );
    assert!(manager.config().unwrap().domains.is_empty());
}

#[test]
fn without_configuration_and_backends_there_is_nothing_to_start() {
    let mut registry = ServiceRegistry::new();
    let mut manager = FerronManager::builder()
        .auto_reload(true)
        .build()
        .unwrap()
        .manager;
    match manager.start(Some(&registry)) {
        Err(FerronError::Config(m)) => assert_eq!(m, "No base configuration set"),
        other => panic!("{:?}", other),
    }
    assert!(manager.config().is_none());
    assert!(matches!(
        manager.reload(Some(&registry)),
        Err(FerronError::Config(_))
    ));
    assert_eq!(manager.reload_count(), 1);

    let id = registry.register("svc", "http://s").unwrap();
    let result =
        manager.deregister_backend(Some(&mut registry), "svc", &id, ProcessStatus::Running);
    assert!(matches!(result, Err(FerronError::Config(_))));
    assert!(registry.get_services().is_empty());
    assert_eq!(manager.reload_count(), 1);

    let id = registry.register("svc", "http://s").unwrap();
    registry.mark_unhealthy("svc", &id).unwrap();
    assert!(manager.regenerate_config_from_registry(&registry).is_err());
    assert!(manager.start(None).is_ok());
}

#[test]
fn backends_have_the_weights_of_their_instances() {
    let mut registry = ServiceRegistry::new();
    registry
        .register_instance(ServiceInstance::new("a", "http://heavy").weight(3))
        .unwrap();
    registry
        .register_instance(ServiceInstance::new("b", "http://light"))
        .unwrap();
    let mut manager = parts(false).manager;
    manager.regenerate_config_from_registry(&registry).unwrap();
    let lb = manager.config().unwrap().load_balancer.as_ref().unwrap();
    let mut weights: Vec<(String, u32)> = lb
        .backends
        .iter()
        .map(|b| (b.url.clone(), b.weight))
        .collect();
    weights.sort();
    assert_eq!(
        weights,
        vec![("http://heavy".to_string(), 3), ("http://light".to_string(), 1)]
    );
}

#[test]
fn the_last_backend_leaves_the_configuration() {
    let mut registry = ServiceRegistry::new();
    let mut manager = parts(true).manager;
    let (id, _) = manager
        .register_backend(
            Some(&mut registry),
            "svc",
            "http://only",
            ProcessStatus::Running,
        )
        .unwrap();
    assert_eq!(backend_urls(&manager), vec!["http://only".to_string()]);
    manager
        .deregister_backend(Some(&mut registry), "svc", &id, ProcessStatus::Running)
        .unwrap();
    assert!(registry.get_services().is_empty());
    assert!(manager.config().unwrap().load_balancer.is_none());
    assert_eq!(manager.config().unwrap().domains, vec!["example.com"]);
}

#[test]
fn the_given_load_balancer_comes_back() {
    let fixed = |url: &str| {
        FerronConfig::builder()
            .load_balancer(
                LoadBalancer::new()
                    .backend(Backend::new(url).weight(4))
                    .health_check_interval(7),
            )
            .build()
            .unwrap()
    };
    let mut manager = FerronManager::builder()
        .config(fixed("http://fixed"))
        .build()
        .unwrap()
        .manager;
    let mut registry = ServiceRegistry::new();
    let id = registry.register("svc", "http://s").unwrap();
    manager.regenerate_config_from_registry(&registry).unwrap();
    assert_eq!(backend_urls(&manager), vec!["http://s".to_string()]);
    registry.mark_unhealthy("svc", &id).unwrap();
    manager.regenerate_config_from_registry(&registry).unwrap();
    assert_eq!(backend_urls(&manager), vec!["http://fixed".to_string()]);
    let lb = manager.config().unwrap().load_balancer.as_ref().unwrap();
    assert_eq!(lb.health_check_interval, Some(7));
    assert_eq!(lb.backends[0].weight, 4);

    registry.mark_healthy("svc", &id).unwrap();
    manager.regenerate_config_from_registry(&registry).unwrap();
    manager
        .update_config(fixed("http://other"), Ok(()), ProcessStatus::Stopped)
        .unwrap();
    registry.deregister("svc", &id).unwrap();
    manager.regenerate_config_from_registry(&registry).unwrap();
    assert_eq!(backend_urls(&manager), vec!["http://other".to_string()]);
}

#[test]
fn reloads_are_counted() {
    let registry = ServiceRegistry::new();
    let mut manager = parts(false).manager;
    assert_eq!(
        manager.reload(None).unwrap(),
        vec![ManagerAction::ReloadProcess]
    );
    assert_eq!(
        manager.reload(Some(&registry)).unwrap(),
        vec![ManagerAction::WriteConfig, ManagerAction::ReloadProcess]
    );
    manager.signal_reload();
    assert_eq!(manager.reload_count(), 3);
    assert_eq!(manager.restart(), vec![ManagerAction::RestartProcess]);
    assert_eq!(manager.reload_count(), 3);
}

#[test]
fn an_update_reloads_only_a_running_process() {
    let mut manager = parts(false).manager;
    let other = helpers::reverse_proxy_config("other.com", "http://o").unwrap();
    assert_eq!(
        manager
            .update_config(other, Ok(()), ProcessStatus::Running)
            .unwrap(),
        vec![ManagerAction::ReloadProcess]
    );
    assert_eq!(manager.config().unwrap().domains, vec!["other.com"]);
    assert_eq!(manager.reload_count(), 1);
    assert!(manager
        .update_config(base_config(), Ok(()), ProcessStatus::Stopped)
        .unwrap()
        .is_empty());
    let unwritten = helpers::reverse_proxy_config("lost.com", "http://l").unwrap();
    let failure = Err(FerronError::PermissionDenied("ro".into()));
    match manager.update_config(unwritten, failure, ProcessStatus::Running) {
        Err(FerronError::PermissionDenied(m)) => assert_eq!(m, "ro"),
        other => panic!("{:?}", other),
    }
    assert_eq!(manager.config().unwrap().domains, vec!["example.com"]);
    assert_eq!(manager.reload_count(), 1);
}

#[test]
fn backends_come_and_go_while_the_process_runs() {
    let mut registry = ServiceRegistry::new();
    let mut manager = parts(true).manager;
    let plan = vec![ManagerAction::WriteConfig, ManagerAction::ReloadProcess];
    let (id, actions) = manager
        .register_backend(
            Some(&mut registry),
            "svc",
            "http://s1",
            ProcessStatus::Running,
        )
        .unwrap();
    assert_eq!(actions, plan);
    assert_eq!(backend_urls(&manager), vec!["http://s1".to_string()]);
    let (_, actions) = manager
        .register_backend(
            Some(&mut registry),
            "svc",
            "http://s2",
            ProcessStatus::Stopped,
        )
        .unwrap();
    assert!(actions.is_empty());
    assert_eq!(backend_urls(&manager), vec!["http://s1".to_string()]);
    let actions = manager
        .deregister_backend(Some(&mut registry), "svc", &id, ProcessStatus::Running)
        .unwrap();
    assert_eq!(actions, plan);
    assert_eq!(backend_urls(&manager), vec!["http://s2".to_string()]);
    assert_eq!(manager.reload_count(), 2);
    match manager.deregister_backend(Some(&mut registry), "svc", "x", ProcessStatus::Running) {
        Err(FerronError::ServiceNotFound(m)) => assert_eq!(m, "svc:x"),
        other => panic!("{:?}", other),
    }
}

#[test]
fn backends_need_a_registry() {
    let mut manager = parts(true).manager;
    match manager.register_backend(None, "svc", "http://s", ProcessStatus::Running) {
        Err(FerronError::Registry(m)) => assert_eq!(m, "Service registry not configured"),
        other => panic!("{:?}", other),
    }
    match manager.deregister_backend(None, "svc", "x", ProcessStatus::Running) {
        Err(FerronError::Registry(m)) => assert_eq!(m, "Service registry not configured"),
        other => panic!("{:?}", other),
    }
}

#[test]
fn supervision_checks_all_instances() {
    let mut registry = ServiceRegistry::new();
    let manager = parts(true).manager;
    assert!(manager.start_supervised(true, Some(&registry)).is_none());
    let id = registry.register("svc", "http://s").unwrap();
    registry.mark_unhealthy("svc", &id).unwrap();
    assert_eq!(
        manager.start_supervised(true, Some(&registry)),
        Some(vec!["http://s".to_string()])
    );
    assert!(manager.start_supervised(false, Some(&registry)).is_none());
    assert!(manager.start_supervised(true, None).is_none());
}

#[test]
fn an_application_is_passed_on_by_its_port() {
    let config = helpers::armature_app_config("api.example.com", 3000).unwrap();
    assert_eq!(config.backend.as_ref().unwrap().url, "http://127.0.0.1:3000");
    let locations: Vec<(&str, Option<&str>)> = config
        .locations
        .iter()
        .map(|l| (l.path.as_str(), l.proxy.as_deref()))
        .collect();
    assert_eq!(
        locations,
        vec![
            ("/api", Some("http://127.0.0.1:3000/api")),
            ("/ws", Some("http://127.0.0.1:3000/ws")),
            ("/health", Some("http://127.0.0.1:3000/health")),
        ]
    );
    let limit = config.locations[0].rate_limit.unwrap();
    assert_eq!((limit.requests, limit.burst), (100, Some(200)));
    assert!(config.locations[1].rate_limit.is_none());
    assert_eq!(config.headers.len(), 4);
    assert_eq!(
        config.headers.get("Referrer-Policy"),
        Some(&"strict-origin-when-cross-origin".to_string())
    );
    assert!(config.gzip);
    assert!(config.tls.unwrap().auto);
}

#[test]
fn load_balancers_keep_what_is_set() {
    let lb = LoadBalancer::new()
        .strategy(LoadBalanceStrategy::RoundRobin)
        .backend(Backend::new("http://backend1:3000").weight(3))
        .backend(Backend::new("http://backend2:3000").weight(1))
        .health_check_interval(30);
    let config = FerronConfig::builder()
        .domain("api.example.com")
        .load_balancer(lb)
        .build()
        .unwrap();
    let lb = config.load_balancer.unwrap();
    assert_eq!(lb.backends[0].weight, 3);
    assert_eq!(lb.backends[1].url, "http://backend2:3000");
    assert_eq!(lb.health_check_interval, Some(30));
    assert!(config.tls.is_none());
    assert!(!config.gzip);
}
