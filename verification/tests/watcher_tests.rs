use armature_ferron::config::FerronConfig;
use armature_ferron::manager::{FerronManager, ManagerAction, ManagerParts};
use armature_ferron::registry::ServiceRegistry;
use armature_ferron::watcher::{
    watch_target, ConfigWatcher, EventKind, WatchCommand, WatchEvent, WatchInput, WatchSignal,
};

const MS: u64 = 1_000_000;

fn event(kind: EventKind, path: &str) -> WatchInput {
    WatchInput::Event(WatchEvent {
        kind,
        paths: vec![path.to_string()],
    })
}

fn write() -> WatchInput {
    event(EventKind::Modify, "/etc/ferron/ferron.conf")
}

fn watcher() -> ConfigWatcher {
    ConfigWatcher::new("/etc/ferron/ferron.conf", true)
}

#[test]
fn test_watcher_task_ends_when_manager_dropped() {
    let mut w = watcher();
    assert_eq!(w.step(&write(), false, 0), WatchCommand::Exit);
    let mut w = watcher();
    assert_eq!(
        w.step(&WatchInput::WatchError, false, 0),
        WatchCommand::Exit
    );
}

#[test]
fn test_watcher_does_not_self_perpetuate_reload_loop_with_registry() {
    let mut registry = ServiceRegistry::new();
    registry.register("svc", "http://127.0.0.1:9999").unwrap();
    let built = manager_with(Some(registry));
    let mut manager = built.manager;
    assert!(built.watch_config);
    manager.watcher_started();
    assert!(manager.is_watching());

    let count_a = react(&mut manager, vec![(100 * MS, write())], 1600 * MS);
    assert!(
        count_a <= 2,
        "a single external edit must produce at most one reload, got {count_a}"
    );
    let count_b = react(&mut manager, vec![], 3100 * MS);
    assert_eq!(count_a, 1);
    assert_eq!(
        count_a, count_b,
        "reload_count must stabilize after the single external edit"
    );
    assert!(manager.config().unwrap().load_balancer.is_none());
    assert_eq!(
        manager.start(built.registry.as_ref()).unwrap()[0],
        ManagerAction::WriteConfig
    );
}

#[test]
fn test_watcher_debounces_rapid_successive_writes_into_one_reload() {
    let mut manager = manager_with(None).manager;
    let events = (0..5).map(|i| (100 * MS + 20 * MS * i, write())).collect();
    let last = react(&mut manager, events, 2100 * MS);
    assert_eq!(
        last, 1,
        "5 rapid successive writes within the debounce window must collapse into a single reload"
    );
}

/// The times at which a watcher reloads when events happen at given times.
fn reload_times(mut events: Vec<(u64, WatchInput)>, until: u64) -> Vec<u64> {
    let mut w = watcher();
    let mut command = WatchCommand::Receive;
    let mut now = 0;
    let mut times = vec![];
    events.reverse();
    loop {
        let wait_until = match command {
            WatchCommand::Receive => until,
            WatchCommand::ReceiveFor(nanos) => now + nanos,
            WatchCommand::Reload => {
                times.push(now);
                command = WatchCommand::Receive;
                continue;
            }
            WatchCommand::Exit => return times,
        };
        let next = events.last().map(|e| e.0);
        match next {
            Some(at) if at < wait_until => {
                now = at;
                let (_, input) = events.pop().unwrap();
                command = w.step(&input, true, now);
            }
            _ if wait_until >= until => return times,
            _ => {
                now = wait_until;
                command = w.step(&WatchInput::TimedOut, true, now);
            }
        }
    }
}

/// Lets a manager react to events, and to what its reactions write, and returns
/// how often it has signalled a reload.
fn react(manager: &mut FerronManager, events: Vec<(u64, WatchInput)>, until: u64) -> u64 {
    let mut pending = events;
    while !pending.is_empty() {
        let times = reload_times(std::mem::take(&mut pending), until);
        for at in times {
            for action in manager.signal_reload() {
                if action == ManagerAction::WriteConfig {
                    pending.push((at, write()));
                }
            }
        }
    }
    manager.reload_count()
}

fn manager_with(registry: Option<ServiceRegistry>) -> ManagerParts {
    let config = FerronConfig::builder()
        .domain("example.com")
        .backend_url("http://localhost:3000")
        .build()
        .unwrap();
    let mut builder = FerronManager::builder()
        .binary_path("/nonexistent/ferron")
        .config_path("/etc/ferron/ferron.conf")
        .config(config)
        .auto_reload(true);
    if let Some(registry) = registry {
        builder = builder.service_registry(registry);
    }
    builder.build().unwrap()
}

#[test]
fn each_run_of_changes_ends_in_one_reload() {
    let noise = || event(EventKind::Other, "/etc/ferron/ferron.conf");
    let events = vec![
        (100 * MS, write()),
        (300 * MS, write()),
        (540 * MS, noise()),
        (560 * MS, noise()),
        (900 * MS, write()),
        (1150 * MS, write()),
        (1390 * MS, write()),
        (1600 * MS, noise()),
    ];
    assert_eq!(
        reload_times(events, 5000 * MS),
        vec![550 * MS, 1150 * MS, 1640 * MS]
    );
}

#[test]
fn only_changes_of_the_watched_file_count() {
    let w = watcher();
    assert_eq!(w.watched(), Some("ferron.conf".to_string()));
    assert_eq!(w.classify(&write()), WatchSignal::Change);
    assert_eq!(
        w.classify(&event(EventKind::Create, "ferron.conf")),
        WatchSignal::Change
    );
    assert_eq!(
        w.classify(&event(EventKind::Other, "/etc/ferron/ferron.conf")),
        WatchSignal::Noise
    );
    assert_eq!(
        w.classify(&event(EventKind::Modify, "/etc/ferron/other.conf")),
        WatchSignal::Noise
    );
    assert_eq!(
        w.classify(&WatchInput::Event(WatchEvent {
            kind: EventKind::Modify,
            paths: vec!["/etc/ferron/tmp".into(), "/etc/ferron/ferron.conf/".into()],
        })),
        WatchSignal::Change
    );
    assert_eq!(
        w.classify(&WatchInput::Event(WatchEvent {
            kind: EventKind::Modify,
            paths: vec![],
        })),
        WatchSignal::Noise
    );
    assert_eq!(w.classify(&WatchInput::WatchError), WatchSignal::Noise);
    assert_eq!(
        ConfigWatcher::new("..", true).classify(&event(EventKind::Modify, "/")),
        WatchSignal::Change
    );
}

#[test]
fn noise_does_not_put_a_reload_off() {
    let mut w = watcher();
    w.step(&write(), true, 1000 * MS);
    let noise = event(EventKind::Other, "/etc/ferron/ferron.conf");
    assert_eq!(
        w.step(&noise, true, 1200 * MS),
        WatchCommand::ReceiveFor(50 * MS)
    );
    assert_eq!(
        w.step(&WatchInput::WatchError, true, 1249 * MS),
        WatchCommand::ReceiveFor(MS)
    );
    assert_eq!(w.step(&noise, true, 1250 * MS), WatchCommand::Reload);
    assert_eq!(w.step(&noise, true, 1250 * MS), WatchCommand::Receive);
}

#[test]
fn a_due_reload_comes_before_the_end() {
    let mut w = watcher();
    w.step(&write(), true, 0);
    assert_eq!(w.step(&WatchInput::Closed, false, 1), WatchCommand::Reload);
    assert_eq!(w.step(&WatchInput::Closed, true, 1), WatchCommand::Exit);
}

#[test]
fn nothing_is_reloaded_unless_enabled() {
    let mut w = ConfigWatcher::new("ferron.conf", false);
    assert_eq!(
        w.step(&event(EventKind::Modify, "./ferron.conf"), true, 0),
        WatchCommand::Receive
    );
    assert_eq!(w.step(&WatchInput::TimedOut, true, 9), WatchCommand::Receive);
}

#[test]
fn the_directory_of_the_file_is_watched() {
    assert_eq!(watch_target("/etc/ferron/ferron.conf"), "/etc/ferron");
    assert_eq!(watch_target("ferron.conf"), ".");
    assert_eq!(watch_target("./ferron.conf"), ".");
    assert_eq!(watch_target("conf/ferron.conf"), "conf");
    assert_eq!(watch_target("/ferron.conf"), "/");
    assert_eq!(watch_target("/"), ".");
}
