use armature_ferron::error::FerronError;
use armature_ferron::process::{
    check_ferron_installed, ferron_binary, reload_outcome, ChildPoll, ExitOutcome, FerronProcess,
    ProcessConfig, ProcessStatus, SpawnOutcome, StopEvent, StopStep, Supervision,
    SupervisionEvent, VersionRun,
};

#[test]
fn test_process_config_builder() {
    let config = ProcessConfig::new("/usr/bin/ferron", "/etc/ferron/ferron.conf")
        .working_dir("/var/www")
        .arg("--verbose")
        .env("RUST_LOG", "debug")
        .auto_restart(true)
        .max_restarts(5);

    assert_eq!(config.binary_path, "/usr/bin/ferron");
    assert_eq!(config.config_path, "/etc/ferron/ferron.conf");
    assert_eq!(config.working_dir, Some("/var/www".to_string()));
    assert_eq!(config.extra_args, vec!["--verbose".to_string()]);
    assert_eq!(config.env_vars.get("RUST_LOG"), Some(&"debug".to_string()));
    assert!(config.auto_restart);
    assert_eq!(config.max_restarts, 5);
}

#[test]
fn test_process_status() {
    let config = ProcessConfig::default();
    let process = FerronProcess::new(config);

    assert_eq!(process.status(), ProcessStatus::Stopped);
    assert!(process.pid().is_none());
}

#[test]
fn test_is_running_true_while_child_is_alive() {
    let mut process = running(7);
    assert_eq!(process.probe_target(ChildPoll::Alive), Some(7));
    assert!(
        process.is_running(ChildPoll::Alive, true),
        "a freshly started, still-sleeping child must report running"
    );
    process.stop().unwrap();
    process.stopped();
    assert!(!process.is_running(ChildPoll::Alive, true));
}

#[test]
fn test_is_running_false_for_exited_unreaped_zombie() {
    let process = running(7);
    assert_eq!(process.probe_target(ChildPoll::Exited), None);
    assert!(
        !process.is_running(ChildPoll::Exited, true),
        "an exited-but-unreaped (zombie) child must not be reported as running"
    );
    assert!(!process.is_running(ChildPoll::Failed, true));
    assert!(!process.is_running(ChildPoll::Alive, false));
}

fn config() -> ProcessConfig {
    ProcessConfig::new("/bin/sh", "sleep 5")
}

fn running(pid: u32) -> FerronProcess {
    let mut process = FerronProcess::new(config());
    process.start().unwrap();
    process.launched(SpawnOutcome::Spawned(Some(pid))).unwrap();
    process
}

#[test]
fn default_process_configuration() {
    let config = ProcessConfig::default();
    assert_eq!(config.binary_path, "ferron");
    assert_eq!(config.config_path, "/etc/ferron/ferron.conf");
    assert_eq!(config.working_dir, None);
    assert!(config.extra_args.is_empty());
    assert!(config.env_vars.is_empty());
    assert_eq!(config.pid_file, Some("/var/run/ferron.pid".to_string()));
    assert_eq!(config.stdout_log, None);
    assert_eq!(config.stderr_log, None);
    assert!(config.auto_restart);
    assert_eq!(config.max_restarts, 3);
    assert_eq!(config.restart_delay_ms, 1000);
    assert_eq!(ProcessStatus::default(), ProcessStatus::Stopped);
}

#[test]
fn validation_asks_for_the_files() {
    let absolute = ProcessConfig::new("/opt/ferron", "f.conf");
    assert!(absolute.validate(true, true).is_ok());
    match absolute.validate(false, false) {
        Err(FerronError::Config(m)) => assert_eq!(m, "Configuration file not found: f.conf"),
        other => panic!("{:?}", other),
    }
    match absolute.validate(true, false) {
        Err(FerronError::ProcessNotFound(m)) => assert_eq!(m, "/opt/ferron"),
        other => panic!("{:?}", other),
    }
    assert!(ProcessConfig::new("ferron", "f.conf").validate(true, false).is_ok());
    assert!(ProcessConfig::new("./ferron", "f.conf").validate(true, false).is_ok());
    assert!(ProcessConfig::new("", "f.conf").validate(true, false).is_ok());
}

#[test]
fn the_command_names_configuration_and_arguments() {
    let config = config().arg("-x").arg("-y").working_dir("/srv").env("A", "1");
    let mut process = FerronProcess::new(config);
    let command = process.start().unwrap();
    assert_eq!(command.program, "/bin/sh");
    assert_eq!(command.args, vec!["-c", "sleep 5", "-x", "-y"]);
    assert_eq!(command.working_dir, Some("/srv".to_string()));
    assert_eq!(command.env_vars.get("A"), Some(&"1".to_string()));
    assert_eq!(process.status(), ProcessStatus::Starting);
}

#[test]
fn a_running_process_is_not_started_again() {
    let mut process = running(41);
    match process.start() {
        Err(FerronError::AlreadyRunning(pid)) => assert_eq!(pid, 41),
        other => panic!("{:?}", other),
    }
    assert_eq!(process.status(), ProcessStatus::Running);

    let mut nameless = FerronProcess::new(config());
    nameless.start().unwrap();
    assert!(nameless.launched(SpawnOutcome::Spawned(None)).unwrap().is_none());
    match nameless.start() {
        Err(FerronError::AlreadyRunning(pid)) => assert_eq!(pid, 0),
        other => panic!("{:?}", other),
    }
}

#[test]
fn the_pid_file_holds_the_identifier() {
    let mut process = FerronProcess::new(config().pid_file("/tmp/f.pid"));
    process.start().unwrap();
    let file = process
        .launched(SpawnOutcome::Spawned(Some(12340)))
        .unwrap()
        .unwrap();
    assert_eq!(file.path, "/tmp/f.pid");
    assert_eq!(file.contents, "12340");
    process.stop().unwrap();
    assert_eq!(process.stopped(), Some("/tmp/f.pid".to_string()));
}

#[test]
fn a_failed_start_is_an_error() {
    let mut process = FerronProcess::new(config());
    process.start().unwrap();
    match process.launched(SpawnOutcome::Failed("no such file".into())) {
        Err(FerronError::StartFailed(m)) => assert_eq!(m, "no such file"),
        other => panic!("{:?}", other),
    }
    assert_eq!(process.status(), ProcessStatus::Error);
    assert!(process.start().is_ok());
}

#[test]
fn stop_undoes_start() {
    let mut process = running(5);
    assert_eq!(process.pid(), Some(5));
    process.stop().unwrap();
    assert_eq!(process.status(), ProcessStatus::Stopping);
    assert!(matches!(process.stop(), Err(FerronError::NotRunning)));
    process.stopped();
    assert_eq!(process.status(), ProcessStatus::Stopped);
    assert_eq!(process.pid(), None);
    assert!(matches!(process.wait(), Err(FerronError::NotRunning)));
}

#[test]
fn a_process_is_killed_only_after_its_time() {
    let mut process = running(5);
    assert_eq!(process.stop().unwrap(), StopStep::Terminate);
    assert_eq!(process.pid(), Some(5));
    assert_eq!(StopStep::after(&StopEvent::Asked), StopStep::WaitFor(10));
    assert_eq!(StopStep::after(&StopEvent::Exited), StopStep::Finish);
    assert_eq!(
        StopStep::after(&StopEvent::WaitFailed("e".into())),
        StopStep::Finish
    );
    assert_eq!(StopStep::after(&StopEvent::TimedOut), StopStep::Kill);
    assert_eq!(StopStep::after(&StopEvent::Killed), StopStep::Finish);
}

#[test]
fn restart_stops_only_what_runs() {
    let plan = running(5).restart();
    assert!(plan.stop_first);
    assert_eq!(plan.pause_ms, 500);
    assert!(!FerronProcess::new(config()).restart().stop_first);
}

#[test]
fn reload_needs_a_running_process() {
    assert_eq!(running(5).reload().unwrap(), 5);
    assert!(matches!(
        FerronProcess::new(config()).reload(),
        Err(FerronError::NotRunning)
    ));
    assert!(reload_outcome(Ok(())).is_ok());
    match reload_outcome(Err("ESRCH".into())) {
        Err(FerronError::ReloadFailed(m)) => assert_eq!(m, "ESRCH"),
        other => panic!("{:?}", other),
    }
}

#[test]
fn wait_hands_out_the_exit_code() {
    let mut process = running(5);
    process.wait().unwrap();
    match process.waited(ExitOutcome::Failed("lost".into())) {
        Err(FerronError::Process(m)) => assert_eq!(m, "lost"),
        other => panic!("{:?}", other),
    }
    assert_eq!(process.status(), ProcessStatus::Running);
    assert_eq!(process.waited(ExitOutcome::Exited(Some(3))).unwrap(), 3);
    assert_eq!(process.status(), ProcessStatus::Stopped);
    assert_eq!(process.pid(), None);
    assert_eq!(process.waited(ExitOutcome::Exited(None)).unwrap(), -1);
}

#[test]
fn supervision_restarts_up_to_the_maximum() {
    let mut process = FerronProcess::new(config().max_restarts(2).restart_delay(70));
    for attempt in 1..3 {
        assert_eq!(
            process.supervise(&SupervisionEvent::Waited(Ok(1))),
            Supervision::Restart {
                attempt,
                delay_ms: 70
            }
        );
    }
    assert_eq!(
        process.supervise(&SupervisionEvent::Waited(Ok(1))),
        Supervision::Exhausted
    );
    assert_eq!(
        process.supervise(&SupervisionEvent::Restarted(Ok(()))),
        Supervision::Wait
    );
    assert_eq!(
        process.supervise(&SupervisionEvent::Waited(Ok(0))),
        Supervision::Exhausted
    );
}

#[test]
fn supervision_ends_without_restarts() {
    let mut process = FerronProcess::new(config().auto_restart(false));
    assert_eq!(process.supervise(&SupervisionEvent::Waited(Ok(1))), Supervision::Disabled);
    let mut process = FerronProcess::new(config());
    assert_eq!(
        process.supervise(&SupervisionEvent::Waited(Err(FerronError::NotRunning))),
        Supervision::WaitFailed
    );
    assert_eq!(
        process.supervise(&SupervisionEvent::Restarted(Err(FerronError::NotRunning))),
        Supervision::StartFailed
    );
    let mut process = FerronProcess::new(config().max_restarts(0));
    assert_eq!(process.supervise(&SupervisionEvent::Waited(Ok(1))), Supervision::Exhausted);
}

#[test]
fn the_version_is_trimmed() {
    let version = check_ferron_installed(
        None,
        VersionRun::Finished {
            success: true,
            stdout: b" \tferron 2.0.1\xff\xc2\xa0\n".to_vec(),
            stderr: vec![],
        },
    );
    assert_eq!(version.unwrap(), "ferron 2.0.1\u{fffd}");
    assert_eq!(ferron_binary(None), "ferron");
    assert_eq!(ferron_binary(Some("/opt/f")), "/opt/f");
}

#[test]
fn a_missing_binary_is_reported() {
    match check_ferron_installed(None, VersionRun::NotStarted("not found".into())) {
        Err(FerronError::ProcessNotFound(m)) => assert_eq!(m, "ferron: not found"),
        other => panic!("{:?}", other),
    }
    let failed = VersionRun::Finished {
        success: false,
        stdout: b"x".to_vec(),
        stderr: b"bad option\n".to_vec(),
    };
    match check_ferron_installed(Some("/opt/f"), failed) {
        Err(FerronError::ProcessNotFound(m)) => {
            assert_eq!(m, "Ferron not found or failed to execute: bad option\n")
        }
        other => panic!("{:?}", other),
    }
}

#[test]
fn a_restart_changes_the_child_only() {
    let mut process = running(5);
    assert_eq!(
        process.supervise(&SupervisionEvent::Waited(Ok(1))),
        Supervision::Restart {
            attempt: 1,
            delay_ms: 1000
        }
    );
    process.stop().unwrap();
    process.stopped();
    process.start().unwrap();
    process.launched(SpawnOutcome::Spawned(Some(6))).unwrap();
    assert_eq!(process.status(), ProcessStatus::Running);
    assert_eq!(process.pid(), Some(6));
    assert_eq!(process.config().binary_path, "/bin/sh");
    assert_eq!(
        process.supervise(&SupervisionEvent::Waited(Ok(1))),
        Supervision::Restart {
            attempt: 2,
            delay_ms: 1000
        }
    );
}

#[test]
fn there_is_no_identifier_unless_running() {
    let mut process = FerronProcess::new(ProcessConfig::new("/bin/sh", "true"));
    process.start().unwrap();
    process.launched(SpawnOutcome::Spawned(Some(9))).unwrap();
    assert_eq!(process.waited(ExitOutcome::Exited(Some(0))).unwrap(), 0);
    assert_eq!(process.status(), ProcessStatus::Stopped);
    assert_eq!(process.pid(), None);

    let mut process = running(5);
    process.waited(ExitOutcome::Exited(Some(1))).unwrap();
    process.start().unwrap();
    assert_eq!(process.pid(), None);
    assert!(process.launched(SpawnOutcome::Failed("gone".into())).is_err());
    assert_eq!(process.status(), ProcessStatus::Error);
    assert_eq!(process.pid(), None);

    let mut process = running(5);
    process.stop().unwrap();
    process.start().unwrap();
    assert_eq!(process.pid(), None);
}
