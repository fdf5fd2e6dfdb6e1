//! What holds of a process over several steps.

use crate::error::{FerronError, Result};
use crate::process::{
    ChildPoll, ExitOutcome, FerronProcess, LaunchCommand, PidFile, ProcessConfig, ProcessConfigView,
    ProcessStatus, ProcessView, RestartPlan, SpawnOutcome, StopEvent, StopStep, Supervision,
    SupervisionEvent, VersionRun, STOP_TIMEOUT_SECS,
};
use vstd::prelude::*;

verus! {

/// A process that is started and stopped is as it was before it was started,
/// if it was stopped.
pub proof fn law_stop_undoes_start(process: ProcessView, pid: Option<u32>)
    requires
        process.valid(),
        process.status == ProcessStatus::Stopped,
        !process.child,
    ensures
        process.idle_as(ProcessStatus::Starting).running_as(pid).stopping().shut_down()
            == process,
{
}

/// A process that is restarted while it runs is as it was, but for the
/// identifier of its child.
pub proof fn law_restart_changes_the_child_only(process: ProcessView, pid: Option<u32>)
    requires
        process.valid(),
        process.status == ProcessStatus::Running,
    ensures
        process.stopping().shut_down().idle_as(ProcessStatus::Starting).running_as(pid) == (
        ProcessView { pid, ..process }),
{
}

/// Starting, stopping, exiting and a failed start never touch the
/// configuration or the number of restarts; only supervision counts those.
pub proof fn law_only_supervision_counts_restarts(
    process: ProcessView,
    status: ProcessStatus,
    pid: Option<u32>,
    decision: Supervision,
)
    ensures
        process.idle_as(status).config == process.config,
        process.idle_as(status).restart_count == process.restart_count,
        process.stopping().config == process.config,
        process.stopping().restart_count == process.restart_count,
        process.running_as(pid).config == process.config,
        process.running_as(pid).restart_count == process.restart_count,
        process.shut_down().config == process.config,
        process.shut_down().restart_count == process.restart_count,
        process.supervised(decision).config == process.config,
        process.supervised(decision).status == process.status,
        process.supervised(decision).pid == process.pid,
        process.supervised(decision).child == process.child,
{
}

/// A process that has exited, failed to start or was stopped has no identifier.
pub proof fn law_no_identifier_unless_running(process: ProcessView)
    requires
        process.valid(),
        process.status != ProcessStatus::Running,
        process.status != ProcessStatus::Stopping,
    ensures
        process.pid is None,
        process.shut_down().pid is None,
        forall|status: ProcessStatus| (#[trigger] process.idle_as(status)).pid is None,
{
}

/// A process that is asked to stop is given its time, is killed only when that
/// has passed, and whatever comes of that is the end of it.
pub proof fn law_kill_follows_a_timeout(event: StopEvent)
    ensures
        crate::process::next_stop_step(event) == StopStep::Kill <==> event is TimedOut,
        crate::process::next_stop_step(StopEvent::Asked) == StopStep::WaitFor(STOP_TIMEOUT_SECS),
        crate::process::next_stop_step(StopEvent::Killed) == StopStep::Finish,
        crate::process::next_stop_step(event) != StopStep::Terminate,
{
}

/// A process whose child has exited is never taken for running, though its
/// identifier may still take signals; nor is one whose child is gone.
pub proof fn law_exited_child_is_not_running(process: ProcessView, poll: ChildPoll)
    ensures
        poll != ChildPoll::Alive ==> !process.seems_alive(poll),
        !process.child ==> !process.seems_alive(poll),
        !process.shut_down().seems_alive(poll),
        !process.idle_as(ProcessStatus::Stopped).seems_alive(poll),
{
}

/// The state after supervision has learned of some events. What else becomes of
/// the process between them does not touch what supervision goes by.
pub open spec fn after_events(process: ProcessView, events: Seq<SupervisionEvent>) -> ProcessView
    decreases events.len(),
{
    if events.len() == 0 {
        process
    } else {
        let before = after_events(process, events.drop_last());
        before.supervised(before.supervision(events.last()))
    }
}

/// The number of restarts that some events lead to.
pub open spec fn restarts(process: ProcessView, events: Seq<SupervisionEvent>) -> nat
    decreases events.len(),
{
    if events.len() == 0 {
        0
    } else {
        let before = after_events(process, events.drop_last());
        restarts(process, events.drop_last()) + if before.supervision(events.last()) is Restart {
            1nat
        } else {
            0nat
        }
    }
}

/// How many of some events are exits of the process.
pub open spec fn exits(events: Seq<SupervisionEvent>) -> nat
    decreases events.len(),
{
    if events.len() == 0 {
        0
    } else {
        exits(events.drop_last()) + if events.last() matches SupervisionEvent::Waited(Ok(_)) {
            1nat
        } else {
            0nat
        }
    }
}

/// With auto restart every exit is followed by a restart until the maximum is
/// reached, and by none after it; without it none is. Restarts are numbered one
/// by one.
pub proof fn law_restarts_are_bounded(process: ProcessView, events: Seq<SupervisionEvent>)
    requires
        process.valid(),
    ensures
        restarts(process, events) == if !process.config.auto_restart {
            0
        } else if exits(events) <= process.config.max_restarts - process.restart_count {
            exits(events) as int
        } else {
            process.config.max_restarts - process.restart_count
        },
        after_events(process, events) == (ProcessView {
            restart_count: (process.restart_count + restarts(process, events)) as u32,
            ..process
        }),
        after_events(process, events).valid(),
    decreases events.len(),
{
    if events.len() > 0 {
        law_restarts_are_bounded(process, events.drop_last());
    }
}

/// Once the restarts are used up, supervision never restarts again.
pub proof fn law_exhausted_stays_exhausted(process: ProcessView, events: Seq<SupervisionEvent>)
    requires
        process.valid(),
        process.after_exit() == Supervision::Exhausted,
    ensures
        after_events(process, events).after_exit() == Supervision::Exhausted,
        restarts(process, events) == 0,
    decreases events.len(),
{
    if events.len() > 0 {
        law_exhausted_stays_exhausted(process, events.drop_last());
    }
}

/// Only an exit leads to a restart; a process that was started again is waited
/// for, and every failure ends supervision.
pub proof fn law_failures_end_supervision(process: ProcessView, event: SupervisionEvent)
    ensures
        process.supervision(event) is Restart ==> event matches SupervisionEvent::Waited(Ok(_)),
        process.supervision(event) is Wait <==> event matches SupervisionEvent::Restarted(Ok(_)),
        event matches SupervisionEvent::Waited(Err(_)) ==> process.supervision(event)
            == Supervision::WaitFailed,
        event matches SupervisionEvent::Restarted(Err(_)) ==> process.supervision(event)
            == Supervision::StartFailed,
{
}

/// The command of a process is its binary with `-c`, the configuration path and
/// then the extra arguments, one for one, in its directory and environment.
pub proof fn law_command_names_configuration_and_arguments(
    process: &mut FerronProcess,
    command: LaunchCommand,
)
    requires
        call_ensures(FerronProcess::start, (process,), Ok(command)),
    ensures
        ({
            let config = old(process)@.config;
            let args = command.args@;
            &&& command.program@ == config.binary_path
            &&& args.len() == 2 + config.extra_args.len()
            &&& args[0]@ == "-c"@
            &&& args[1]@ == config.config_path
            &&& forall|i: int|
                0 <= i < config.extra_args.len() ==> (#[trigger] args[2 + i])@
                    == config.extra_args[i]
            &&& command.working_dir is Some <==> config.working_dir is Some
            &&& command.working_dir is Some ==> command.working_dir->0@ == config.working_dir->0
            &&& command.env_vars@ == config.env_vars
        }),
{
    let config = old(process)@.config;
    let told = crate::text::texts(command.args@);
    assert(told == command@.args);
    assert(told.len() == command.args@.len());
    assert(told[0] == command.args@[0]@);
    assert(told[1] == command.args@[1]@);
    assert forall|i: int| 0 <= i < config.extra_args.len() implies (#[trigger] command.args@[2
        + i])@ == config.extra_args[i] by {
        assert(told[2 + i] == command.args@[2 + i]@);
    }
    assert(command@.working_dir == crate::text::opt_text(command.working_dir));
    assert(command@.program == command.program@ && command@.env_vars == command.env_vars@);
}

/// The command of every configuration begins with `-c` and the configuration
/// path; what follows are the extra arguments.
pub proof fn law_command_arguments(config: ProcessConfigView)
    ensures
        config.command().args.len() == 2 + config.extra_args.len(),
        config.command().args[0] == "-c"@,
        config.command().args[1] == config.config_path,
        config.command().args.skip(2) == config.extra_args,
        config.command().program == config.binary_path,
        config.command().working_dir == config.working_dir,
        config.command().env_vars == config.env_vars,
{
    assert(config.command().args.skip(2) =~= config.extra_args);
}

/// A process is started unless it runs; it is then starting, without an
/// identifier. One that runs is named by its identifier and left alone.
pub proof fn law_start_unless_running(process: &mut FerronProcess, r: Result<LaunchCommand>)
    requires
        call_ensures(FerronProcess::start, (process,), r),
    ensures
        r is Ok <==> old(process)@.status != ProcessStatus::Running,
        r is Ok ==> {
            &&& final(process)@.status == ProcessStatus::Starting
            &&& final(process)@.pid is None
            &&& final(process)@.child == old(process)@.child
        },
        r matches Err(e) ==> {
            &&& e matches FerronError::AlreadyRunning(pid)
            &&& old(process)@.pid is Some ==> old(process)@.pid == Some(pid)
            &&& old(process)@.pid is None ==> pid == 0
            &&& final(process)@ == old(process)@
        },
        final(process)@.config == old(process)@.config,
        final(process)@.restart_count == old(process)@.restart_count,
{
}

/// A child that was made runs under its identifier, which is written to the PID
/// file if there is one; a start that failed leaves an error and says why.
pub proof fn law_launch_runs_or_fails(
    process: &mut FerronProcess,
    outcome: SpawnOutcome,
    r: Result<Option<PidFile>>,
)
    requires
        call_ensures(FerronProcess::launched, (process, outcome), r),
    ensures
        outcome matches SpawnOutcome::Spawned(pid) ==> {
            &&& final(process)@.status == ProcessStatus::Running
            &&& final(process)@.pid == pid
            &&& final(process)@.child
            &&& r is Ok
            &&& r->Ok_0 is Some <==> pid is Some && old(process)@.config.pid_file is Some
            &&& r->Ok_0 is Some ==> {
                let file = r->Ok_0->0;
                &&& file.path@ == old(process)@.config.pid_file->0
                &&& crate::text::laws::number(file.contents@) == pid->0
            }
        },
        outcome matches SpawnOutcome::Failed(message) ==> {
            &&& final(process)@.status == ProcessStatus::Error
            &&& final(process)@.pid is None
            &&& final(process)@.child == old(process)@.child
            &&& r matches Err(FerronError::StartFailed(m)) && m@ == message@
        },
        final(process)@.config == old(process)@.config,
        final(process)@.restart_count == old(process)@.restart_count,
{
    match outcome {
        SpawnOutcome::Spawned(Some(pid)) => {
            crate::text::laws::law_decimal_is_unambiguous(pid as nat, pid as nat);
        },
        _ => {},
    }
}

/// Only a process that runs is asked to stop, and to terminate comes first; it
/// is then stopping and keeps its identifier. Any other is left alone.
pub proof fn law_stop_only_what_runs(process: &mut FerronProcess, r: Result<StopStep>)
    requires
        call_ensures(FerronProcess::stop, (process,), r),
    ensures
        r is Ok <==> old(process)@.status == ProcessStatus::Running,
        r matches Ok(step) ==> {
            &&& step == StopStep::Terminate
            &&& final(process)@.status == ProcessStatus::Stopping
            &&& final(process)@.pid == old(process)@.pid
            &&& final(process)@.child == old(process)@.child
        },
        r matches Err(e) ==> e is NotRunning && final(process)@ == old(process)@,
        final(process)@.config == old(process)@.config,
        final(process)@.restart_count == old(process)@.restart_count,
{
}

/// What follows each step to stop a process: 10 seconds to terminate, a kill only
/// if they pass, and then the end.
pub proof fn law_steps_to_stop(event: StopEvent, r: StopStep)
    requires
        call_ensures(StopStep::after, (&event,), r),
    ensures
        event is Asked ==> r == StopStep::WaitFor(10),
        event is TimedOut ==> r == StopStep::Kill,
        event is Exited || event is WaitFailed || event is Killed ==> r == StopStep::Finish,
{
}

/// A process that was stopped has no child and no identifier, and its PID file is
/// named for removal.
pub proof fn law_stopped_is_gone(process: &mut FerronProcess, r: Option<String>)
    requires
        call_ensures(FerronProcess::stopped, (process,), r),
    ensures
        final(process)@.status == ProcessStatus::Stopped,
        final(process)@.pid is None,
        !final(process)@.child,
        final(process)@.config == old(process)@.config,
        final(process)@.restart_count == old(process)@.restart_count,
        r is Some <==> old(process)@.config.pid_file is Some,
        r is Some ==> r->0@ == old(process)@.config.pid_file->0,
{
}

/// A restart stops the process first exactly when it runs, and pauses for half a
/// second.
pub proof fn law_restart_stops_what_runs(process: FerronProcess, r: RestartPlan)
    requires
        call_ensures(FerronProcess::restart, (&process,), r),
    ensures
        r.stop_first <==> process@.status == ProcessStatus::Running,
        r.pause_ms == 500,
{
}

/// A reload is signalled to the identifier of a process that runs; without one
/// there is nothing to signal. What came of the signal is handed on.
pub proof fn law_reload_signals_what_runs(
    process: FerronProcess,
    target: Result<u32>,
    sent: core::result::Result<(), String>,
    r: Result<()>,
)
    ensures
        call_ensures(FerronProcess::reload, (&process,), target) ==> {
            &&& target is Ok <==> process@.status == ProcessStatus::Running && process@.pid is Some
            &&& target matches Ok(pid) ==> process@.pid == Some(pid)
            &&& target matches Err(e) ==> e is NotRunning
        },
        call_ensures(crate::process::reload_outcome, (sent,), r) ==> {
            &&& r is Ok <==> sent is Ok
            &&& sent matches Err(message) ==> r is Err && r->Err_0 is ReloadFailed
                && r->Err_0->ReloadFailed_0@ == message@
        },
{
}

/// A process can be waited for exactly when it has a child. When it has exited,
/// it is stopped, has no identifier, and its code is handed on; when it could
/// not be waited for, it is left as it was.
pub proof fn law_exit_is_noted(
    process: &mut FerronProcess,
    before: FerronProcess,
    ready: Result<()>,
    outcome: ExitOutcome,
    r: Result<i32>,
)
    requires
        call_ensures(FerronProcess::wait, (&before,), ready),
        call_ensures(FerronProcess::waited, (process, outcome), r),
    ensures
        ready is Ok <==> before@.child,
        ready matches Err(e) ==> e is NotRunning,
        outcome matches ExitOutcome::Exited(code) ==> {
            &&& final(process)@.status == ProcessStatus::Stopped
            &&& final(process)@.pid is None
            &&& final(process)@.child == old(process)@.child
            &&& r is Ok
            &&& code is Some ==> r->Ok_0 == code->0
            &&& code is None ==> r->Ok_0 == -1
        },
        outcome matches ExitOutcome::Failed(message) ==> {
            &&& final(process)@ == old(process)@
            &&& r matches Err(FerronError::Process(m)) && m@ == message@
        },
        final(process)@.config == old(process)@.config,
        final(process)@.restart_count == old(process)@.restart_count,
{
}

/// A process is running exactly when it has a child that has not exited, has an
/// identifier, and that identifier takes a signal; only then is it probed.
pub proof fn law_running_is_alive_and_reachable(
    process: FerronProcess,
    poll: ChildPoll,
    probe_ok: bool,
    target: Option<u32>,
    r: bool,
)
    requires
        call_ensures(FerronProcess::probe_target, (&process, poll), target),
        call_ensures(FerronProcess::is_running, (&process, poll, probe_ok), r),
    ensures
        target is Some <==> process@.child && poll == ChildPoll::Alive && process@.pid is Some,
        target is Some ==> target == process@.pid,
        r <==> target is Some && probe_ok,
{
}

/// What supervision does: after an exit it restarts, as often and after as long
/// as is configured, and counts; after a restart it waits; after a failure it
/// ends.
pub proof fn law_supervision_step(
    process: &mut FerronProcess,
    event: SupervisionEvent,
    r: Supervision,
)
    requires
        call_ensures(FerronProcess::supervise, (process, &event), r),
    ensures
        ({
            let config = old(process)@.config;
            let count = old(process)@.restart_count;
            &&& (event matches SupervisionEvent::Waited(Ok(_))) ==> {
                &&& r is Restart <==> config.auto_restart && count < config.max_restarts
                &&& r == Supervision::Disabled <==> !config.auto_restart
                &&& r == Supervision::Exhausted <==> config.auto_restart && count
                    >= config.max_restarts
            }
            &&& (event matches SupervisionEvent::Waited(Err(_))) ==> r == Supervision::WaitFailed
            &&& (event matches SupervisionEvent::Restarted(Ok(_))) ==> r == Supervision::Wait
            &&& (event matches SupervisionEvent::Restarted(Err(_))) ==> r
                == Supervision::StartFailed
            &&& r matches Supervision::Restart { attempt, delay_ms } ==> {
                &&& attempt == count + 1
                &&& delay_ms == config.restart_delay_ms
                &&& final(process)@.restart_count == count + 1
            }
            &&& !(r is Restart) ==> final(process)@.restart_count == count
        }),
        final(process)@.config == old(process)@.config,
        final(process)@.status == old(process)@.status,
        final(process)@.pid == old(process)@.pid,
        final(process)@.child == old(process)@.child,
{
}

/// A new process is stopped, has no child and no identifier, and was never
/// restarted; its getters tell what it is.
pub proof fn law_new_process_is_stopped(
    config: ProcessConfig,
    fresh: FerronProcess,
    process: FerronProcess,
    status: ProcessStatus,
    pid: Option<u32>,
)
    ensures
        call_ensures(FerronProcess::new, (config,), fresh) ==> {
            &&& fresh@.config == config@
            &&& fresh@.status == ProcessStatus::Stopped
            &&& fresh@.pid is None && !fresh@.child && fresh@.restart_count == 0
        },
        call_ensures(FerronProcess::status, (&process,), status) ==> status == process@.status,
        call_ensures(FerronProcess::pid, (&process,), pid) ==> {
            &&& pid == process@.pid
            &&& pid is Some ==> process@.status == ProcessStatus::Running || process@.status
                == ProcessStatus::Stopping
        },
{
}

/// A configuration is valid exactly when there is a configuration file, and a
/// binary where one is named by an absolute path. The configuration file is
/// missed first.
pub proof fn law_validation_misses_files(
    config: ProcessConfig,
    config_found: bool,
    binary_found: bool,
    r: Result<()>,
)
    requires
        call_ensures(ProcessConfig::validate, (&config, config_found, binary_found), r),
    ensures
        ({
            let absolute = config.binary_path@.len() > 0 && config.binary_path@[0] == '/';
            &&& r is Ok <==> config_found && (binary_found || !absolute)
            &&& !config_found ==> r is Err && r->Err_0 is Config && r->Err_0->Config_0@
                == "Configuration file not found: "@ + config.config_path@
            &&& config_found && absolute && !binary_found ==> r is Err
                && r->Err_0 is ProcessNotFound && r->Err_0->ProcessNotFound_0@
                == config.binary_path@
        }),
{
}

/// A process configuration has the paths it was made with; all else is as it is
/// by default.
pub proof fn law_new_configuration(binary: &str, config_path: &str, c: ProcessConfig)
    requires
        call_ensures(ProcessConfig::new, (binary, config_path), c),
    ensures
        c.binary_path@ == binary@,
        c.config_path@ == config_path@,
        c.working_dir is None && c.stdout_log is None && c.stderr_log is None,
        c.extra_args@.len() == 0,
        forall|k: Seq<char>| !#[trigger] c.env_vars@.contains_key(k),
        c.pid_file is Some && c.pid_file->0@ == "/var/run/ferron.pid"@,
        c.auto_restart,
        c.max_restarts == 3,
        c.restart_delay_ms == 1000,
{
    assert(c@.extra_args.len() == c.extra_args@.len());
    assert(c@.pid_file == crate::text::opt_text(c.pid_file));
    assert(c@.working_dir == crate::text::opt_text(c.working_dir));
    assert(c@.stdout_log == crate::text::opt_text(c.stdout_log));
    assert(c@.stderr_log == crate::text::opt_text(c.stderr_log));
    assert(c@.env_vars == c.env_vars@);
}

/// Each setting of a process configuration sets its own value and nothing else.
pub proof fn law_configuration_sets_one_value(
    c: ProcessConfig,
    text: &str,
    flag: bool,
    max: u32,
    delay: u64,
    r: ProcessConfig,
)
    ensures
        call_ensures(ProcessConfig::working_dir, (c, text), r) ==> r@.working_dir == Some(text@)
            && r@ == (ProcessConfigView { working_dir: r@.working_dir, ..c@ }),
        call_ensures(ProcessConfig::pid_file, (c, text), r) ==> r@.pid_file == Some(text@) && r@ == (
        ProcessConfigView { pid_file: r@.pid_file, ..c@ }),
        call_ensures(ProcessConfig::stdout_log, (c, text), r) ==> r@.stdout_log == Some(text@) && r@
            == (ProcessConfigView { stdout_log: r@.stdout_log, ..c@ }),
        call_ensures(ProcessConfig::stderr_log, (c, text), r) ==> r@.stderr_log == Some(text@) && r@
            == (ProcessConfigView { stderr_log: r@.stderr_log, ..c@ }),
        call_ensures(ProcessConfig::auto_restart, (c, flag), r) ==> r.auto_restart == flag && r@ == (
        ProcessConfigView { auto_restart: r@.auto_restart, ..c@ }),
        call_ensures(ProcessConfig::max_restarts, (c, max), r) ==> r.max_restarts == max && r@ == (
        ProcessConfigView { max_restarts: r@.max_restarts, ..c@ }),
        call_ensures(ProcessConfig::restart_delay, (c, delay), r) ==> r.restart_delay_ms == delay
            && r@ == (ProcessConfigView { restart_delay_ms: r@.restart_delay_ms, ..c@ }),
{
}

/// Arguments are added after those that are there, and a variable that is set
/// leaves the others alone.
pub proof fn law_arguments_and_variables_are_added(
    c: ProcessConfig,
    key: &str,
    value: &str,
    r: ProcessConfig,
    other: Seq<char>,
)
    ensures
        call_ensures(ProcessConfig::arg, (c, key), r) ==> {
            &&& r@.extra_args.len() == c@.extra_args.len() + 1
            &&& r@.extra_args.last() == key@
            &&& r@.extra_args.drop_last() == c@.extra_args
            &&& r@ == (ProcessConfigView { extra_args: r@.extra_args, ..c@ })
        },
        call_ensures(ProcessConfig::env, (c, key, value), r) ==> {
            &&& r.env_vars@.contains_key(key@) && r.env_vars@[key@] == value@
            &&& other != key@ ==> (r.env_vars@.contains_key(other) <==> c.env_vars@.contains_key(
                other,
            ))
            &&& other != key@ && c.env_vars@.contains_key(other) ==> r.env_vars@[other]
                == c.env_vars@[other]
            &&& r@ == (ProcessConfigView { env_vars: r@.env_vars, ..c@ })
        },
{
    if call_ensures(ProcessConfig::arg, (c, key), r) {
        assert(r@.extra_args.drop_last() =~= c@.extra_args);
    }
}

/// The version is what the binary wrote, without white space at its ends; a
/// binary that failed, or could not be executed, is reported with what it or the
/// system said.
pub proof fn law_version_is_what_was_written(
    success: bool,
    stdout: &str,
    stderr: &str,
    r: Result<String>,
    trimmed: String,
)
    requires
        call_ensures(crate::process::reported_version, (success, stdout, stderr), r),
        call_ensures(crate::text::trim, (stdout,), trimmed),
    ensures
        r is Ok <==> success,
        r matches Ok(version) ==> version@ == trimmed@,
        r matches Err(e) ==> e is ProcessNotFound && e->ProcessNotFound_0@
            == "Ferron not found or failed to execute: "@ + stderr@,
{
}

/// What asking for the version comes to: of a run that ended, what was written is
/// reported; of one that could not begin, the binary and the reason are.
pub proof fn law_installed_is_what_the_run_says(
    path: Option<&str>,
    run: VersionRun,
    binary: String,
    r: Result<String>,
)
    requires
        call_ensures(crate::process::check_ferron_installed, (path, run), r),
        call_ensures(crate::process::ferron_binary, (path,), binary),
    ensures
        path is Some ==> binary@ == path->0@,
        path is None ==> binary@ == "ferron"@,
        run matches VersionRun::NotStarted(message) ==> r is Err && r->Err_0 is ProcessNotFound
            && r->Err_0->ProcessNotFound_0@ == binary@ + ": "@ + message@,
        run matches VersionRun::Finished { success, stdout, stderr } ==> {
            &&& r is Ok <==> success
            &&& success && vstd::utf8::valid_utf8(stdout@) ==> r->Ok_0@ == crate::text::trimmed(
                vstd::utf8::decode_utf8(stdout@),
            )
            &&& !success ==> r->Err_0 is ProcessNotFound
            &&& !success && vstd::utf8::valid_utf8(stderr@) ==> r->Err_0->ProcessNotFound_0@
                == "Ferron not found or failed to execute: "@ + vstd::utf8::decode_utf8(stderr@)
        },
{
}

/// A copy of a configuration has its values; by default Ferron is found by its
/// name and reads its configuration under /etc. A process is stopped by default.
pub proof fn law_copies_and_defaults(
    c: ProcessConfig,
    copy: ProcessConfig,
    d: ProcessConfig,
    status: ProcessStatus,
)
    ensures
        call_ensures(<ProcessConfig as Clone>::clone, (&c,), copy) ==> copy@ == c@,
        call_ensures(<ProcessConfig as Default>::default, (), d) ==> d.binary_path@ == "ferron"@
            && d.config_path@ == "/etc/ferron/ferron.conf"@ && d.auto_restart && d.max_restarts == 3
            && d.restart_delay_ms == 1000 && d.extra_args@.len() == 0 && d.pid_file is Some
            && d.pid_file->0@ == "/var/run/ferron.pid"@ && d.working_dir is None,
        call_ensures(<ProcessStatus as Default>::default, (), status) ==> status
            == ProcessStatus::Stopped,
{
    assert(d@.extra_args.len() == d.extra_args@.len());
    assert(d@.pid_file == crate::text::opt_text(d.pid_file));
    assert(d@.working_dir == crate::text::opt_text(d.working_dir));
}

/// The values of a configuration are those of its fields.
pub proof fn law_values_are_those_of_the_fields(c: ProcessConfig)
    ensures
        c@.binary_path == c.binary_path@ && c@.config_path == c.config_path@,
        c@.extra_args.len() == c.extra_args@.len(),
        forall|i: int|
            0 <= i < c.extra_args@.len() ==> #[trigger] c@.extra_args[i] == c.extra_args@[i]@,
        c@.env_vars == c.env_vars@,
        c@.working_dir is Some == c.working_dir is Some,
        c.working_dir is Some ==> c@.working_dir->0 == c.working_dir->0@,
        c@.pid_file is Some == c.pid_file is Some,
        c.pid_file is Some ==> c@.pid_file->0 == c.pid_file->0@,
        c@.stdout_log is Some == c.stdout_log is Some,
        c.stdout_log is Some ==> c@.stdout_log->0 == c.stdout_log->0@,
        c@.stderr_log is Some == c.stderr_log is Some,
        c.stderr_log is Some ==> c@.stderr_log->0 == c.stderr_log->0@,
        c@.auto_restart == c.auto_restart && c@.max_restarts == c.max_restarts,
        c@.restart_delay_ms == c.restart_delay_ms,
{
}

} // verus!
