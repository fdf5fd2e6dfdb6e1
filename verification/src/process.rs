//! The Ferron server process: its configuration, and the decisions from when
//! it is started to when it is stopped, restarted or given up.

use crate::error::{FerronError, Result};
use crate::path::is_absolute;
use crate::string_map::StringMap;
use crate::text::{clone_list, clone_opt, decimal_text, from_utf8_lossy, joined, trim};
use vstd::prelude::*;

pub mod laws;

verus! {

/// Process status.
#[derive(Debug, Clone, Copy, PartialEq, Eq, Structural)]
pub enum ProcessStatus {
    /// Process is not running
    Stopped,
    /// Process is starting
    Starting,
    /// Process is running normally
    Running,
    /// Process is stopping
    Stopping,
    /// Process encountered an error
    Error,
}

impl Default for ProcessStatus {
    fn default() -> (r: Self)
        ensures
            r == ProcessStatus::Stopped,
    {
        ProcessStatus::Stopped
    }
}

/// Configuration for the Ferron process.
#[derive(Debug)]
pub struct ProcessConfig {
    /// Path to the Ferron binary
    pub binary_path: String,
    /// Path to the configuration file
    pub config_path: String,
    /// Working directory
    pub working_dir: Option<String>,
    /// Additional command line arguments
    pub extra_args: Vec<String>,
    /// Environment variables
    pub env_vars: StringMap<String>,
    /// PID file path
    pub pid_file: Option<String>,
    /// Stdout log file
    pub stdout_log: Option<String>,
    /// Stderr log file
    pub stderr_log: Option<String>,
    /// Restart on crash
    pub auto_restart: bool,
    /// Maximum restart attempts
    pub max_restarts: u32,
    /// Restart delay in milliseconds
    pub restart_delay_ms: u64,
}

/// The values of a [`ProcessConfig`].
#[verifier::ext_equal]
pub struct ProcessConfigView {
    pub binary_path: Seq<char>,
    pub config_path: Seq<char>,
    pub working_dir: Option<Seq<char>>,
    pub extra_args: Seq<Seq<char>>,
    pub env_vars: Map<Seq<char>, Seq<char>>,
    pub pid_file: Option<Seq<char>>,
    pub stdout_log: Option<Seq<char>>,
    pub stderr_log: Option<Seq<char>>,
    pub auto_restart: bool,
    pub max_restarts: u32,
    pub restart_delay_ms: u64,
}

impl View for ProcessConfig {
    type V = ProcessConfigView;

    open spec fn view(&self) -> ProcessConfigView {
        ProcessConfigView {
            binary_path: self.binary_path@,
            config_path: self.config_path@,
            working_dir: crate::text::opt_text(self.working_dir),
            extra_args: crate::text::texts(self.extra_args@),
            env_vars: self.env_vars@,
            pid_file: crate::text::opt_text(self.pid_file),
            stdout_log: crate::text::opt_text(self.stdout_log),
            stderr_log: crate::text::opt_text(self.stderr_log),
            auto_restart: self.auto_restart,
            max_restarts: self.max_restarts,
            restart_delay_ms: self.restart_delay_ms,
        }
    }
}

impl Clone for ProcessConfig {
    fn clone(&self) -> (r: Self)
        ensures
            r@ == self@,
    {
        ProcessConfig {
            binary_path: self.binary_path.clone(),
            config_path: self.config_path.clone(),
            working_dir: clone_opt(&self.working_dir),
            extra_args: clone_list(&self.extra_args),
            env_vars: self.env_vars.clone(),
            pid_file: clone_opt(&self.pid_file),
            stdout_log: clone_opt(&self.stdout_log),
            stderr_log: clone_opt(&self.stderr_log),
            auto_restart: self.auto_restart,
            max_restarts: self.max_restarts,
            restart_delay_ms: self.restart_delay_ms,
        }
    }
}

/// The configuration of a process whose binary and configuration file are
/// given: a PID file under /var/run, and up to 3 restarts, 1 second after a
/// crash.
pub open spec fn process_config(
    binary_path: Seq<char>,
    config_path: Seq<char>,
) -> ProcessConfigView {
    ProcessConfigView {
        binary_path,
        config_path,
        working_dir: None,
        extra_args: Seq::empty(),
        env_vars: Map::empty(),
        pid_file: Some("/var/run/ferron.pid"@),
        stdout_log: None,
        stderr_log: None,
        auto_restart: true,
        max_restarts: 3,
        restart_delay_ms: 1000,
    }
}

impl Default for ProcessConfig {
    fn default() -> (r: Self)
        ensures
            r@ == process_config("ferron"@, "/etc/ferron/ferron.conf"@),
    {
        ProcessConfig::new("ferron", "/etc/ferron/ferron.conf")
    }
}

impl ProcessConfigView {
    /// What is said of files that cannot be found: first of the configuration
    /// file, then of a binary that is named by an absolute path. A binary named
    /// otherwise may still be found by its name.
    pub open spec fn missing(self, config_found: bool, binary_found: bool) -> Option<FileGap> {
        if !config_found {
            Some(FileGap::Config)
        } else if crate::path::starts_at_root(self.binary_path) && !binary_found {
            Some(FileGap::Binary)
        } else {
            None
        }
    }

    /// The command that starts the process.
    pub open spec fn command(self) -> LaunchCommandView {
        LaunchCommandView {
            program: self.binary_path,
            args: seq!["-c"@, self.config_path] + self.extra_args,
            working_dir: self.working_dir,
            env_vars: self.env_vars,
        }
    }
}

/// A file that a process needs and that is not there.
pub enum FileGap {
    Config,
    Binary,
}

impl ProcessConfig {
    /// Creates a process configuration.
    pub fn new(binary_path: &str, config_path: &str) -> (r: Self)
        ensures
            r@ == process_config(binary_path@, config_path@),
    {
        let extra_args: Vec<String> = Vec::new();
        proof {
            assert(crate::text::texts(extra_args@) =~= Seq::<Seq<char>>::empty());
        }
        ProcessConfig {
            binary_path: binary_path.to_owned(),
            config_path: config_path.to_owned(),
            working_dir: None,
            extra_args,
            env_vars: StringMap::new(),
            pid_file: Some("/var/run/ferron.pid".to_owned()),
            stdout_log: None,
            stderr_log: None,
            auto_restart: true,
            max_restarts: 3,
            restart_delay_ms: 1000,
        }
    }

    /// Sets the working directory.
    pub fn working_dir(self, path: &str) -> (r: Self)
        ensures
            r@ == (ProcessConfigView { working_dir: Some(path@), ..self@ }),
    {
        ProcessConfig { working_dir: Some(path.to_owned()), ..self }
    }

    /// Adds a command line argument after those that are there.
    pub fn arg(self, arg: &str) -> (r: Self)
        ensures
            r@ == (ProcessConfigView { extra_args: self@.extra_args.push(arg@), ..self@ }),
    {
        let ghost before = self.extra_args@;
        let mut extra_args = self.extra_args;
        extra_args.push(arg.to_owned());
        proof {
            assert(crate::text::texts(extra_args@) =~= crate::text::texts(before).push(arg@));
        }
        ProcessConfig { extra_args, ..self }
    }

    /// Sets an environment variable, in place of what it had.
    pub fn env(self, key: &str, value: &str) -> (r: Self)
        ensures
            r@ == (ProcessConfigView { env_vars: self@.env_vars.insert(key@, value@), ..self@ }),
    {
        let mut env_vars = self.env_vars;
        env_vars.insert(key.to_owned(), value.to_owned());
        ProcessConfig { env_vars, ..self }
    }

    /// Sets the PID file path.
    pub fn pid_file(self, path: &str) -> (r: Self)
        ensures
            r@ == (ProcessConfigView { pid_file: Some(path@), ..self@ }),
    {
        ProcessConfig { pid_file: Some(path.to_owned()), ..self }
    }

    /// Sets the stdout log file.
    pub fn stdout_log(self, path: &str) -> (r: Self)
        ensures
            r@ == (ProcessConfigView { stdout_log: Some(path@), ..self@ }),
    {
        ProcessConfig { stdout_log: Some(path.to_owned()), ..self }
    }

    /// Sets the stderr log file.
    pub fn stderr_log(self, path: &str) -> (r: Self)
        ensures
            r@ == (ProcessConfigView { stderr_log: Some(path@), ..self@ }),
    {
        ProcessConfig { stderr_log: Some(path.to_owned()), ..self }
    }

    /// Enables or disables auto restart.
    pub fn auto_restart(self, enabled: bool) -> (r: Self)
        ensures
            r@ == (ProcessConfigView { auto_restart: enabled, ..self@ }),
    {
        ProcessConfig { auto_restart: enabled, ..self }
    }

    /// Sets the maximum of restart attempts.
    pub fn max_restarts(self, max: u32) -> (r: Self)
        ensures
            r@ == (ProcessConfigView { max_restarts: max, ..self@ }),
    {
        ProcessConfig { max_restarts: max, ..self }
    }

    /// Sets the restart delay.
    pub fn restart_delay(self, delay_ms: u64) -> (r: Self)
        ensures
            r@ == (ProcessConfigView { restart_delay_ms: delay_ms, ..self@ }),
    {
        ProcessConfig { restart_delay_ms: delay_ms, ..self }
    }

    /// Validates the configuration, given whether there is a file at the
    /// configuration path and at the binary path.
    pub fn validate(&self, config_found: bool, binary_found: bool) -> (r: Result<()>)
        ensures
            match self@.missing(config_found, binary_found) {
                None => r is Ok,
                Some(FileGap::Config) => r matches Err(FerronError::Config(m)) && m@
                    == "Configuration file not found: "@ + self@.config_path,
                Some(FileGap::Binary) => r matches Err(FerronError::ProcessNotFound(m)) && m@
                    == self@.binary_path,
            },
    {
        if !config_found {
            return Err(
                FerronError::Config(
                    joined("Configuration file not found: ", self.config_path.as_str()),
                ),
            );
        }
        if is_absolute(self.binary_path.as_str()) && !binary_found {
            return Err(FerronError::ProcessNotFound(self.binary_path.clone()));
        }
        Ok(())
    }
}

/// The command that starts the process.
#[derive(Debug)]
pub struct LaunchCommand {
    /// What is executed
    pub program: String,
    /// Its arguments
    pub args: Vec<String>,
    /// Where it runs, if not where the caller does
    pub working_dir: Option<String>,
    /// Environment variables that are set for it
    pub env_vars: StringMap<String>,
}

/// The values of a [`LaunchCommand`].
#[verifier::ext_equal]
pub struct LaunchCommandView {
    pub program: Seq<char>,
    pub args: Seq<Seq<char>>,
    pub working_dir: Option<Seq<char>>,
    pub env_vars: Map<Seq<char>, Seq<char>>,
}

impl View for LaunchCommand {
    type V = LaunchCommandView;

    open spec fn view(&self) -> LaunchCommandView {
        LaunchCommandView {
            program: self.program@,
            args: crate::text::texts(self.args@),
            working_dir: crate::text::opt_text(self.working_dir),
            env_vars: self.env_vars@,
        }
    }
}

impl LaunchCommand {
    fn of(config: &ProcessConfig) -> (r: Self)
        ensures
            r@ == config@.command(),
    {
        let mut args: Vec<String> = Vec::new();
        args.push("-c".to_owned());
        args.push(config.config_path.clone());
        let mut i: usize = 0;
        while i < config.extra_args.len()
            invariant
                i <= config.extra_args@.len(),
                args@.len() == i + 2,
                args@[0]@ == "-c"@,
                args@[1]@ == config.config_path@,
                forall|j: int| 0 <= j < i ==> (#[trigger] args@[j + 2])@ == config.extra_args@[j]@,
            decreases config.extra_args@.len() - i,
        {
            args.push(config.extra_args[i].clone());
            i = i + 1;
        }
        proof {
            let told = crate::text::texts(args@);
            let wanted = config@.command().args;
            assert forall|j: int| 0 <= j < told.len() implies told[j] == wanted[j] by {
                if j >= 2 {
                    assert(args@[(j - 2) + 2]@ == config.extra_args@[j - 2]@);
                }
            }
            assert(told =~= wanted);
        }
        LaunchCommand {
            program: config.binary_path.clone(),
            args,
            working_dir: clone_opt(&config.working_dir),
            env_vars: config.env_vars.clone(),
        }
    }
}

/// What came of an attempt to execute the command.
#[derive(Debug)]
pub enum SpawnOutcome {
    /// A child process was made; it has an identifier unless it was waited for
    Spawned(Option<u32>),
    /// The command could not be executed
    Failed(String),
}

/// A PID file that is to be written.
#[derive(Debug)]
pub struct PidFile {
    /// Where it is written
    pub path: String,
    /// The identifier in decimal notation
    pub contents: String,
}

/// What is done with the child to stop a process.
#[derive(Debug, Clone, Copy, PartialEq, Eq, Structural)]
pub enum StopStep {
    /// It is asked to terminate
    Terminate,
    /// It is waited for, for so many seconds
    WaitFor(u64),
    /// It is killed
    Kill,
    /// Nothing: the process is stopped
    Finish,
}

/// What came of a step to stop a process.
#[derive(Debug)]
pub enum StopEvent {
    /// It was asked to terminate, whether the signal arrived or not
    Asked,
    /// It exited
    Exited,
    /// It could not be waited for
    WaitFailed(String),
    /// It did not exit in time
    TimedOut,
    /// It was killed, or that failed
    Killed,
}

/// What came of the wait for a process to exit.
#[derive(Debug)]
pub enum ExitOutcome {
    /// It exited, with a code unless a signal ended it
    Exited(Option<i32>),
    /// It could not be waited for
    Failed(String),
}

/// What a look at the child process finds, which reaps it if it has exited.
#[derive(Debug, Clone, Copy, PartialEq, Eq, Structural)]
pub enum ChildPoll {
    /// It has not exited
    Alive,
    /// It has exited
    Exited,
    /// It could not be looked at
    Failed,
}

/// How a process is restarted.
#[derive(Debug, Clone, Copy, PartialEq, Eq, Structural)]
pub struct RestartPlan {
    /// Whether it is stopped first
    pub stop_first: bool,
    /// The pause before it is started, in milliseconds
    pub pause_ms: u64,
}

/// What supervision learns.
#[derive(Debug)]
pub enum SupervisionEvent {
    /// What came of waiting for the process to exit
    Waited(Result<i32>),
    /// What came of starting the process again
    Restarted(Result<()>),
}

/// What supervision does next.
#[derive(Debug, Clone, Copy, PartialEq, Eq, Structural)]
pub enum Supervision {
    /// The process is waited for
    Wait,
    /// The process is started again after the delay
    Restart {
        /// The number of this attempt, from 1
        attempt: u32,
        /// The delay in milliseconds
        delay_ms: u64,
    },
    /// Supervision ends: the process could not be waited for
    WaitFailed,
    /// Supervision ends: auto restart is disabled
    Disabled,
    /// Supervision ends: every restart was used
    Exhausted,
    /// Supervision ends: the process could not be started again
    StartFailed,
}

/// How long a process that was asked to stop is waited for.
pub const STOP_TIMEOUT_SECS: u64 = 10;

/// How long a restart pauses between stop and start.
pub const RESTART_PAUSE_MS: u64 = 500;

/// The state of a [`FerronProcess`].
#[verifier::ext_equal]
pub struct ProcessView {
    pub config: ProcessConfigView,
    /// Whether there is a child process to wait for
    pub child: bool,
    pub status: ProcessStatus,
    pub pid: Option<u32>,
    pub restart_count: u32,
}

impl ProcessView {
    /// A process that runs has a child to wait for, only one that runs or is
    /// stopping has an identifier, and no more restarts were made than are
    /// allowed.
    pub open spec fn valid(self) -> bool {
        &&& self.status == ProcessStatus::Running ==> self.child
        &&& self.pid is Some ==> self.status == ProcessStatus::Running || self.status
            == ProcessStatus::Stopping
        &&& self.restart_count <= self.config.max_restarts
    }

    /// While it is asked to stop.
    pub open spec fn stopping(self) -> ProcessView {
        ProcessView { status: ProcessStatus::Stopping, ..self }
    }

    /// With a status under which nothing runs, so that there is no identifier.
    pub open spec fn idle_as(self, status: ProcessStatus) -> ProcessView {
        ProcessView { status, pid: None, ..self }
    }

    /// With a child process that runs.
    pub open spec fn running_as(self, pid: Option<u32>) -> ProcessView {
        ProcessView { child: true, status: ProcessStatus::Running, pid, ..self }
    }

    /// Without a child process.
    pub open spec fn shut_down(self) -> ProcessView {
        ProcessView { child: false, status: ProcessStatus::Stopped, pid: None, ..self }
    }

    /// What supervision does when the process has exited.
    pub open spec fn after_exit(self) -> Supervision {
        if !self.config.auto_restart {
            Supervision::Disabled
        } else if self.restart_count >= self.config.max_restarts {
            Supervision::Exhausted
        } else {
            Supervision::Restart {
                attempt: (self.restart_count + 1) as u32,
                delay_ms: self.config.restart_delay_ms,
            }
        }
    }

    /// What supervision does next.
    pub open spec fn supervision(self, event: SupervisionEvent) -> Supervision {
        match event {
            SupervisionEvent::Waited(Ok(_)) => self.after_exit(),
            SupervisionEvent::Waited(Err(_)) => Supervision::WaitFailed,
            SupervisionEvent::Restarted(Ok(_)) => Supervision::Wait,
            SupervisionEvent::Restarted(Err(_)) => Supervision::StartFailed,
        }
    }

    /// After supervision has decided what to do.
    pub open spec fn supervised(self, decision: Supervision) -> ProcessView {
        match decision {
            Supervision::Restart { attempt, .. } => ProcessView { restart_count: attempt, ..self },
            _ => self,
        }
    }

    /// Whether a look at the child tells that the process still runs, when a
    /// signal could be sent to its identifier.
    pub open spec fn seems_alive(self, poll: ChildPoll) -> bool {
        self.child && poll == ChildPoll::Alive && self.pid is Some
    }
}

/// Ferron process handle.
#[derive(Debug)]
pub struct FerronProcess {
    config: ProcessConfig,
    child: bool,
    status: ProcessStatus,
    pid: Option<u32>,
    restart_count: u32,
}

impl View for FerronProcess {
    type V = ProcessView;

    closed spec fn view(&self) -> ProcessView {
        ProcessView {
            config: self.config@,
            child: self.child,
            status: self.status,
            pid: self.pid,
            restart_count: self.restart_count,
        }
    }
}

impl FerronProcess {
    #[verifier::type_invariant]
    spec fn consistent(self) -> bool {
        self@.valid()
    }

    /// Creates a handle of a process that does not run.
    pub fn new(config: ProcessConfig) -> (r: Self)
        ensures
            r@ == (ProcessView {
                config: config@,
                child: false,
                status: ProcessStatus::Stopped,
                pid: None,
                restart_count: 0,
            }),
            r@.valid(),
    {
        FerronProcess {
            config,
            child: false,
            status: ProcessStatus::Stopped,
            pid: None,
            restart_count: 0,
        }
    }

    /// The configuration.
    pub fn config(&self) -> (r: &ProcessConfig)
        ensures
            r@ == self@.config,
    {
        &self.config
    }

    /// The current status.
    pub fn status(&self) -> (r: ProcessStatus)
        ensures
            r == self@.status,
            self@.valid(),
    {
        proof {
            use_type_invariant(self);
        }
        self.status
    }

    /// The process identifier, if the process is running.
    pub fn pid(&self) -> (r: Option<u32>)
        ensures
            r == self@.pid,
            r is Some ==> self@.status == ProcessStatus::Running || self@.status
                == ProcessStatus::Stopping,
    {
        proof {
            use_type_invariant(self);
        }
        self.pid
    }

    /// Begins to start the process: the command is to be executed, and its
    /// outcome told to [`FerronProcess::launched`].
    pub fn start(&mut self) -> (r: Result<LaunchCommand>)
        ensures
            match r {
                Ok(command) => {
                    &&& old(self)@.status != ProcessStatus::Running
                    &&& command@ == old(self)@.config.command()
                    &&& final(self)@ == old(self)@.idle_as(ProcessStatus::Starting)
                },
                Err(e) => {
                    &&& old(self)@.status == ProcessStatus::Running
                    &&& e matches FerronError::AlreadyRunning(pid)
                    &&& pid == match old(self)@.pid {
                        Some(pid) => pid,
                        None => 0,
                    }
                    &&& final(self)@ == old(self)@
                },
            },
            final(self)@.valid(),
    {
        proof {
            use_type_invariant(&*self);
        }
        if self.status == ProcessStatus::Running {
            let pid: u32 = match self.pid {
                Some(pid) => pid,
                None => 0,
            };
            return Err(FerronError::AlreadyRunning(pid));
        }
        self.pid = None;
        self.status = ProcessStatus::Starting;
        Ok(LaunchCommand::of(&self.config))
    }

    /// Takes note of what came of the start. Returns the PID file to write,
    /// where one is configured and there is an identifier.
    pub fn launched(&mut self, outcome: SpawnOutcome) -> (r: Result<Option<PidFile>>)
        ensures
            match outcome {
                SpawnOutcome::Spawned(pid) => {
                    &&& final(self)@ == old(self)@.running_as(pid)
                    &&& r matches Ok(file)
                    &&& match file {
                        Some(file) => {
                            &&& pid is Some
                            &&& old(self)@.config.pid_file == Some(file.path@)
                            &&& file.contents@ == crate::text::decimal(pid->0 as nat)
                        },
                        None => pid is None || old(self)@.config.pid_file is None,
                    }
                },
                SpawnOutcome::Failed(message) => {
                    &&& final(self)@ == old(self)@.idle_as(ProcessStatus::Error)
                    &&& r matches Err(FerronError::StartFailed(m))
                    &&& m@ == message@
                },
            },
            final(self)@.valid(),
    {
        proof {
            use_type_invariant(&*self);
        }
        match outcome {
            SpawnOutcome::Spawned(pid) => {
                self.child = true;
                self.status = ProcessStatus::Running;
                self.pid = pid;
                let file = match (&self.config.pid_file, pid) {
                    (Some(path), Some(pid)) => Some(
                        PidFile { path: path.clone(), contents: decimal_text(pid as u64) },
                    ),
                    _ => None,
                };
                Ok(file)
            },
            SpawnOutcome::Failed(message) => {
                self.pid = None;
                self.status = ProcessStatus::Error;
                Err(FerronError::StartFailed(message))
            },
        }
    }

    /// Begins to stop the process. What is done first is returned, what follows
    /// it is up to [`StopStep::after`], and at the end
    /// [`FerronProcess::stopped`] is told.
    pub fn stop(&mut self) -> (r: Result<StopStep>)
        ensures
            match r {
                Ok(step) => {
                    &&& old(self)@.status == ProcessStatus::Running
                    &&& old(self)@.child
                    &&& step == StopStep::Terminate
                    &&& final(self)@ == old(self)@.stopping()
                },
                Err(e) => {
                    &&& old(self)@.status != ProcessStatus::Running
                    &&& e is NotRunning
                    &&& final(self)@ == old(self)@
                },
            },
            final(self)@.valid(),
    {
        proof {
            use_type_invariant(&*self);
        }
        if self.status != ProcessStatus::Running {
            return Err(FerronError::NotRunning);
        }
        self.status = ProcessStatus::Stopping;
        Ok(StopStep::Terminate)
    }

    /// Takes note that the process was stopped. Returns the PID file to remove,
    /// where one is configured.
    pub fn stopped(&mut self) -> (r: Option<String>)
        ensures
            final(self)@ == old(self)@.shut_down(),
            crate::text::opt_text(r) == old(self)@.config.pid_file,
            final(self)@.valid(),
    {
        proof {
            use_type_invariant(&*self);
        }
        self.pid = None;
        self.status = ProcessStatus::Stopped;
        self.child = false;
        clone_opt(&self.config.pid_file)
    }

    /// How the process is restarted.
    pub fn restart(&self) -> (r: RestartPlan)
        ensures
            r.stop_first == (self@.status == ProcessStatus::Running),
            r.pause_ms == RESTART_PAUSE_MS,
    {
        RestartPlan {
            stop_first: self.status == ProcessStatus::Running,
            pause_ms: RESTART_PAUSE_MS,
        }
    }

    /// The identifier to which the signal to reload the configuration is sent.
    pub fn reload(&self) -> (r: Result<u32>)
        ensures
            match r {
                Ok(pid) => self@.status == ProcessStatus::Running && self@.pid == Some(pid),
                Err(e) => e is NotRunning && (self@.status != ProcessStatus::Running
                    || self@.pid is None),
            },
    {
        if self.status != ProcessStatus::Running {
            return Err(FerronError::NotRunning);
        }
        match self.pid {
            Some(pid) => Ok(pid),
            None => Err(FerronError::NotRunning),
        }
    }

    /// Whether there is a child to wait for; what comes of the wait is told to
    /// [`FerronProcess::waited`].
    pub fn wait(&self) -> (r: Result<()>)
        ensures
            match r {
                Ok(_) => self@.child,
                Err(e) => !self@.child && e is NotRunning,
            },
    {
        if self.child {
            Ok(())
        } else {
            Err(FerronError::NotRunning)
        }
    }

    /// Takes note of what came of the wait. Returns the exit code, -1 where the
    /// process left none.
    pub fn waited(&mut self, outcome: ExitOutcome) -> (r: Result<i32>)
        ensures
            match outcome {
                ExitOutcome::Exited(code) => {
                    &&& final(self)@ == old(self)@.idle_as(ProcessStatus::Stopped)
                    &&& r matches Ok(c)
                    &&& match code {
                        Some(code) => c == code,
                        None => c == -1,
                    }
                },
                ExitOutcome::Failed(message) => {
                    &&& final(self)@ == old(self)@
                    &&& r matches Err(FerronError::Process(m))
                    &&& m@ == message@
                },
            },
            final(self)@.valid(),
    {
        proof {
            use_type_invariant(&*self);
        }
        match outcome {
            ExitOutcome::Exited(code) => {
                self.pid = None;
                self.status = ProcessStatus::Stopped;
                match code {
                    Some(code) => Ok(code),
                    None => Ok(-1),
                }
            },
            ExitOutcome::Failed(message) => Err(FerronError::Process(message)),
        }
    }

    /// The identifier to probe with a signal that only asks whether the process
    /// exists. There is none where the child is gone, or has exited: a process
    /// that has exited still takes signals until it is reaped.
    pub fn probe_target(&self, poll: ChildPoll) -> (r: Option<u32>)
        ensures
            r == if self@.seems_alive(poll) {
                self@.pid
            } else {
                None
            },
    {
        if self.child && poll == ChildPoll::Alive {
            self.pid
        } else {
            None
        }
    }

    /// Whether the process is still running, given what a look at its child
    /// found and whether the probe of its identifier succeeded.
    pub fn is_running(&self, poll: ChildPoll, probe_ok: bool) -> (r: bool)
        ensures
            r == (self@.seems_alive(poll) && probe_ok),
    {
        match self.probe_target(poll) {
            Some(_) => probe_ok,
            None => false,
        }
    }

    /// What supervision does next.
    pub fn supervise(&mut self, event: &SupervisionEvent) -> (r: Supervision)
        ensures
            r == old(self)@.supervision(*event),
            final(self)@ == old(self)@.supervised(r),
            final(self)@.valid(),
    {
        proof {
            use_type_invariant(&*self);
        }
        match event {
            SupervisionEvent::Restarted(Ok(_)) => Supervision::Wait,
            SupervisionEvent::Restarted(Err(_)) => Supervision::StartFailed,
            SupervisionEvent::Waited(Err(_)) => Supervision::WaitFailed,
            SupervisionEvent::Waited(Ok(_)) => {
                if !self.config.auto_restart {
                    Supervision::Disabled
                } else if self.restart_count >= self.config.max_restarts {
                    Supervision::Exhausted
                } else {
                    self.restart_count = self.restart_count + 1;
                    Supervision::Restart {
                        attempt: self.restart_count,
                        delay_ms: self.config.restart_delay_ms,
                    }
                }
            },
        }
    }
}

/// What follows a step to stop a process: it is given time to terminate, and
/// only if it does not use it, it is killed.
pub open spec fn next_stop_step(event: StopEvent) -> StopStep {
    match event {
        StopEvent::Asked => StopStep::WaitFor(STOP_TIMEOUT_SECS),
        StopEvent::TimedOut => StopStep::Kill,
        _ => StopStep::Finish,
    }
}

impl StopStep {
    /// What follows a step, given what came of it.
    pub fn after(event: &StopEvent) -> (r: StopStep)
        ensures
            r == next_stop_step(*event),
    {
        match event {
            StopEvent::Asked => StopStep::WaitFor(STOP_TIMEOUT_SECS),
            StopEvent::TimedOut => StopStep::Kill,
            _ => StopStep::Finish,
        }
    }
}

/// What came of sending the signal to reload.
pub fn reload_outcome(sent: core::result::Result<(), String>) -> (r: Result<()>)
    ensures
        match sent {
            Ok(_) => r is Ok,
            Err(message) => r matches Err(FerronError::ReloadFailed(m)) && m@ == message@,
        },
{
    match sent {
        Ok(_) => Ok(()),
        Err(message) => Err(FerronError::ReloadFailed(message)),
    }
}

/// What came of running the binary to ask for its version.
#[derive(Debug)]
pub enum VersionRun {
    /// The binary could not be executed
    NotStarted(String),
    /// It ran, and left its output
    Finished {
        /// Whether it reported success
        success: bool,
        /// What it wrote to its standard output
        stdout: Vec<u8>,
        /// What it wrote to its standard error
        stderr: Vec<u8>,
    },
}

/// The binary that is asked for its version: the given one, or the one found by
/// the name `ferron`.
pub open spec fn binary_or_default(path: Option<Seq<char>>) -> Seq<char> {
    match path {
        Some(p) => p,
        None => "ferron"@,
    }
}

/// The binary that is asked for its version.
pub fn ferron_binary(path: Option<&str>) -> (r: String)
    ensures
        r@ == binary_or_default(
            match path {
                Some(p) => Some(p@),
                None => None,
            },
        ),
{
    match path {
        Some(p) => p.to_owned(),
        None => "ferron".to_owned(),
    }
}

/// The version that a binary reports, given whether it reported success and what
/// it wrote.
pub fn reported_version(success: bool, stdout: &str, stderr: &str) -> (r: Result<String>)
    ensures
        match r {
            Ok(version) => success && version@ == crate::text::trimmed(stdout@),
            Err(e) => {
                &&& !success
                &&& e matches FerronError::ProcessNotFound(m)
                &&& m@ == "Ferron not found or failed to execute: "@ + stderr@
            },
        },
{
    if success {
        Ok(trim(stdout))
    } else {
        Err(
            FerronError::ProcessNotFound(
                joined("Ferron not found or failed to execute: ", stderr),
            ),
        )
    }
}

/// Whether Ferron is installed and available: the version it reports, given
/// what came of asking for it.
pub fn check_ferron_installed(path: Option<&str>, run: VersionRun) -> (r: Result<String>)
    ensures
        match run {
            VersionRun::NotStarted(message) => {
                &&& r matches Err(FerronError::ProcessNotFound(m))
                &&& m@ == binary_or_default(
                    match path {
                        Some(p) => Some(p@),
                        None => None,
                    },
                ) + ": "@ + message@
            },
            VersionRun::Finished { success: true, stdout, .. } => {
                &&& r matches Ok(version)
                &&& version@ == crate::text::trimmed(crate::text::lossy_text(stdout@))
                &&& vstd::utf8::valid_utf8(stdout@) ==> version@ == crate::text::trimmed(
                    vstd::utf8::decode_utf8(stdout@),
                )
            },
            VersionRun::Finished { success: false, stderr, .. } => {
                &&& r matches Err(FerronError::ProcessNotFound(m))
                &&& m@ == "Ferron not found or failed to execute: "@ + crate::text::lossy_text(
                    stderr@,
                )
                &&& vstd::utf8::valid_utf8(stderr@) ==> m@
                    == "Ferron not found or failed to execute: "@ + vstd::utf8::decode_utf8(stderr@)
            },
        },
{
    match run {
        VersionRun::NotStarted(message) => {
            let binary = ferron_binary(path);
            let head = joined(binary.as_str(), ": ");
            Err(FerronError::ProcessNotFound(joined(head.as_str(), message.as_str())))
        },
        VersionRun::Finished { success, stdout, stderr } => {
            let output = from_utf8_lossy(&stdout);
            let errors = from_utf8_lossy(&stderr);
            reported_version(success, output.as_str(), errors.as_str())
        },
    }
}

} // verus!
