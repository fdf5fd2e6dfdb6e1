//! Watching the configuration file: which events in its directory count, and
//! how a burst of them is gathered into one reload.

use crate::path::{file_name, parent};
use crate::text::{clone_opt, same_opt_text};
use vstd::prelude::*;

pub mod laws;

verus! {

/// How long it has to be quiet, in nanoseconds, before a burst of changes is
/// taken for one and the configuration is reloaded.
pub const DEBOUNCE_NANOS: u64 = 250_000_000;

/// What happened to a file.
#[derive(Debug, Clone, Copy, PartialEq, Eq, Structural)]
pub enum EventKind {
    /// It was created
    Create,
    /// It was modified
    Modify,
    /// Something that leaves its contents alone
    Other,
}

/// An event in the watched directory.
#[derive(Debug)]
pub struct WatchEvent {
    /// What happened
    pub kind: EventKind,
    /// The paths it happened to
    pub paths: Vec<String>,
}

/// What the watcher receives.
#[derive(Debug)]
pub enum WatchInput {
    /// An event
    Event(WatchEvent),
    /// An error in place of an event
    WatchError,
    /// There will be no more events
    Closed,
    /// Nothing came in the time given
    TimedOut,
}

/// What an input amounts to.
#[derive(Debug, Clone, Copy, PartialEq, Eq, Structural)]
pub enum WatchSignal {
    /// The watched file was created or modified
    Change,
    /// Something else happened, or an error
    Noise,
    /// There will be no more events
    Closed,
    /// Nothing came in the time given
    TimedOut,
}

/// What the watcher does next.
#[derive(Debug, Clone, Copy, PartialEq, Eq, Structural)]
pub enum WatchCommand {
    /// Receive the next event, however long it takes
    Receive,
    /// Receive the next event, for so many nanoseconds
    ReceiveFor(u64),
    /// Signal a reload, then receive the next event, however long it takes
    Reload,
    /// End
    Exit,
}

/// The directory to watch, given the parent of the configuration path: the
/// current directory where the path has no directory in it.
pub open spec fn directory_or_current(parent: Option<Seq<char>>) -> Seq<char> {
    match parent {
        Some(dir) => if dir.len() > 0 {
            dir
        } else {
            "."@
        },
        None => "."@,
    }
}

/// The directory to watch, given the parent of the configuration path.
pub fn watch_directory(parent: Option<String>) -> (r: String)
    ensures
        r@ == directory_or_current(crate::text::opt_text(parent)),
{
    match parent {
        Some(dir) => if dir.as_str().is_empty() {
            ".".to_owned()
        } else {
            dir
        },
        None => ".".to_owned(),
    }
}

/// The directory to watch: that of the configuration file, so that it may not
/// exist yet, or be replaced.
pub fn watch_target(config_path: &str) -> (r: String)
    ensures
        r@ == directory_or_current(crate::path::parent_of(config_path@)),
        crate::path::is_entry_name(config_path@) ==> r@ == "."@,
        forall|dir: Seq<char>, name: Seq<char>| #[trigger]
            crate::path::names_entry_of(config_path@, dir, name) && dir.len() > 0 && dir.last()
                != '/' && dir.last() != '.' ==> r@ == dir,
        forall|name: Seq<char>| #[trigger]
            crate::path::names_entry_of(config_path@, Seq::empty(), name) ==> r@ == seq!['/'],
        forall|name: Seq<char>| #[trigger]
            crate::path::names_entry_of(config_path@, seq!['.'], name) ==> r@ == seq!['.'],
{
    watch_directory(parent(config_path))
}

/// The names of the files at some paths.
pub open spec fn final_components(paths: Seq<Seq<char>>) -> Seq<Option<Seq<char>>> {
    paths.map_values(|p: Seq<char>| crate::path::final_component(p))
}

/// The texts of a list, where they are there.
pub open spec fn opt_texts(list: Seq<Option<String>>) -> Seq<Option<Seq<char>>> {
    list.map_values(|n: Option<String>| crate::text::opt_text(n))
}

/// The names of the files at some paths.
pub fn file_names(paths: &Vec<String>) -> (r: Vec<Option<String>>)
    ensures
        opt_texts(r@) == final_components(crate::text::texts(paths@)),
{
    let mut r: Vec<Option<String>> = Vec::new();
    let mut i: usize = 0;
    while i < paths.len()
        invariant
            i <= paths@.len(),
            r@.len() == i,
            forall|j: int|
                0 <= j < i ==> crate::text::opt_text(#[trigger] r@[j])
                    == crate::path::final_component(paths@[j]@),
        decreases paths@.len() - i,
    {
        r.push(file_name(paths[i].as_str()));
        i = i + 1;
    }
    proof {
        assert(opt_texts(r@) =~= final_components(crate::text::texts(paths@)));
    }
    r
}

/// Whether an event counts: it creates or modifies a file of the watched name.
/// Reading the file, and whatever happens to other files, does not count.
pub open spec fn counts(
    kind: EventKind,
    names: Seq<Option<Seq<char>>>,
    watched: Option<Seq<char>>,
) -> bool {
    &&& names.contains(watched)
    &&& kind == EventKind::Create || kind == EventKind::Modify
}

/// Whether an event counts, given the names of its files.
pub fn is_relevant(kind: EventKind, names: &Vec<Option<String>>, watched: &Option<String>) -> (r:
    bool)
    ensures
        r == counts(kind, opt_texts(names@), crate::text::opt_text(*watched)),
{
    let ghost texts = opt_texts(names@);
    let ghost wanted = crate::text::opt_text(*watched);
    let mut found = false;
    let mut i: usize = 0;
    while i < names.len()
        invariant
            i <= names@.len(),
            texts == opt_texts(names@),
            wanted == crate::text::opt_text(*watched),
            found ==> texts.contains(wanted),
            !found ==> forall|j: int| 0 <= j < i ==> #[trigger] texts[j] != wanted,
        decreases names@.len() - i,
    {
        assert(texts[i as int] == crate::text::opt_text(names@[i as int]));
        if same_opt_text(&names[i], watched) {
            found = true;
        }
        i = i + 1;
    }
    found && (kind == EventKind::Create || kind == EventKind::Modify)
}

/// The state of a [`ConfigWatcher`].
#[verifier::ext_equal]
pub struct WatcherView {
    /// The name of the watched file
    pub file_name: Option<Seq<char>>,
    /// Whether changes are acted on
    pub auto_reload: bool,
    /// When the last change came, in nanoseconds, while a reload is due
    pub last_change: Option<int>,
}

impl WatcherView {
    /// How much longer it has to be quiet before the reload that is due.
    pub open spec fn remaining(self, now: int) -> int {
        match self.last_change {
            None => 0,
            Some(last) => if now < last {
                DEBOUNCE_NANOS as int
            } else if now - last >= DEBOUNCE_NANOS {
                0
            } else {
                DEBOUNCE_NANOS - (now - last)
            },
        }
    }

    /// With no reload due.
    pub open spec fn settled(self) -> WatcherView {
        WatcherView { last_change: None, ..self }
    }

    /// With a reload due, as of a change.
    pub open spec fn stirred(self, now: int) -> WatcherView {
        WatcherView { last_change: Some(now), ..self }
    }

    /// What an input amounts to.
    pub open spec fn signal(self, input: WatchInput) -> WatchSignal {
        match input {
            WatchInput::Event(event) => if counts(
                event.kind,
                final_components(crate::text::texts(event.paths@)),
                self.file_name,
            ) {
                WatchSignal::Change
            } else {
                WatchSignal::Noise
            },
            WatchInput::WatchError => WatchSignal::Noise,
            WatchInput::Closed => WatchSignal::Closed,
            WatchInput::TimedOut => WatchSignal::TimedOut,
        }
    }

    /// What the watcher does next, when a signal comes at a time while there
    /// still is a manager or not.
    pub open spec fn command(self, signal: WatchSignal, manager_alive: bool, now: int) -> WatchCommand {
        match (self.last_change, signal) {
            (None, WatchSignal::Closed) => WatchCommand::Exit,
            (None, _) => if !manager_alive {
                WatchCommand::Exit
            } else if signal == WatchSignal::Change && self.auto_reload {
                WatchCommand::ReceiveFor(DEBOUNCE_NANOS)
            } else {
                WatchCommand::Receive
            },
            (Some(_), WatchSignal::Change) => WatchCommand::ReceiveFor(DEBOUNCE_NANOS),
            (Some(_), WatchSignal::Noise) => if self.remaining(now) == 0 {
                WatchCommand::Reload
            } else {
                WatchCommand::ReceiveFor(self.remaining(now) as u64)
            },
            (Some(_), _) => WatchCommand::Reload,
        }
    }

    /// The state after a signal.
    pub open spec fn after(self, signal: WatchSignal, manager_alive: bool, now: int) -> WatcherView {
        match self.command(signal, manager_alive, now) {
            WatchCommand::ReceiveFor(_) => if signal == WatchSignal::Change {
                self.stirred(now)
            } else {
                self
            },
            WatchCommand::Reload => self.settled(),
            _ => self,
        }
    }
}

/// Gathers changes of the configuration file into reloads.
#[derive(Debug)]
pub struct ConfigWatcher {
    file_name: Option<String>,
    auto_reload: bool,
    last_change: Option<u64>,
}

impl View for ConfigWatcher {
    type V = WatcherView;

    closed spec fn view(&self) -> WatcherView {
        WatcherView {
            file_name: crate::text::opt_text(self.file_name),
            auto_reload: self.auto_reload,
            last_change: match self.last_change {
                Some(last) => Some(last as int),
                None => None,
            },
        }
    }
}

impl ConfigWatcher {
    /// Creates a watcher of files of the given name.
    pub fn named(file_name: Option<String>, auto_reload: bool) -> (r: Self)
        ensures
            r@ == (WatcherView {
                file_name: crate::text::opt_text(file_name),
                auto_reload,
                last_change: None,
            }),
    {
        ConfigWatcher { file_name, auto_reload, last_change: None }
    }

    /// Creates a watcher of the configuration file at a path.
    pub fn new(config_path: &str, auto_reload: bool) -> (r: Self)
        ensures
            r@ == (WatcherView {
                file_name: crate::path::final_component(config_path@),
                auto_reload,
                last_change: None,
            }),
            crate::path::is_entry_name(config_path@) ==> r@.file_name == Some(config_path@),
            forall|dir: Seq<char>, name: Seq<char>| #[trigger]
                crate::path::names_entry_of(config_path@, dir, name) ==> r@.file_name == Some(name),
    {
        ConfigWatcher::named(file_name(config_path), auto_reload)
    }

    /// The name of the watched file.
    pub fn watched(&self) -> (r: Option<String>)
        ensures
            crate::text::opt_text(r) == self@.file_name,
    {
        clone_opt(&self.file_name)
    }

    /// What an input amounts to.
    pub fn classify(&self, input: &WatchInput) -> (r: WatchSignal)
        ensures
            r == self@.signal(*input),
    {
        match input {
            WatchInput::Event(event) => {
                let names = file_names(&event.paths);
                if is_relevant(event.kind, &names, &self.file_name) {
                    WatchSignal::Change
                } else {
                    WatchSignal::Noise
                }
            },
            WatchInput::WatchError => WatchSignal::Noise,
            WatchInput::Closed => WatchSignal::Closed,
            WatchInput::TimedOut => WatchSignal::TimedOut,
        }
    }

    /// Takes a signal that comes at a time, in nanoseconds, and says what to do
    /// next. Whether there still is a manager is asked only while no reload is
    /// due.
    pub fn advance(&mut self, signal: WatchSignal, manager_alive: bool, now: u64) -> (r:
        WatchCommand)
        ensures
            r == old(self)@.command(signal, manager_alive, now as int),
            final(self)@ == old(self)@.after(signal, manager_alive, now as int),
    {
        match self.last_change {
            None => {
                if signal == WatchSignal::Closed || !manager_alive {
                    WatchCommand::Exit
                } else if signal == WatchSignal::Change && self.auto_reload {
                    self.last_change = Some(now);
                    WatchCommand::ReceiveFor(DEBOUNCE_NANOS)
                } else {
                    WatchCommand::Receive
                }
            },
            Some(last) => match signal {
                WatchSignal::Change => {
                    self.last_change = Some(now);
                    WatchCommand::ReceiveFor(DEBOUNCE_NANOS)
                },
                WatchSignal::Noise => {
                    let quiet: u64 = if now < last {
                        0
                    } else {
                        now - last
                    };
                    if quiet >= DEBOUNCE_NANOS {
                        self.last_change = None;
                        WatchCommand::Reload
                    } else {
                        WatchCommand::ReceiveFor(DEBOUNCE_NANOS - quiet)
                    }
                },
                _ => {
                    self.last_change = None;
                    WatchCommand::Reload
                },
            },
        }
    }

    /// Takes an input that comes at a time, in nanoseconds, and says what to do
    /// next.
    pub fn step(&mut self, input: &WatchInput, manager_alive: bool, now: u64) -> (r: WatchCommand)
        ensures
            r == old(self)@.command(old(self)@.signal(*input), manager_alive, now as int),
            final(self)@ == old(self)@.after(
                old(self)@.signal(*input),
                manager_alive,
                now as int,
            ),
    {
        let signal = self.classify(input);
        self.advance(signal, manager_alive, now)
    }
}

} // verus!
