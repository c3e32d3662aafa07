//! The application bootstrapper: the state machine that carries the host
//! from process start to the event loop and on to termination.
//!
//! Phases: `Unstarted -> Building -> Configured -> Running -> Terminated`.
//! Host construction and capability registration are pure configuration;
//! the one-shot setup hook decides — from the build mode and from whether
//! the primary window exists — whether to request the developer-inspection
//! panel, to proceed without it, or to stop startup with an explicit fatal
//! outcome. Every failure here is fatal at startup: there is no retry and
//! no partial initialization.
//!
//! The event loop itself, the windows and the providers' own work belong to
//! the host framework outside this crate; a driver feeds their events
//! (`windows_closed`, `run_error`, command invocations) back into this
//! machine.

use vstd::prelude::*;
use crate::commands::CommandHandler;
use crate::commands::CommandTable;
use crate::commands::RegistrationError;
use crate::commands::spec_handler_output;
use crate::plugins::plugin_order;
use crate::plugins::spec_plugin_order;
use crate::version::spec_app_version;

verus! {

/// The build configuration the binary was compiled under.
#[derive(Clone, Copy, Debug, PartialEq, Eq, Structural)]
pub enum BuildMode {
    /// Development build: the developer-inspection panel is wanted.
    Debug,
    /// Release build: no developer tooling is touched at all.
    Release,
}

/// What the one-shot setup hook decided.
#[derive(Clone, Copy, Debug, PartialEq, Eq, Structural)]
pub enum SetupAction {
    /// Debug build, primary window found: show its inspection panel.
    OpenDevtools,
    /// Debug build, primary window missing: stop startup with a fatal
    /// outcome instead of continuing in a broken state.
    FatalMissingWindow,
    /// Release build: continue without looking for any window.
    Proceed,
}

/// The bootstrapper's lifecycle phase.
#[derive(Clone, Copy, Debug, PartialEq, Eq, Structural)]
pub enum Phase {
    /// Nothing built yet.
    Unstarted,
    /// Host built, providers attached, command table still empty.
    Building,
    /// Command table registered; the setup hook has not run.
    Configured,
    /// Handed to the event loop: commands can be dispatched.
    Running,
    /// The process is done, cleanly or fatally.
    Terminated,
}

/// The setup decision as a function of build mode and window presence: a
/// release build always proceeds and never looks for a window; a debug
/// build opens the panel when the primary window exists and otherwise
/// refuses to continue.
pub open spec fn spec_setup_action(mode: BuildMode, main_window_present: bool) -> SetupAction {
    match mode {
        BuildMode::Release => SetupAction::Proceed,
        BuildMode::Debug => if main_window_present {
            SetupAction::OpenDevtools
        } else {
            SetupAction::FatalMissingWindow
        },
    }
}

/// Decides what the setup hook does, without doing it.
pub fn setup_action(mode: BuildMode, main_window_present: bool) -> (a: SetupAction)
    ensures
        a == spec_setup_action(mode, main_window_present),
{
    match mode {
        BuildMode::Release => SetupAction::Proceed,
        BuildMode::Debug => if main_window_present {
            SetupAction::OpenDevtools
        } else {
            SetupAction::FatalMissingWindow
        },
    }
}

/// Law: in a release build the setup decision does not depend on which
/// windows exist — no attempt is made to locate one — and it never asks for
/// the developer-inspection panel.
pub proof fn lemma_release_ignores_windows(p1: bool, p2: bool)
    ensures
        spec_setup_action(BuildMode::Release, p1) == spec_setup_action(BuildMode::Release, p2),
        spec_setup_action(BuildMode::Release, p1) != SetupAction::OpenDevtools,
        spec_setup_action(BuildMode::Release, p1) != SetupAction::FatalMissingWindow,
{
}

/// The name under which the version command is registered.
pub open spec fn spec_version_command_name() -> Seq<char> {
    "get_app_version"@
}

/// Builds the version command's registration name.
pub fn version_command_name() -> (s: String)
    ensures
        s@ == spec_version_command_name(),
{
    String::from_str("get_app_version")
}

/// The fixed diagnostic printed when the host fails to start or run.
pub open spec fn spec_fatal_diagnostic() -> Seq<char> {
    "error while running Panoptic"@
}

/// Builds the fixed run-failure diagnostic.
pub fn fatal_diagnostic() -> (s: String)
    ensures
        s@ == spec_fatal_diagnostic(),
        s@.len() > 0,
{
    proof {
        reveal_strlit("error while running Panoptic");
    }
    String::from_str("error while running Panoptic")
}

/// The explicit diagnostic for the one setup failure: the primary window
/// was missing when the debug inspection panel was to be opened.
pub open spec fn spec_missing_window_diagnostic() -> Seq<char> {
    "main window not found during setup"@
}

/// Builds the missing-window diagnostic.
pub fn missing_window_diagnostic() -> (s: String)
    ensures
        s@ == spec_missing_window_diagnostic(),
        s@.len() > 0,
{
    proof {
        reveal_strlit("main window not found during setup");
    }
    String::from_str("main window not found during setup")
}

/// The application bootstrapper: one per process, built once, stepped
/// through its phases exactly once.
pub struct Bootstrapper {
    /// The build configuration, fixed for the whole run.
    pub mode: BuildMode,
    /// Where in the lifecycle the host is.
    pub phase: Phase,
    /// The providers attached so far, in registration order.
    pub plugins: Vec<crate::plugins::Plugin>,
    /// The command table exposed to the UI layer.
    pub commands: CommandTable,
    /// How often the developer-inspection panel has been requested.
    pub devtools_requests: u64,
    /// The diagnostic of an abnormal termination, if there was one.
    pub fatal: Option<String>,
}

impl Bootstrapper {
    /// The version command is registered and dispatches to the version
    /// handler.
    pub open spec fn command_table_ready(&self) -> bool {
        &&& self.commands.spec_contains_name(spec_version_command_name())
        &&& self.commands.spec_handler_of(spec_version_command_name())
            == CommandHandler::AppVersion
    }

    /// The bootstrapper's invariant, preserved by every transition:
    /// the command table keeps its names unique; the inspection panel is
    /// requested at most once, and never in a release build or before the
    /// setup hook; the provider list is exactly the fixed order from the
    /// moment the host is built; the command table is ready from the moment
    /// it is registered; and only a terminated host carries a fatal
    /// diagnostic.
    pub open spec fn wf(&self) -> bool {
        &&& self.commands.wf()
        &&& self.devtools_requests <= 1
        &&& (self.mode is Release ==> self.devtools_requests == 0)
        &&& ((self.phase is Unstarted || self.phase is Building || self.phase is Configured)
            ==> self.devtools_requests == 0)
        &&& (self.phase is Unstarted ==> self.plugins@.len() == 0)
        &&& (!(self.phase is Unstarted) ==> self.plugins@ == spec_plugin_order())
        &&& ((self.phase is Unstarted || self.phase is Building) ==> self.commands.entries@.len()
            == 0)
        &&& ((self.phase is Configured || self.phase is Running) ==> self.command_table_ready())
        &&& (!(self.phase is Terminated) ==> self.fatal is None)
    }

    /// The process ended without any fatal diagnostic.
    pub open spec fn terminated_cleanly(&self) -> bool {
        &&& self.phase is Terminated
        &&& self.fatal is None
    }

    /// A fresh, unstarted bootstrapper for the given build configuration.
    pub fn new(mode: BuildMode) -> (b: Bootstrapper)
        ensures
            b.wf(),
            b.mode == mode,
            b.phase is Unstarted,
            b.plugins@.len() == 0,
            b.commands.entries@.len() == 0,
            b.devtools_requests == 0,
            b.fatal is None,
    {
        Bootstrapper {
            mode,
            phase: Phase::Unstarted,
            plugins: Vec::new(),
            commands: CommandTable::new(),
            devtools_requests: 0,
            fatal: None,
        }
    }

    /// Host construction and capability registration: attaches the fixed
    /// provider list, in its fixed order. Pure configuration — no provider
    /// does any work until the event loop runs.
    pub fn build(&mut self)
        requires
            old(self).wf(),
            old(self).phase is Unstarted,
        ensures
            final(self).wf(),
            final(self).phase is Building,
            final(self).plugins@ == spec_plugin_order(),
            final(self).mode == old(self).mode,
            final(self).commands == old(self).commands,
            final(self).devtools_requests == 0,
            final(self).fatal is None,
    {
        self.plugins = plugin_order();
        self.phase = Phase::Building;
    }

    /// Command table registration: fills the table the UI layer dispatches
    /// through. The fixed table registers each name exactly once, so this
    /// step always succeeds; a duplicate name would be refused here and
    /// would be fatal to startup rather than silently overwrite.
    pub fn configure_commands(&mut self) -> (r: Result<(), RegistrationError>)
        requires
            old(self).wf(),
            old(self).phase is Building,
        ensures
            final(self).wf(),
            r is Ok,
            final(self).phase is Configured,
            final(self).command_table_ready(),
            final(self).mode == old(self).mode,
            final(self).plugins == old(self).plugins,
            final(self).devtools_requests == 0,
            final(self).fatal is None,
    {
        let reg = self.commands.register(version_command_name(), CommandHandler::AppVersion);
        match reg {
            Ok(_) => {
                self.phase = Phase::Configured;
                proof {
                    assert(self.commands.entries@.len() == 1);
                    assert(self.commands.entries@[0].name@ == spec_version_command_name());
                    assert(self.commands.spec_contains_name(spec_version_command_name()));
                }
                Ok(())
            },
            Err(e) => {
                proof {
                    assert(false);
                }
                Err(e)
            },
        }
    }

    /// The one-shot setup hook, run exactly once, after the host is fully
    /// constructed and before the event loop starts. In a debug build with
    /// the primary window present it requests the developer-inspection
    /// panel exactly once and startup continues; in a debug build without
    /// that window startup does not continue normally — the host terminates
    /// with an explicit fatal outcome; in a release build it neither looks
    /// for a window nor touches the panel.
    pub fn setup(&mut self, main_window_present: bool) -> (a: SetupAction)
        requires
            old(self).wf(),
            old(self).phase is Configured,
        ensures
            final(self).wf(),
            a == spec_setup_action(old(self).mode, main_window_present),
            final(self).mode == old(self).mode,
            final(self).plugins == old(self).plugins,
            final(self).commands == old(self).commands,
            a is OpenDevtools ==> final(self).devtools_requests == 1 && final(self).phase
                is Running && final(self).fatal is None,
            a is Proceed ==> final(self).devtools_requests == 0 && final(self).phase is Running
                && final(self).fatal is None,
            a is FatalMissingWindow ==> final(self).devtools_requests == 0 && final(self).phase
                is Terminated && (match final(self).fatal {
                Some(d) => d@ == spec_missing_window_diagnostic(),
                None => false,
            }),
            old(self).mode is Release ==> final(self).devtools_requests == 0,
    {
        match self.mode {
            BuildMode::Release => {
                self.phase = Phase::Running;
                SetupAction::Proceed
            },
            BuildMode::Debug => {
                if main_window_present {
                    self.devtools_requests = self.devtools_requests + 1;
                    self.phase = Phase::Running;
                    SetupAction::OpenDevtools
                } else {
                    self.fatal = Some(missing_window_diagnostic());
                    self.phase = Phase::Terminated;
                    SetupAction::FatalMissingWindow
                }
            },
        }
    }

    /// Dispatches one UI-originated command invocation while the host runs.
    /// Reads the table and changes nothing; the invocation named after the
    /// version command always answers with the build-time version string,
    /// and an unregistered name answers with nothing.
    pub fn handle_command(&self, name: &String) -> (r: Option<String>)
        requires
            self.wf(),
            self.phase is Running,
        ensures
            match r {
                Some(out) => self.commands.spec_contains_name(name@) && out@
                    == spec_handler_output(self.commands.spec_handler_of(name@)),
                None => !self.commands.spec_contains_name(name@),
            },
            name@ == spec_version_command_name() ==> (match r {
                Some(out) => out@ == spec_app_version(),
                None => false,
            }),
    {
        self.commands.dispatch(name)
    }

    /// The last window closed: the event loop returned and the process
    /// terminates cleanly, with no fatal diagnostic.
    pub fn windows_closed(&mut self)
        requires
            old(self).wf(),
            old(self).phase is Running,
        ensures
            final(self).wf(),
            final(self).terminated_cleanly(),
            final(self).mode == old(self).mode,
            final(self).plugins == old(self).plugins,
            final(self).commands == old(self).commands,
            final(self).devtools_requests == old(self).devtools_requests,
    {
        self.phase = Phase::Terminated;
    }

    /// The run loop failed: the process terminates abnormally, carrying the
    /// fixed diagnostic that names the application.
    pub fn run_error(&mut self)
        requires
            old(self).wf(),
            old(self).phase is Running,
        ensures
            final(self).wf(),
            final(self).phase is Terminated,
            match final(self).fatal {
                Some(d) => d@ == spec_fatal_diagnostic(),
                None => false,
            },
            final(self).mode == old(self).mode,
            final(self).plugins == old(self).plugins,
            final(self).commands == old(self).commands,
            final(self).devtools_requests == old(self).devtools_requests,
    {
        self.fatal = Some(fatal_diagnostic());
        self.phase = Phase::Terminated;
    }
}

/// The whole bootstrap up to the handoff to the event loop: build the host,
/// attach the providers, register the command table, run the setup hook.
/// The host comes back running — with the inspection panel requested
/// exactly once in a debug build with its primary window, and untouched in
/// a release build — unless a debug build found no primary window, in which
/// case it comes back terminated with a fatal outcome.
pub fn boot(mode: BuildMode, main_window_present: bool) -> (b: Bootstrapper)
    ensures
        b.wf(),
        b.mode == mode,
        b.plugins@ == spec_plugin_order(),
        b.command_table_ready(),
        (mode is Release || main_window_present) ==> b.phase is Running && b.fatal is None,
        (mode is Debug && main_window_present) ==> b.devtools_requests == 1,
        mode is Release ==> b.devtools_requests == 0,
        (mode is Debug && !main_window_present) ==> b.phase is Terminated && b.fatal is Some
            && b.devtools_requests == 0,
{
    let mut b = Bootstrapper::new(mode);
    b.build();
    let _ = b.configure_commands();
    let _ = b.setup(main_window_present);
    b
}

/// Law: the developer-inspection panel is requested at most once in any
/// reachable state, and never at all in a release build. Both bounds are
/// part of the invariant that every transition preserves.
pub proof fn lemma_devtools_at_most_once(b: Bootstrapper)
    requires
        b.wf(),
    ensures
        b.devtools_requests <= 1,
        b.mode is Release ==> b.devtools_requests == 0,
{
}

} // verus!
