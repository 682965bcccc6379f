//! The vocabulary shared by the sequencer and the shell that drives it:
//! what the shell reports, what it is asked to do, and why a start-up ends
//! in a crash.

use vstd::prelude::*;

verus! {

/// A report from the shell about something that happened outside.
#[derive(Clone, Copy, Debug, PartialEq, Eq, Structural)]
pub enum Event {
    /// The host invoked the entry point.
    Launched,
    /// The framework took the plugin.
    PluginRegistered,
    /// The framework invoked the setup hook.
    SetupInvoked,
    /// The window registry answered the lookup of the main window.
    WindowLookedUp { found: bool },
    /// The request to make the main window visible returned.
    ShowReturned { ok: bool },
    /// The framework's run loop returned.
    RunReturned { ok: bool },
}

/// Why a start-up ended in a crash.
#[derive(Clone, Copy, Debug, PartialEq, Eq, Structural)]
pub enum Fatal {
    /// The request to make the main window visible failed.
    ShowFailed,
    /// The run loop did not start, or ended with an error.
    RunFailed,
}

/// A request to the shell.
#[derive(Clone, Copy, Debug, PartialEq, Eq, Structural)]
pub enum Action {
    /// Attach the plugin named by [`plugin_name`] to the application builder.
    RegisterPlugin,
    /// Install the setup hook and hand the builder to the framework.
    StartFramework,
    /// Ask the window registry for the window labelled [`main_window_label`].
    LookUpWindow,
    /// Ask the window that the lookup returned to become visible.
    ShowWindow,
    /// Return success from the setup hook, leaving the framework to its run
    /// loop.
    ReportSetupSuccess,
    /// Terminate the process abnormally.
    Terminate(Fatal),
    /// Leave the entry point normally.
    Finish,
}

/// The label under which the main window is registered.
pub fn main_window_label() -> (label: &'static str)
    ensures
        label@ == "main"@,
{
    "main"
}

/// The name of the plugin that is attached before the framework starts.
pub fn plugin_name() -> (name: &'static str)
    ensures
        name@ == "opener"@,
{
    "opener"
}

impl Fatal {
    /// The fixed text that accompanies the crash, where there is one. A
    /// failed show carries the framework's own error and no text of ours.
    pub open spec fn spec_message(self) -> Option<Seq<char>> {
        match self {
            Fatal::ShowFailed => None,
            Fatal::RunFailed => Some("error while running tauri application"@),
        }
    }

    /// The fixed text to terminate with, if this crash has one.
    pub fn message(&self) -> (text: Option<&'static str>)
        ensures
            text is Some <==> self.spec_message() is Some,
            text is Some ==> text->0@ == self.spec_message()->0,
    {
        match self {
            Fatal::ShowFailed => None,
            Fatal::RunFailed => Some("error while running tauri application"),
        }
    }
}

} // verus!
