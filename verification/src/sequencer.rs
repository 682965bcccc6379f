//! The start-up state machine: from the current phase and a report of the
//! shell to the next phase and the next request.

use vstd::prelude::*;
use crate::protocol::{Action, Event, Fatal};

verus! {

/// How far the start-up has come.
#[derive(Clone, Copy, Debug, PartialEq, Eq, Structural)]
pub enum Phase {
    /// Nothing has been asked of the shell yet.
    Idle,
    /// The plugin is being attached.
    AttachingPlugin,
    /// The framework was started and has not yet invoked the setup hook.
    Starting,
    /// The setup hook runs and waits for the window registry.
    LookingUp,
    /// The setup hook runs and waits for the main window to become visible.
    Showing,
    /// The setup hook reported success; the run loop owns the process.
    Running,
    /// The run loop returned without an error.
    Finished,
    /// The process is to terminate abnormally.
    Crashed(Fatal),
}

impl Phase {
    /// Whether the start-up is over: no report is awaited any more.
    pub open spec fn is_terminal(self) -> bool {
        self is Finished || self is Crashed
    }

    /// The transition relation. `None` means that `event` is not a report
    /// this phase waits for; the phase then stays as it is and nothing is
    /// asked of the shell.
    pub open spec fn spec_step(self, event: Event) -> Option<(Phase, Action)> {
        match (self, event) {
            (Phase::Idle, Event::Launched) => Some((Phase::AttachingPlugin, Action::RegisterPlugin)),
            (Phase::AttachingPlugin, Event::PluginRegistered) => Some(
                (Phase::Starting, Action::StartFramework),
            ),
            (Phase::Starting, Event::SetupInvoked) => Some((Phase::LookingUp, Action::LookUpWindow)),
            (Phase::LookingUp, Event::WindowLookedUp { found }) => if found {
                Some((Phase::Showing, Action::ShowWindow))
            } else {
                Some((Phase::Running, Action::ReportSetupSuccess))
            },
            (Phase::Showing, Event::ShowReturned { ok }) => if ok {
                Some((Phase::Running, Action::ReportSetupSuccess))
            } else {
                Some((Phase::Crashed(Fatal::ShowFailed), Action::Terminate(Fatal::ShowFailed)))
            },
            (Phase::Starting, Event::RunReturned { ok }) | (Phase::Running, Event::RunReturned { ok }) => if ok {
                Some((Phase::Finished, Action::Finish))
            } else {
                Some((Phase::Crashed(Fatal::RunFailed), Action::Terminate(Fatal::RunFailed)))
            },
            _ => None,
        }
    }

    /// The phase in which every start-up begins.
    pub fn initial() -> (phase: Phase)
        ensures
            phase == Phase::Idle,
    {
        Phase::Idle
    }

    /// Whether the start-up is over.
    pub fn ended(&self) -> (over: bool)
        ensures
            over == self.is_terminal(),
    {
        match self {
            Phase::Finished => true,
            Phase::Crashed(_) => true,
            _ => false,
        }
    }

    /// Takes one report of the shell. Returns the next phase and the next
    /// request, or `None` where this phase does not wait for `event`.
    pub fn step(self, event: Event) -> (out: Option<(Phase, Action)>)
        ensures
            out == self.spec_step(event),
    {
        match self {
            Phase::Idle => match event {
                Event::Launched => Some((Phase::AttachingPlugin, Action::RegisterPlugin)),
                _ => None,
            },
            Phase::AttachingPlugin => match event {
                Event::PluginRegistered => Some((Phase::Starting, Action::StartFramework)),
                _ => None,
            },
            Phase::Starting => match event {
                Event::SetupInvoked => Some((Phase::LookingUp, Action::LookUpWindow)),
                Event::RunReturned { ok } => Some(Self::after_run(ok)),
                _ => None,
            },
            Phase::LookingUp => match event {
                Event::WindowLookedUp { found } => if found {
                    Some((Phase::Showing, Action::ShowWindow))
                } else {
                    Some((Phase::Running, Action::ReportSetupSuccess))
                },
                _ => None,
            },
            Phase::Showing => match event {
                Event::ShowReturned { ok } => if ok {
                    Some((Phase::Running, Action::ReportSetupSuccess))
                } else {
                    Some((Phase::Crashed(Fatal::ShowFailed), Action::Terminate(Fatal::ShowFailed)))
                },
                _ => None,
            },
            Phase::Running => match event {
                Event::RunReturned { ok } => Some(Self::after_run(ok)),
                _ => None,
            },
            Phase::Finished => None,
            Phase::Crashed(_) => None,
        }
    }

    /// What follows the return of the run loop.
    fn after_run(ok: bool) -> (out: (Phase, Action))
        ensures
            ok ==> out == (Phase::Finished, Action::Finish),
            !ok ==> out == (Phase::Crashed(Fatal::RunFailed), Action::Terminate(Fatal::RunFailed)),
    {
        if ok {
            (Phase::Finished, Action::Finish)
        } else {
            (Phase::Crashed(Fatal::RunFailed), Action::Terminate(Fatal::RunFailed))
        }
    }
}

} // verus!
