use app_bootstrap::protocol::{Action, Event, Fatal};
use app_bootstrap::sequencer::Phase;

fn all_phases() -> Vec<Phase> {
    vec![
        Phase::Idle,
        Phase::AttachingPlugin,
        Phase::Starting,
        Phase::LookingUp,
        Phase::Showing,
        Phase::Running,
        Phase::Finished,
        Phase::Crashed(Fatal::ShowFailed),
        Phase::Crashed(Fatal::RunFailed),
    ]
}

fn all_events() -> Vec<Event> {
    vec![
        Event::Launched,
        Event::PluginRegistered,
        Event::SetupInvoked,
        Event::WindowLookedUp { found: true },
        Event::WindowLookedUp { found: false },
        Event::ShowReturned { ok: true },
        Event::ShowReturned { ok: false },
        Event::RunReturned { ok: true },
        Event::RunReturned { ok: false },
    ]
}

/// The whole transition table, written out by hand.
fn expected(phase: Phase, event: Event) -> Option<(Phase, Action)> {
    let run_ended = |ok: bool| {
        if ok {
            (Phase::Finished, Action::Finish)
        } else {
            (
                Phase::Crashed(Fatal::RunFailed),
                Action::Terminate(Fatal::RunFailed),
            )
        }
    };
    match (phase, event) {
        (Phase::Idle, Event::Launched) => Some((Phase::AttachingPlugin, Action::RegisterPlugin)),
        (Phase::AttachingPlugin, Event::PluginRegistered) => {
            Some((Phase::Starting, Action::StartFramework))
        }
        (Phase::Starting, Event::SetupInvoked) => Some((Phase::LookingUp, Action::LookUpWindow)),
        (Phase::Starting, Event::RunReturned { ok }) => Some(run_ended(ok)),
        (Phase::LookingUp, Event::WindowLookedUp { found: true }) => {
            Some((Phase::Showing, Action::ShowWindow))
        }
        (Phase::LookingUp, Event::WindowLookedUp { found: false }) => {
            Some((Phase::Running, Action::ReportSetupSuccess))
        }
        (Phase::Showing, Event::ShowReturned { ok: true }) => {
            Some((Phase::Running, Action::ReportSetupSuccess))
        }
        (Phase::Showing, Event::ShowReturned { ok: false }) => Some((
            Phase::Crashed(Fatal::ShowFailed),
            Action::Terminate(Fatal::ShowFailed),
        )),
        (Phase::Running, Event::RunReturned { ok }) => Some(run_ended(ok)),
        _ => None,
    }
}

#[test]
fn start_up_begins_idle() {
    assert_eq!(Phase::initial(), Phase::Idle);
    assert!(!Phase::initial().ended());
}

#[test]
fn launch_asks_for_the_plugin() {
    assert_eq!(
        Phase::Idle.step(Event::Launched),
        Some((Phase::AttachingPlugin, Action::RegisterPlugin))
    );
}

#[test]
fn registered_plugin_starts_the_framework() {
    assert_eq!(
        Phase::AttachingPlugin.step(Event::PluginRegistered),
        Some((Phase::Starting, Action::StartFramework))
    );
}

#[test]
fn setup_hook_looks_the_window_up() {
    assert_eq!(
        Phase::Starting.step(Event::SetupInvoked),
        Some((Phase::LookingUp, Action::LookUpWindow))
    );
}

#[test]
fn found_window_is_asked_to_show() {
    assert_eq!(
        Phase::LookingUp.step(Event::WindowLookedUp { found: true }),
        Some((Phase::Showing, Action::ShowWindow))
    );
}

#[test]
fn missing_window_is_no_error() {
    assert_eq!(
        Phase::LookingUp.step(Event::WindowLookedUp { found: false }),
        Some((Phase::Running, Action::ReportSetupSuccess))
    );
}

#[test]
fn shown_window_completes_setup() {
    assert_eq!(
        Phase::Showing.step(Event::ShowReturned { ok: true }),
        Some((Phase::Running, Action::ReportSetupSuccess))
    );
}

#[test]
fn failed_show_crashes() {
    assert_eq!(
        Phase::Showing.step(Event::ShowReturned { ok: false }),
        Some((
            Phase::Crashed(Fatal::ShowFailed),
            Action::Terminate(Fatal::ShowFailed)
        ))
    );
}

#[test]
fn run_loop_that_returns_cleanly_finishes() {
    assert_eq!(
        Phase::Running.step(Event::RunReturned { ok: true }),
        Some((Phase::Finished, Action::Finish))
    );
}

#[test]
fn run_loop_that_fails_crashes() {
    assert_eq!(
        Phase::Running.step(Event::RunReturned { ok: false }),
        Some((
            Phase::Crashed(Fatal::RunFailed),
            Action::Terminate(Fatal::RunFailed)
        ))
    );
}

#[test]
fn framework_that_fails_to_start_crashes() {
    assert_eq!(
        Phase::Starting.step(Event::RunReturned { ok: false }),
        Some((
            Phase::Crashed(Fatal::RunFailed),
            Action::Terminate(Fatal::RunFailed)
        ))
    );
    assert_eq!(
        Phase::Starting.step(Event::RunReturned { ok: true }),
        Some((Phase::Finished, Action::Finish))
    );
}

#[test]
fn every_transition_matches_the_table() {
    for phase in all_phases() {
        for event in all_events() {
            assert_eq!(
                phase.step(event),
                expected(phase, event),
                "{:?} on {:?}",
                phase,
                event
            );
        }
    }
}

#[test]
fn reports_out_of_turn_are_not_taken() {
    assert_eq!(Phase::Idle.step(Event::SetupInvoked), None);
    assert_eq!(Phase::Idle.step(Event::RunReturned { ok: false }), None);
    assert_eq!(Phase::AttachingPlugin.step(Event::Launched), None);
    assert_eq!(
        Phase::Starting.step(Event::WindowLookedUp { found: true }),
        None
    );
    assert_eq!(Phase::LookingUp.step(Event::ShowReturned { ok: true }), None);
    assert_eq!(Phase::LookingUp.step(Event::RunReturned { ok: true }), None);
    assert_eq!(Phase::Showing.step(Event::RunReturned { ok: false }), None);
    assert_eq!(
        Phase::Running.step(Event::WindowLookedUp { found: true }),
        None
    );
}

#[test]
fn only_finished_and_crashed_are_over() {
    for phase in all_phases() {
        let over = matches!(phase, Phase::Finished | Phase::Crashed(_));
        assert_eq!(phase.ended(), over, "{:?}", phase);
    }
}

#[test]
fn nothing_follows_the_end() {
    for phase in all_phases() {
        if phase.ended() {
            for event in all_events() {
                assert_eq!(phase.step(event), None, "{:?} on {:?}", phase, event);
            }
        }
    }
}
