//! What holds of every start-up, whatever the shell reports and in whatever
//! order.

use vstd::prelude::*;
use crate::protocol::{Action, Event, Fatal};
use crate::sequencer::Phase;
use crate::trace::{actions_of, lemma_occurrences_push, occurrences, phase_after};

verus! {

/// The two requests that open every start-up.
pub open spec fn opening() -> Seq<Action> {
    seq![Action::RegisterPlugin].push(Action::StartFramework)
}

/// The requests of a setup hook that found the main window and revealed it.
pub open spec fn setup_with_window() -> Seq<Action> {
    opening().push(Action::LookUpWindow).push(Action::ShowWindow).push(Action::ReportSetupSuccess)
}

/// The requests of a setup hook that found no main window.
pub open spec fn setup_without_window() -> Seq<Action> {
    opening().push(Action::LookUpWindow).push(Action::ReportSetupSuccess)
}

/// The request sequences that can have led to `phase`.
pub open spec fn leads_to(actions: Seq<Action>, phase: Phase) -> bool {
    match phase {
        Phase::Idle => actions == Seq::<Action>::empty(),
        Phase::AttachingPlugin => actions == seq![Action::RegisterPlugin],
        Phase::Starting => actions == opening(),
        Phase::LookingUp => actions == opening().push(Action::LookUpWindow),
        Phase::Showing => actions == opening().push(Action::LookUpWindow).push(Action::ShowWindow),
        Phase::Running => actions == setup_with_window() || actions == setup_without_window(),
        Phase::Finished => {
            ||| actions == opening().push(Action::Finish)
            ||| actions == setup_with_window().push(Action::Finish)
            ||| actions == setup_without_window().push(Action::Finish)
        },
        Phase::Crashed(Fatal::ShowFailed) => actions == opening().push(Action::LookUpWindow).push(
            Action::ShowWindow,
        ).push(Action::Terminate(Fatal::ShowFailed)),
        Phase::Crashed(Fatal::RunFailed) => {
            ||| actions == opening().push(Action::Terminate(Fatal::RunFailed))
            ||| actions == setup_with_window().push(Action::Terminate(Fatal::RunFailed))
            ||| actions == setup_without_window().push(Action::Terminate(Fatal::RunFailed))
        },
    }
}

/// Whether `action` is one that the setup hook makes.
pub open spec fn made_by_setup(action: Action) -> bool {
    ||| action == Action::LookUpWindow
    ||| action == Action::ShowWindow
    ||| action == Action::ReportSetupSuccess
    ||| action == Action::Terminate(Fatal::ShowFailed)
}

/// A phase that is over waits for nothing: whatever is reported then, the
/// phase stays and nothing more is asked.
pub proof fn law_terminal_phase_is_final(phase: Phase, event: Event)
    requires
        phase.is_terminal(),
    ensures
        phase.spec_step(event) is None,
{
}

/// Every start-up follows the script: the requests made so far are exactly
/// one of the few sequences that lead to the phase reached.
pub proof fn law_requests_follow_script(events: Seq<Event>)
    ensures
        leads_to(actions_of(events), phase_after(events)),
    decreases events.len(),
{
    if events.len() > 0 {
        law_requests_follow_script(events.drop_last());
    }
}

/// In every start-up the main window is asked to show at most once and the
/// setup hook reports success at most once. Before the registry has
/// answered, neither has happened; while the show is pending or after it
/// failed, the window was asked once and no success was reported; once the
/// run loop owns the process, success was reported exactly once.
pub proof fn law_show_and_success_at_most_once(events: Seq<Event>)
    ensures
        ({
            let shown = occurrences(actions_of(events), Action::ShowWindow);
            let reported = occurrences(actions_of(events), Action::ReportSetupSuccess);
            match phase_after(events) {
                Phase::Idle | Phase::AttachingPlugin | Phase::Starting | Phase::LookingUp => shown
                    == 0 && reported == 0,
                Phase::Showing | Phase::Crashed(Fatal::ShowFailed) => shown == 1 && reported == 0,
                Phase::Running => shown <= 1 && reported == 1,
                Phase::Finished | Phase::Crashed(Fatal::RunFailed) => shown <= reported <= 1,
            }
        }),
    decreases events.len(),
{
    if events.len() > 0 {
        let earlier = events.drop_last();
        law_show_and_success_at_most_once(earlier);
        match phase_after(earlier).spec_step(events.last()) {
            Some((_, action)) => {
                lemma_occurrences_push(actions_of(earlier), action, Action::ShowWindow);
                lemma_occurrences_push(actions_of(earlier), action, Action::ReportSetupSuccess);
            },
            None => {},
        }
    }
}

/// If the main window exists when the setup hook looks it up, it is asked to
/// show exactly once in the whole start-up, however the reports go on; and
/// the setup hook reports success exactly once, unless the show is still
/// pending or has failed.
pub proof fn law_found_window_is_shown_once(events: Seq<Event>, k: int)
    requires
        0 <= k < events.len(),
        phase_after(events.take(k)) == Phase::LookingUp,
        events[k] == (Event::WindowLookedUp { found: true }),
    ensures
        occurrences(actions_of(events), Action::ShowWindow) == 1,
        actions_of(events.take(k + 1)) == actions_of(events.take(k)).push(Action::ShowWindow),
        occurrences(actions_of(events), Action::ReportSetupSuccess) == (if phase_after(events)
            == Phase::Showing || phase_after(events) == Phase::Crashed(Fatal::ShowFailed) {
            0nat
        } else {
            1nat
        }),
    decreases events.len(),
{
    let asked = events.take(k + 1);
    assert(asked.drop_last() == events.take(k));
    if events.len() == k + 1 {
        assert(events == asked);
        law_show_and_success_at_most_once(events);
    } else {
        let earlier = events.drop_last();
        assert(earlier.take(k) == events.take(k));
        assert(earlier.take(k + 1) == asked);
        law_found_window_is_shown_once(earlier, k);
        law_show_and_success_at_most_once(earlier);
        match phase_after(earlier).spec_step(events.last()) {
            Some((_, action)) => {
                lemma_occurrences_push(actions_of(earlier), action, Action::ShowWindow);
                lemma_occurrences_push(actions_of(earlier), action, Action::ReportSetupSuccess);
            },
            None => {},
        }
    }
}

/// If no main window exists when the setup hook looks it up, the hook
/// reports success in answer to that very lookup, and no window is asked to
/// show in the whole start-up, however the reports go on.
pub proof fn law_missing_window_is_never_shown(events: Seq<Event>, k: int)
    requires
        0 <= k < events.len(),
        phase_after(events.take(k)) == Phase::LookingUp,
        events[k] == (Event::WindowLookedUp { found: false }),
    ensures
        occurrences(actions_of(events), Action::ShowWindow) == 0,
        occurrences(actions_of(events), Action::ReportSetupSuccess) == 1,
        actions_of(events.take(k + 1)) == actions_of(events.take(k)).push(
            Action::ReportSetupSuccess,
        ),
        phase_after(events) == Phase::Running || phase_after(events) == Phase::Finished
            || phase_after(events) == Phase::Crashed(Fatal::RunFailed),
    decreases events.len(),
{
    let answered = events.take(k + 1);
    assert(answered.drop_last() == events.take(k));
    if events.len() == k + 1 {
        assert(events == answered);
        law_show_and_success_at_most_once(events.take(k));
        lemma_occurrences_push(
            actions_of(events.take(k)),
            Action::ReportSetupSuccess,
            Action::ShowWindow,
        );
        lemma_occurrences_push(
            actions_of(events.take(k)),
            Action::ReportSetupSuccess,
            Action::ReportSetupSuccess,
        );
    } else {
        let earlier = events.drop_last();
        assert(earlier.take(k) == events.take(k));
        assert(earlier.take(k + 1) == answered);
        law_missing_window_is_never_shown(earlier, k);
        match phase_after(earlier).spec_step(events.last()) {
            Some((_, action)) => {
                lemma_occurrences_push(actions_of(earlier), action, Action::ShowWindow);
                lemma_occurrences_push(actions_of(earlier), action, Action::ReportSetupSuccess);
            },
            None => {},
        }
    }
}

/// If the request to show the main window fails, the start-up ends there in
/// a crash: the one request that follows is to terminate, whatever is
/// reported afterwards; the setup hook never reports success and the run
/// loop never gets the process.
pub proof fn law_failed_show_is_fatal(events: Seq<Event>, k: int)
    requires
        0 <= k < events.len(),
        phase_after(events.take(k)) == Phase::Showing,
        events[k] == (Event::ShowReturned { ok: false }),
    ensures
        phase_after(events) == Phase::Crashed(Fatal::ShowFailed),
        actions_of(events) == actions_of(events.take(k)).push(
            Action::Terminate(Fatal::ShowFailed),
        ),
        occurrences(actions_of(events), Action::ReportSetupSuccess) == 0,
    decreases events.len(),
{
    if events.len() == k + 1 {
        assert(events.drop_last() == events.take(k));
    } else {
        let earlier = events.drop_last();
        assert(earlier.take(k) == events.take(k));
        law_failed_show_is_fatal(earlier, k);
    }
    law_show_and_success_at_most_once(events);
}

/// The plugin is registered before the setup hook does anything: wherever a
/// request of the setup hook stands among the requests of a start-up, the
/// first request of that start-up was to register the plugin and the second
/// to start the framework.
pub proof fn law_plugin_precedes_setup(events: Seq<Event>, j: int)
    requires
        0 <= j < actions_of(events).len(),
        made_by_setup(actions_of(events)[j]),
    ensures
        2 <= j,
        actions_of(events)[0] == Action::RegisterPlugin,
        actions_of(events)[1] == Action::StartFramework,
{
    law_requests_follow_script(events);
}

} // verus!
