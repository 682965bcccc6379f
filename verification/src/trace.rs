//! Whole start-ups: the phase reached and the requests made over a sequence
//! of reports, taken from the first one on.

use vstd::prelude::*;
use crate::protocol::{Action, Event};
use crate::sequencer::Phase;

verus! {

/// The phase reached from [`Phase::Idle`] once `events` were reported in
/// order. A report that the phase of its moment does not wait for changes
/// nothing.
pub open spec fn phase_after(events: Seq<Event>) -> Phase
    decreases events.len(),
{
    if events.len() == 0 {
        Phase::Idle
    } else {
        let before = phase_after(events.drop_last());
        match before.spec_step(events.last()) {
            Some((phase, _)) => phase,
            None => before,
        }
    }
}

/// The requests made to the shell, in order, while `events` were reported
/// from [`Phase::Idle`] on.
pub open spec fn actions_of(events: Seq<Event>) -> Seq<Action>
    decreases events.len(),
{
    if events.len() == 0 {
        Seq::empty()
    } else {
        let earlier = actions_of(events.drop_last());
        match phase_after(events.drop_last()).spec_step(events.last()) {
            Some((_, action)) => earlier.push(action),
            None => earlier,
        }
    }
}

/// How often `action` occurs in `actions`.
pub open spec fn occurrences(actions: Seq<Action>, action: Action) -> nat
    decreases actions.len(),
{
    if actions.len() == 0 {
        0
    } else if actions.last() == action {
        occurrences(actions.drop_last(), action) + 1
    } else {
        occurrences(actions.drop_last(), action)
    }
}

/// Appending a request raises the count of that request by one and leaves
/// every other count as it was.
pub proof fn lemma_occurrences_push(actions: Seq<Action>, added: Action, counted: Action)
    ensures
        occurrences(actions.push(added), counted) == occurrences(actions, counted) + (if added
            == counted {
            1nat
        } else {
            0nat
        }),
{
    assert(actions.push(added).drop_last() =~= actions);
    assert(actions.push(added).last() == added);
}

/// Runs a recorded start-up: feeds `events` to the sequencer in order,
/// beginning in [`Phase::Idle`], and returns the phase reached together with
/// every request made on the way.
pub fn replay(events: &Vec<Event>) -> (out: (Phase, Vec<Action>))
    ensures
        out.0 == phase_after(events@),
        out.1@ == actions_of(events@),
{
    let mut phase = Phase::initial();
    let mut actions: Vec<Action> = Vec::new();
    let mut i: usize = 0;
    while i < events.len()
        invariant
            i <= events.len(),
            phase == phase_after(events@.take(i as int)),
            actions@ == actions_of(events@.take(i as int)),
        decreases events.len() - i,
    {
        proof {
            let next = events@.take(i + 1);
            assert(next.drop_last() == events@.take(i as int));
            assert(next.last() == events@[i as int]);
        }
        match phase.step(events[i]) {
            Some((reached, action)) => {
                phase = reached;
                actions.push(action);
            },
            None => {},
        }
        i += 1;
    }
    proof {
        assert(events@.take(i as int) == events@);
    }
    (phase, actions)
}

} // verus!
