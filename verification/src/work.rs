//! The unit of work of a session: announce the start, wait, announce the
//! completion. It is written as a step function so that whoever drives it
//! performs the wait, while the order of the steps is decided here.

use vstd::prelude::*;

verus! {

/// What a unit of work announces, tagged with the caller's identifier.
#[derive(Clone, Copy, Debug, PartialEq, Eq, Structural)]
pub enum Marker {
    /// The unit of work has begun.
    Enters(usize),
    /// The unit of work has completed.
    Exits(usize),
}

/// How far a unit of work has come.
#[derive(Clone, Copy, Debug, PartialEq, Eq, Structural)]
pub enum Phase {
    /// Nothing has happened yet.
    Created,
    /// The start marker has been emitted.
    Entered,
    /// The wait has elapsed.
    Waited,
    /// The completion marker has been emitted.
    Exited,
}

/// What the driver of a unit of work has to do next.
#[derive(Clone, Copy, Debug, PartialEq, Eq, Structural)]
pub enum Action {
    /// Emit this marker.
    Emit(Marker),
    /// Suspend for this many milliseconds.
    Wait(u64),
    /// Nothing is left to do: return to the caller.
    Finish,
}

/// The phase that follows `phase`; the last phase follows itself.
pub open spec fn next_phase(phase: Phase) -> Phase {
    match phase {
        Phase::Created => Phase::Entered,
        Phase::Entered => Phase::Waited,
        Phase::Waited => Phase::Exited,
        Phase::Exited => Phase::Exited,
    }
}

/// The action that leads out of `phase` for the unit of work `(id, millis)`.
pub open spec fn action_at(phase: Phase, id: usize, millis: u64) -> Action {
    match phase {
        Phase::Created => Action::Emit(Marker::Enters(id)),
        Phase::Entered => Action::Wait(millis),
        Phase::Waited => Action::Emit(Marker::Exits(id)),
        Phase::Exited => Action::Finish,
    }
}

/// The number of actions still to be performed from `phase`, the final
/// `Finish` not counted.
pub open spec fn steps_left(phase: Phase) -> nat {
    match phase {
        Phase::Created => 3,
        Phase::Entered => 2,
        Phase::Waited => 1,
        Phase::Exited => 0,
    }
}

/// The actions performed from `phase` on, in order, up to `Finish`.
pub open spec fn actions_from(phase: Phase, id: usize, millis: u64) -> Seq<Action>
    decreases steps_left(phase),
{
    if phase == Phase::Exited {
        Seq::empty()
    } else {
        seq![action_at(phase, id, millis)] + actions_from(next_phase(phase), id, millis)
    }
}

/// The markers of one complete unit of work for `id`.
pub open spec fn markers_for(id: usize) -> Seq<Marker> {
    seq![Marker::Enters(id), Marker::Exits(id)]
}

/// The actions that a unit of work for `(id, millis)` has performed once
/// it stands in `phase`, in order.
pub open spec fn actions_until(phase: Phase, id: usize, millis: u64) -> Seq<Action> {
    match phase {
        Phase::Created => Seq::empty(),
        Phase::Entered => seq![Action::Emit(Marker::Enters(id))],
        Phase::Waited => seq![Action::Emit(Marker::Enters(id)), Action::Wait(millis)],
        Phase::Exited => seq![
            Action::Emit(Marker::Enters(id)),
            Action::Wait(millis),
            Action::Emit(Marker::Exits(id)),
        ],
    }
}

/// The markers that a unit of work for `id` has emitted once it stands in
/// `phase`, in the order in which they were emitted.
pub open spec fn markers_until(phase: Phase, id: usize) -> Seq<Marker> {
    match phase {
        Phase::Created => Seq::empty(),
        Phase::Entered => seq![Marker::Enters(id)],
        Phase::Waited => seq![Marker::Enters(id)],
        Phase::Exited => markers_for(id),
    }
}

/// The marker that performing `action` hands to the caller, if any.
pub open spec fn marker_of(action: Action) -> Option<Marker> {
    match action {
        Action::Emit(marker) => Some(marker),
        _ => None,
    }
}

/// The logic of one unit of work. It carries no state of its own: every
/// step depends on the phase and on the call's own arguments alone.
pub struct SessionInner {}

impl SessionInner {
    /// Advances the unit of work `(id, millis)` by one step: returns the
    /// action to perform in `phase` and the phase that holds once it has
    /// been performed.
    pub fn run(&self, phase: Phase, id: usize, millis: u64) -> (step: (Phase, Action))
        ensures
            step.0 == next_phase(phase),
            step.1 == action_at(phase, id, millis),
    {
        match phase {
            Phase::Created => (Phase::Entered, Action::Emit(Marker::Enters(id))),
            Phase::Entered => (Phase::Waited, Action::Wait(millis)),
            Phase::Waited => (Phase::Exited, Action::Emit(Marker::Exits(id))),
            Phase::Exited => (Phase::Exited, Action::Finish),
        }
    }
}

/// A complete unit of work performs exactly three actions: it emits the
/// start marker, waits for the requested time, and emits the completion
/// marker.
pub proof fn lemma_actions_of_a_call(id: usize, millis: u64)
    ensures
        actions_from(Phase::Created, id, millis) == actions_until(Phase::Exited, id, millis),
{
    reveal_with_fuel(actions_from, 5);
    assert(actions_from(Phase::Created, id, millis) =~= actions_until(Phase::Exited, id, millis));
}

/// Within one unit of work both markers are emitted, the start marker
/// strictly before the completion marker, and the wait for the requested
/// time stands between the two.
pub proof fn lemma_start_before_completion(id: usize, millis: u64)
    ensures
        ({
            let actions = actions_from(Phase::Created, id, millis);
            &&& exists|i: int, j: int|
                0 <= i < j < actions.len() && #[trigger] actions[i] == Action::Emit(
                    Marker::Enters(id),
                ) && #[trigger] actions[j] == Action::Emit(Marker::Exits(id))
            &&& forall|i: int, j: int|
                0 <= i < actions.len() && 0 <= j < actions.len() && #[trigger] actions[i]
                    == Action::Emit(Marker::Enters(id)) && #[trigger] actions[j] == Action::Emit(
                    Marker::Exits(id),
                ) ==> i < j && exists|w: int|
                    i < w < j && #[trigger] actions[w] == Action::Wait(millis)
        }),
{
    lemma_actions_of_a_call(id, millis);
    let actions = actions_from(Phase::Created, id, millis);
    assert(actions[0] == Action::Emit(Marker::Enters(id)));
    assert(actions[1] == Action::Wait(millis));
    assert(actions[2] == Action::Emit(Marker::Exits(id)));
}

/// The phase of a unit of work that has been given `turns` turns.
pub open spec fn phase_after(turns: nat) -> Phase
    decreases turns,
{
    if turns == 0 {
        Phase::Created
    } else {
        next_phase(phase_after((turns - 1) as nat))
    }
}

/// How many turns `schedule` gives to the first of two units of work
/// (`true`) or to the second (`false`).
pub open spec fn turns_of(schedule: Seq<bool>, first: bool) -> nat
    decreases schedule.len(),
{
    if schedule.len() == 0 {
        0
    } else {
        turns_of(schedule.drop_last(), first) + if schedule.last() == first {
            1nat
        } else {
            0nat
        }
    }
}

/// Two units of work under way on one session, each in its own phase, and
/// the actions that each has performed so far.
pub struct Joint {
    pub first: Phase,
    pub second: Phase,
    pub first_actions: Seq<Action>,
    pub second_actions: Seq<Action>,
}

/// The state of two units of work `(id, millis)` and `(other_id,
/// other_millis)` that share a session and take their steps in the order
/// that `schedule` gives: `true` is a turn of the first, `false` one of
/// the second. A turn performs the action of `SessionInner::run`; a turn
/// of a unit of work that is complete performs nothing.
pub open spec fn interleaved(
    schedule: Seq<bool>,
    id: usize,
    millis: u64,
    other_id: usize,
    other_millis: u64,
) -> Joint
    decreases schedule.len(),
{
    if schedule.len() == 0 {
        Joint {
            first: Phase::Created,
            second: Phase::Created,
            first_actions: Seq::empty(),
            second_actions: Seq::empty(),
        }
    } else {
        let before = interleaved(schedule.drop_last(), id, millis, other_id, other_millis);
        if schedule.last() {
            Joint {
                first: next_phase(before.first),
                first_actions: if before.first == Phase::Exited {
                    before.first_actions
                } else {
                    before.first_actions.push(action_at(before.first, id, millis))
                },
                ..before
            }
        } else {
            Joint {
                second: next_phase(before.second),
                second_actions: if before.second == Phase::Exited {
                    before.second_actions
                } else {
                    before.second_actions.push(action_at(before.second, other_id, other_millis))
                },
                ..before
            }
        }
    }
}

/// A unit of work that shares its session with another one performs what
/// it would perform alone: however the steps of the two are interleaved,
/// the actions of each are those of its own identifier and duration, as
/// far as its own turns have brought it, and nothing of the other call
/// enters into them. A schedule that gives all turns of one before those
/// of the other is the case of two calls in sequence.
pub proof fn lemma_calls_do_not_interfere(
    schedule: Seq<bool>,
    id: usize,
    millis: u64,
    other_id: usize,
    other_millis: u64,
)
    ensures
        ({
            let joint = interleaved(schedule, id, millis, other_id, other_millis);
            &&& joint.first == phase_after(turns_of(schedule, true))
            &&& joint.second == phase_after(turns_of(schedule, false))
            &&& joint.first_actions == actions_until(joint.first, id, millis)
            &&& joint.second_actions == actions_until(joint.second, other_id, other_millis)
        }),
    decreases schedule.len(),
{
    if schedule.len() > 0 {
        lemma_calls_do_not_interfere(schedule.drop_last(), id, millis, other_id, other_millis);
        let before = interleaved(schedule.drop_last(), id, millis, other_id, other_millis);
        let joint = interleaved(schedule, id, millis, other_id, other_millis);
        assert(joint.first_actions =~= actions_until(joint.first, id, millis));
        assert(joint.second_actions =~= actions_until(joint.second, other_id, other_millis));
    }
}

/// Three turns complete a unit of work, and further turns change nothing.
pub proof fn lemma_phase_after_three(turns: nat)
    requires
        turns >= 3,
    ensures
        phase_after(turns) == Phase::Exited,
    decreases turns,
{
    if turns == 3 {
        reveal_with_fuel(phase_after, 5);
    } else {
        lemma_phase_after_three((turns - 1) as nat);
    }
}

/// A unit of work that has had all its turns has performed exactly the
/// actions of a complete call, whatever else ran beside it.
pub proof fn lemma_interleaved_call_completes(
    schedule: Seq<bool>,
    id: usize,
    millis: u64,
    other_id: usize,
    other_millis: u64,
)
    requires
        turns_of(schedule, false) >= 3,
    ensures
        interleaved(schedule, id, millis, other_id, other_millis).second_actions == actions_from(
            Phase::Created,
            other_id,
            other_millis,
        ),
{
    lemma_calls_do_not_interfere(schedule, id, millis, other_id, other_millis);
    lemma_actions_of_a_call(other_id, other_millis);
    lemma_phase_after_three(turns_of(schedule, false));
}

} // verus!
