use nux_session::work::{Action, Marker, Phase, SessionInner};

#[test]
fn step_from_created_emits_start_marker() {
    let inner = SessionInner {};
    assert_eq!(
        inner.run(Phase::Created, 3, 500),
        (Phase::Entered, Action::Emit(Marker::Enters(3)))
    );
}

#[test]
fn step_from_entered_waits_requested_time() {
    let inner = SessionInner {};
    assert_eq!(inner.run(Phase::Entered, 3, 500), (Phase::Waited, Action::Wait(500)));
}

#[test]
fn step_from_waited_emits_completion_marker() {
    let inner = SessionInner {};
    assert_eq!(
        inner.run(Phase::Waited, 3, 500),
        (Phase::Exited, Action::Emit(Marker::Exits(3)))
    );
}

#[test]
fn step_from_exited_finishes_and_stays() {
    let inner = SessionInner {};
    assert_eq!(inner.run(Phase::Exited, 3, 500), (Phase::Exited, Action::Finish));
    assert_eq!(inner.run(Phase::Exited, 9, 0), (Phase::Exited, Action::Finish));
}

#[test]
fn driving_a_unit_of_work_gives_start_wait_completion() {
    let inner = SessionInner {};
    let mut phase = Phase::Created;
    let mut actions = Vec::new();
    loop {
        let (next, action) = inner.run(phase, 42, 17);
        if action == Action::Finish {
            break;
        }
        actions.push(action);
        phase = next;
    }
    assert_eq!(
        actions,
        vec![
            Action::Emit(Marker::Enters(42)),
            Action::Wait(17),
            Action::Emit(Marker::Exits(42)),
        ]
    );
    assert_eq!(phase, Phase::Exited);
}

#[test]
fn steps_of_one_call_ignore_steps_of_another() {
    let inner = SessionInner {};
    let (a1, _) = inner.run(Phase::Created, 5, 100);
    let (b1, b_action) = inner.run(Phase::Created, 7, 20);
    let (_, a_action) = inner.run(a1, 5, 100);
    assert_eq!(a_action, Action::Wait(100));
    assert_eq!(b_action, Action::Emit(Marker::Enters(7)));
    assert_eq!(inner.run(b1, 7, 20), (Phase::Waited, Action::Wait(20)));
}

#[test]
fn extreme_identifier_and_duration_are_carried_unchanged() {
    let inner = SessionInner {};
    assert_eq!(
        inner.run(Phase::Created, usize::MAX, u64::MAX),
        (Phase::Entered, Action::Emit(Marker::Enters(usize::MAX)))
    );
    assert_eq!(
        inner.run(Phase::Entered, usize::MAX, u64::MAX),
        (Phase::Waited, Action::Wait(u64::MAX))
    );
}
