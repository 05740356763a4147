use nux_session::session::{BlockingSession, SessionError};
use nux_session::work::{Action, Marker, Phase, SessionInner};
use std::time::{Duration, Instant};

#[test]
fn new_session_is_ready_for_work() {
    let session = BlockingSession::new();
    assert!(session.is_ok());
}

#[test]
fn run_returns_start_then_completion_marker() {
    let session = BlockingSession::new().ok().unwrap();
    assert_eq!(session.run(5, 10), vec![Marker::Enters(5), Marker::Exits(5)]);
}

#[test]
fn run_with_zero_duration_completes() {
    let session = BlockingSession::new().ok().unwrap();
    assert_eq!(session.run(0, 0), vec![Marker::Enters(0), Marker::Exits(0)]);
}

#[test]
fn run_does_not_return_early() {
    let session = BlockingSession::new().ok().unwrap();
    let begun = Instant::now();
    let log = session.run(1, 120);
    let taken = begun.elapsed();
    assert!(taken >= Duration::from_millis(120));
    assert!(taken < Duration::from_secs(10));
    assert_eq!(log, vec![Marker::Enters(1), Marker::Exits(1)]);
}

#[test]
fn later_run_is_not_affected_by_earlier_run() {
    let session = BlockingSession::new().ok().unwrap();
    let first = session.run(5, 60);
    let begun = Instant::now();
    let second = session.run(7, 15);
    let taken = begun.elapsed();
    assert_eq!(first, vec![Marker::Enters(5), Marker::Exits(5)]);
    assert_eq!(second, vec![Marker::Enters(7), Marker::Exits(7)]);
    assert!(taken >= Duration::from_millis(15));
    assert!(taken < Duration::from_secs(5));
}

#[test]
fn assemble_with_refused_executor_gives_executor_unavailable() {
    let refused = Err(std::io::Error::new(std::io::ErrorKind::Other, "no threads"));
    let session = BlockingSession::assemble(refused);
    assert!(matches!(session, Err(SessionError::ExecutorUnavailable)));
}

#[test]
fn perform_hands_back_the_marker_of_an_emit() {
    let session = BlockingSession::new().ok().unwrap();
    assert_eq!(session.perform(Action::Emit(Marker::Enters(4))), Some(Marker::Enters(4)));
    assert_eq!(session.perform(Action::Emit(Marker::Exits(4))), Some(Marker::Exits(4)));
}

#[test]
fn perform_waits_and_hands_back_nothing() {
    let session = BlockingSession::new().ok().unwrap();
    let begun = Instant::now();
    assert_eq!(session.perform(Action::Wait(90)), None);
    let taken = begun.elapsed();
    assert!(taken >= Duration::from_millis(90));
    assert!(taken < Duration::from_secs(10));
}

#[test]
fn perform_of_finish_does_nothing() {
    let session = BlockingSession::new().ok().unwrap();
    let begun = Instant::now();
    assert_eq!(session.perform(Action::Finish), None);
    assert!(begun.elapsed() < Duration::from_secs(5));
}

#[test]
fn driven_steps_give_start_marker_before_the_wait() {
    let session = BlockingSession::new().ok().unwrap();
    let inner = SessionInner {};
    let begun = Instant::now();
    let mut seen: Vec<(Marker, Duration)> = Vec::new();
    let mut phase = Phase::Created;
    loop {
        let (next, action) = inner.run(phase, 6, 150);
        if action == Action::Finish {
            break;
        }
        if let Some(marker) = session.perform(action) {
            seen.push((marker, begun.elapsed()));
        }
        phase = next;
    }
    assert_eq!(seen.len(), 2);
    assert_eq!(seen[0].0, Marker::Enters(6));
    assert_eq!(seen[1].0, Marker::Exits(6));
    assert!(seen[0].1 < Duration::from_millis(150));
    assert!(seen[1].1 >= Duration::from_millis(150));
    assert!(seen[1].1 - seen[0].1 >= Duration::from_millis(1));
}
