use vidreprocess::session::{RunEvent, RunPhase, SessionState};

#[test]
fn cancel_without_process_changes_nothing() {
    let mut session = SessionState::new();
    assert_eq!(session.current_pid, None);
    assert_eq!(session.cancel(), None);
    assert_eq!(session, SessionState::new());
    assert_eq!(session.cancel(), None);
    assert_eq!(session, SessionState::new());
}

#[test]
fn cancel_hands_out_the_running_process_once() {
    let mut session = SessionState::new();
    let phase = session.observe(RunPhase::Idle, RunEvent::Requested);
    assert_eq!(phase, RunPhase::Spawning);
    let phase = session.observe(phase, RunEvent::Spawned(4711));
    assert_eq!(phase, RunPhase::Running);
    assert_eq!(session.current_pid, Some(4711));
    assert_eq!(session.cancel(), Some(4711));
    assert_eq!(session.current_pid, None);
    assert_eq!(session.cancel(), None);
    let phase = session.observe(phase, RunEvent::Exited(false));
    assert_eq!(phase, RunPhase::Cancelled);
    assert_eq!(session.current_pid, None);
}

#[test]
fn run_that_succeeds() {
    let mut session = SessionState::new();
    let phase = session.observe(RunPhase::Idle, RunEvent::Requested);
    let phase = session.observe(phase, RunEvent::Spawned(7));
    let phase = session.observe(phase, RunEvent::Exited(true));
    assert_eq!(phase, RunPhase::Succeeded);
    assert_eq!(session.current_pid, None);
    assert_eq!(session.observe(phase, RunEvent::Requested), RunPhase::Spawning);
}

#[test]
fn run_that_fails_by_itself() {
    let mut session = SessionState::new();
    let phase = session.observe(RunPhase::Idle, RunEvent::Requested);
    let phase = session.observe(phase, RunEvent::Spawned(7));
    let phase = session.observe(phase, RunEvent::Exited(false));
    assert_eq!(phase, RunPhase::Failed);
    assert_eq!(session.current_pid, None);
}

#[test]
fn process_that_does_not_start() {
    let mut session = SessionState::new();
    let phase = session.observe(RunPhase::Idle, RunEvent::Requested);
    let phase = session.observe(phase, RunEvent::SpawnFailed);
    assert_eq!(phase, RunPhase::Failed);
    assert_eq!(session.current_pid, None);
}

#[test]
fn new_process_replaces_a_stale_record() {
    let mut session = SessionState { current_pid: Some(1) };
    let phase = session.observe(RunPhase::Spawning, RunEvent::Spawned(2));
    assert_eq!(phase, RunPhase::Running);
    assert_eq!(session.current_pid, Some(2));
}

#[test]
fn events_out_of_place_change_nothing() {
    let mut session = SessionState { current_pid: Some(9) };
    assert_eq!(session.observe(RunPhase::Idle, RunEvent::Exited(true)), RunPhase::Idle);
    assert_eq!(session.observe(RunPhase::Idle, RunEvent::Spawned(3)), RunPhase::Idle);
    assert_eq!(session.observe(RunPhase::Running, RunEvent::Requested), RunPhase::Running);
    assert_eq!(session.observe(RunPhase::Running, RunEvent::Spawned(3)), RunPhase::Running);
    assert_eq!(session.observe(RunPhase::Spawning, RunEvent::Exited(false)), RunPhase::Spawning);
    assert_eq!(session.current_pid, Some(9));
}
