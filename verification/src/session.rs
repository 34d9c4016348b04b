//! The process-wide record of the running external process, and the
//! life-cycle of one supervised run.

use vstd::prelude::*;

verus! {

/// The record of the external process that currently runs, if one does.
/// There is one per application; it is read and written under a lock, so
/// that a request to cancel may come from anywhere.
#[derive(Debug, Clone, Copy, PartialEq, Eq, Structural)]
pub struct SessionState {
    /// The identifier of the running process.
    pub current_pid: Option<u32>,
}

/// Where one supervised run of an external process stands.
#[derive(Debug, Clone, Copy, PartialEq, Eq, Structural)]
pub enum RunPhase {
    /// No run was asked for yet.
    Idle,
    /// The process is being started.
    Spawning,
    /// The process runs and its diagnostic output is relayed.
    Running,
    /// The process ended with success.
    Succeeded,
    /// The process could not be started, or ended without success.
    Failed,
    /// The process ended without success after a request to cancel.
    Cancelled,
}

/// What happened to a supervised run.
#[derive(Debug, Clone, Copy, PartialEq, Eq, Structural)]
pub enum RunEvent {
    /// A run was asked for.
    Requested,
    /// The process started, with this identifier.
    Spawned(u32),
    /// The process could not be started.
    SpawnFailed,
    /// The process ended; the flag tells whether with success.
    Exited(bool),
}

/// True when a run in `phase` has ended, so that the next may be asked for.
pub open spec fn is_at_rest(phase: RunPhase) -> bool {
    phase is Idle || phase is Succeeded || phase is Failed || phase is Cancelled
}

/// The phase that follows `phase` on `event`, where `session` is the record
/// as the event finds it. An event that does not belong to the phase
/// changes nothing. A process that ends without success has been cancelled
/// when the record was cleared while it ran.
pub open spec fn phase_after(session: SessionState, phase: RunPhase, event: RunEvent) -> RunPhase {
    match (phase, event) {
        (RunPhase::Spawning, RunEvent::Spawned(_)) => RunPhase::Running,
        (RunPhase::Spawning, RunEvent::SpawnFailed) => RunPhase::Failed,
        (RunPhase::Running, RunEvent::Exited(true)) => RunPhase::Succeeded,
        (RunPhase::Running, RunEvent::Exited(false)) => if session.current_pid is None {
            RunPhase::Cancelled
        } else {
            RunPhase::Failed
        },
        (_, RunEvent::Requested) => if is_at_rest(phase) {
            RunPhase::Spawning
        } else {
            phase
        },
        _ => phase,
    }
}

/// The record that `event` leaves behind when it finds a run in `phase`: a
/// process that starts is recorded, in place of whatever was recorded; a
/// process that ends clears the record, however it ended.
pub open spec fn session_after(session: SessionState, phase: RunPhase, event: RunEvent) -> SessionState {
    match (phase, event) {
        (RunPhase::Spawning, RunEvent::Spawned(pid)) => SessionState { current_pid: Some(pid) },
        (RunPhase::Running, RunEvent::Exited(_)) => SessionState { current_pid: None },
        _ => session,
    }
}

impl SessionState {
    /// A record that holds no process.
    pub fn new() -> (session: SessionState)
        ensures
            session.current_pid is None,
    {
        SessionState { current_pid: None }
    }

    /// Answers a request to cancel: hands out the identifier of the process
    /// to terminate, if one is recorded, and clears the record. Without a
    /// recorded process it changes nothing and hands out nothing.
    pub fn cancel(&mut self) -> (target: Option<u32>)
        ensures
            target == old(self).current_pid,
            *final(self) == cancelled(*old(self)),
            old(self).current_pid is None ==> *final(self) == *old(self),
    {
        let target = self.current_pid;
        self.current_pid = None;
        target
    }

    /// Takes note of what happened to the supervised run, which stands in
    /// `phase`, and returns the phase in which it stands now.
    pub fn observe(&mut self, phase: RunPhase, event: RunEvent) -> (next: RunPhase)
        ensures
            next == phase_after(*old(self), phase, event),
            *final(self) == session_after(*old(self), phase, event),
    {
        match (phase, event) {
            (RunPhase::Spawning, RunEvent::Spawned(pid)) => {
                self.current_pid = Some(pid);
                RunPhase::Running
            },
            (RunPhase::Spawning, RunEvent::SpawnFailed) => RunPhase::Failed,
            (RunPhase::Running, RunEvent::Exited(succeeded)) => {
                let cancelled = self.current_pid.is_none();
                self.current_pid = None;
                if succeeded {
                    RunPhase::Succeeded
                } else if cancelled {
                    RunPhase::Cancelled
                } else {
                    RunPhase::Failed
                }
            },
            (
                RunPhase::Idle | RunPhase::Succeeded | RunPhase::Failed | RunPhase::Cancelled,
                RunEvent::Requested,
            ) => RunPhase::Spawning,
            _ => phase,
        }
    }
}

/// The record that a request to cancel leaves behind: an empty one.
pub open spec fn cancelled(session: SessionState) -> SessionState {
    SessionState { current_pid: None }
}

/// A request to cancel that finds no recorded process has no effect: the
/// record stays as it is and no process is to be terminated. Asking twice
/// is asking once.
pub proof fn lemma_cancel_is_idempotent(session: SessionState)
    ensures
        session.current_pid is None ==> cancelled(session) == session,
        cancelled(cancelled(session)) == cancelled(session),
        cancelled(session).current_pid is None,
{
}

/// A process that is recorded when it starts, is cancelled while it runs
/// and then ends without success leaves the run cancelled and the record
/// empty.
pub proof fn lemma_cancelled_run_ends_cancelled(session: SessionState, pid: u32)
    ensures
        ({
            let running = session_after(session, RunPhase::Spawning, RunEvent::Spawned(pid));
            let interrupted = cancelled(running);
            &&& running.current_pid == Some(pid)
            &&& phase_after(interrupted, RunPhase::Running, RunEvent::Exited(false))
                == RunPhase::Cancelled
            &&& session_after(
                interrupted,
                RunPhase::Running,
                RunEvent::Exited(false),
            ).current_pid is None
        }),
{
}

/// A process that ends clears the record and leaves the run at rest,
/// however it ended and whatever was recorded.
pub proof fn lemma_exit_clears_record(session: SessionState, succeeded: bool)
    ensures
        session_after(session, RunPhase::Running, RunEvent::Exited(succeeded)).current_pid is None,
        is_at_rest(phase_after(session, RunPhase::Running, RunEvent::Exited(succeeded))),
{
}

} // verus!
