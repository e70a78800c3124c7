use std::time::Duration;

use tokio::task::JoinError;

use vstd::prelude::*;

use crate::command::ServerCommand;
use crate::error::ServerError;

verus! {

/// How the server task ended, as seen by whoever awaited it: its own result
/// (`Ok(())` or an I/O error), or a join error (it panicked or was
/// cancelled).
pub type ServerExit = Result<Result<(), std::io::Error>, JoinError>;

/// What the application reports for a server task that ended with `exit`:
/// a join error is a panic error, an I/O error is a runtime error.
pub open spec fn spec_server_exit(exit: ServerExit) -> Result<(), ServerError> {
    match exit {
        Ok(Ok(())) => Ok(()),
        Ok(Err(err)) => Err(ServerError::RuntimeError(err)),
        Err(err) => Err(ServerError::PanicError(err)),
    }
}

/// What the application reports for a server task that ended with `exit`.
pub fn server_exit_result(exit: ServerExit) -> (r: Result<(), ServerError>)
    ensures
        r == spec_server_exit(exit),
{
    match exit {
        Ok(Ok(())) => Ok(()),
        Ok(Err(err)) => Err(ServerError::RuntimeError(err)),
        Err(err) => Err(ServerError::PanicError(err)),
    }
}

/// The result of a server that runs without a shutdown listener: its I/O
/// error, if any, becomes a runtime error.
pub fn serve_result(res: Result<(), std::io::Error>) -> (r: Result<(), ServerError>)
    ensures
        r == (match res {
            Ok(()) => Ok(()),
            Err(err) => Err(ServerError::RuntimeError(err)),
        }),
{
    match res {
        Ok(()) => Ok(()),
        Err(err) => Err(ServerError::from(err)),
    }
}

/// Where a supervised server stands.
pub enum Phase {
    /// Serving; the shutdown signal has not fired.
    Serving,
    /// The signal fired and a graceful shutdown with this grace period was
    /// requested; waiting for the server to end.
    Draining(Option<Duration>),
    /// The server ended and its result was reported.
    Finished,
}

/// What the supervisor of a server learns.
pub enum SupervisorEvent {
    /// The shutdown signal fired; it carries the signal's grace period.
    ShutdownSignalled(Option<Duration>),
    /// The server task ended.
    ServerExited(ServerExit),
}

/// What the supervisor answers an event with.
pub enum SupervisorAction {
    /// Carry out this request on the server, then keep waiting.
    Request(ServerCommand),
    /// Supervision is over; the application ends with this result.
    Finish(Result<(), ServerError>),
}

/// The phase after an event, and the supervisor's answer: a fired signal is
/// answered with a graceful shutdown request carrying the signal's grace
/// period; the server's end is answered with the server's result.
pub open spec fn spec_step(ev: SupervisorEvent) -> (Phase, SupervisorAction) {
    match ev {
        SupervisorEvent::ShutdownSignalled(grace) => (
            Phase::Draining(grace),
            SupervisorAction::Request(ServerCommand::GracefulShutdown(grace)),
        ),
        SupervisorEvent::ServerExited(exit) => (
            Phase::Finished,
            SupervisorAction::Finish(spec_server_exit(exit)),
        ),
    }
}

/// Whether `ev` can happen in `phase`: nothing happens once finished, and
/// the signal fires at most once, while serving.
pub open spec fn event_admissible(phase: Phase, ev: SupervisorEvent) -> bool {
    &&& !(phase is Finished)
    &&& ev is ShutdownSignalled ==> phase is Serving
}

/// Supervises a server that has a graceful shutdown listener: when the
/// signal fires first, it requests a graceful shutdown of the server with
/// the signal's grace period and waits for the server; when the server
/// ends, it reports the server's result.
pub struct Supervisor {
    phase: Phase,
}

impl Supervisor {
    /// The phase of the supervision.
    pub closed spec fn spec_phase(self) -> Phase {
        self.phase
    }

    /// Starts supervising a server that is serving.
    pub fn new() -> (s: Self)
        ensures
            s.spec_phase() is Serving,
    {
        Supervisor { phase: Phase::Serving }
    }

    /// The phase of the supervision.
    pub fn phase(&self) -> (p: &Phase)
        ensures
            *p == self.spec_phase(),
    {
        &self.phase
    }

    /// Whether the supervision has ended.
    pub fn is_finished(&self) -> (b: bool)
        ensures
            b == self.spec_phase() is Finished,
    {
        match self.phase {
            Phase::Finished => true,
            _ => false,
        }
    }

    /// Handles one event: on the signal, requests a graceful shutdown with
    /// the signal's grace period; when the server ends, finishes with its
    /// result.
    pub fn on_event(&mut self, ev: SupervisorEvent) -> (act: SupervisorAction)
        requires
            event_admissible(old(self).spec_phase(), ev),
        ensures
            (final(self).spec_phase(), act) == spec_step(ev),
            ev matches SupervisorEvent::ShutdownSignalled(grace) ==> act == SupervisorAction::Request(
                ServerCommand::GracefulShutdown(grace),
            ),
            ev matches SupervisorEvent::ServerExited(exit) ==> act == SupervisorAction::Finish(
                spec_server_exit(exit),
            ),
    {
        match ev {
            SupervisorEvent::ShutdownSignalled(grace) => {
                self.phase = Phase::Draining(grace);
                SupervisorAction::Request(ServerCommand::GracefulShutdown(grace))
            },
            SupervisorEvent::ServerExited(exit) => {
                self.phase = Phase::Finished;
                SupervisorAction::Finish(server_exit_result(exit))
            },
        }
    }
}

/// A signal that fires before the server ends leads to one graceful
/// shutdown request with the signal's grace period, and then the server's
/// own result is reported; the signal cannot fire again.
pub proof fn lemma_signal_then_exit(grace: Option<Duration>, exit: ServerExit)
    ensures
        event_admissible(Phase::Serving, SupervisorEvent::ShutdownSignalled(grace)),
        spec_step(SupervisorEvent::ShutdownSignalled(grace)) == (
            Phase::Draining(grace),
            SupervisorAction::Request(ServerCommand::GracefulShutdown(grace)),
        ),
        event_admissible(Phase::Draining(grace), SupervisorEvent::ServerExited(exit)),
        spec_step(SupervisorEvent::ServerExited(exit)) == (
            Phase::Finished,
            SupervisorAction::Finish(spec_server_exit(exit)),
        ),
        !event_admissible(Phase::Draining(grace), SupervisorEvent::ShutdownSignalled(grace)),
{
}

/// Supervision makes a request of the server only when the signal fires,
/// and that request is a graceful shutdown with the signal's grace period;
/// it ends exactly when the server ends, with the server's own result.
pub proof fn lemma_requests_only_on_signal(phase: Phase, ev: SupervisorEvent)
    requires
        event_admissible(phase, ev),
    ensures
        spec_step(ev).1 is Request <==> ev is ShutdownSignalled,
        ev matches SupervisorEvent::ShutdownSignalled(grace) ==> spec_step(ev).1
            == SupervisorAction::Request(ServerCommand::GracefulShutdown(grace)),
        spec_step(ev).1 is Finish <==> ev is ServerExited,
        ev matches SupervisorEvent::ServerExited(exit) ==> spec_step(ev).1
            == SupervisorAction::Finish(spec_server_exit(exit)),
        spec_step(ev).0 is Finished <==> ev is ServerExited,
{
}

/// A panicked server task is never reported as a success: its join error is
/// handed on as a panic error.
pub proof fn lemma_panic_not_swallowed(err: JoinError)
    ensures
        spec_server_exit(Err(err)) == Err::<(), ServerError>(ServerError::PanicError(err)),
{
}

} // verus!
