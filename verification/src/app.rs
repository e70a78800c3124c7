use std::time::Duration;

use axum::Router;
use axum_server::Handle;
use hyper::Body;
use tokio::task::{JoinError, JoinHandle};

use vstd::prelude::*;

use crate::addr::SocketAddress;
use crate::builder::AppBuilder;
use crate::error::{join_error_cancelled, join_error_is_cancelled, join_error_is_panic, ServerError};
use crate::command::ServerCommand;

verus! {

/// What a join error is answered with: a cancelled task (the server was
/// killed) ends successfully; a panicked task is reported as such.
pub open spec fn spec_join_error_result(err: JoinError) -> Result<(), ServerError> {
    if join_error_cancelled(err) {
        Ok(())
    } else {
        Err(ServerError::PanicError(err))
    }
}

/// What awaiting a server task answers, given what the task's handle was
/// ready with (`None`: not ready yet).
pub open spec fn spec_poll_app_res(
    ready: Option<Result<Result<(), ServerError>, JoinError>>,
) -> Option<Result<(), ServerError>> {
    match ready {
        None => None,
        Some(Ok(res)) => Some(res),
        Some(Err(err)) => Some(spec_join_error_result(err)),
    }
}

/// The answer for a task that ended with join error `err`, where
/// `cancelled` and `panicked` tell whether it was cancelled and whether it
/// panicked (a join error is one of the two).
pub fn settle_join_error(err: JoinError, cancelled: bool, panicked: bool) -> (r: Result<
    (),
    ServerError,
>)
    requires
        cancelled || panicked,
    ensures
        r == (if cancelled {
            Ok(())
        } else {
            Err(ServerError::PanicError(err))
        }),
{
    if cancelled {
        Ok(())
    } else {
        Err(ServerError::PanicError(err))
    }
}

/// What awaiting a server task answers, given what the task's handle was
/// ready with. Not ready stays not ready; a task that ran to its end
/// answers with its own result; a cancelled task answers `Ok(())`; a
/// panicked task answers with a panic error carrying the join error.
pub fn poll_app_res(ready: Option<Result<Result<(), ServerError>, JoinError>>) -> (r: Option<
    Result<(), ServerError>,
>)
    ensures
        r == spec_poll_app_res(ready),
{
    match ready {
        None => None,
        Some(Ok(res)) => Some(res),
        Some(Err(err)) => {
            let cancelled = join_error_is_cancelled(&err);
            let panicked = join_error_is_panic(&err);
            Some(settle_join_error(err, cancelled, panicked))
        },
    }
}

/// Handle to a running application: the address it listens at, the
/// control handle of its server, and the task that runs it.
pub struct App {
    addr: SocketAddress,
    server_handle: Handle,
    handle: JoinHandle<Result<(), ServerError>>,
}

/// An application whose shutdown was decided: its server's control handle,
/// its task, and the requests to carry out on them. Awaiting its task
/// answers as awaiting the application does.
pub struct Shutdown {
    server_handle: Handle,
    handle: JoinHandle<Result<(), ServerError>>,
    commands: Vec<ServerCommand>,
}

/// The requests that killing an application makes: stop the server now,
/// closing open connections, and abort the application's task.
pub open spec fn kill_commands() -> Seq<ServerCommand> {
    seq![ServerCommand::Shutdown, ServerCommand::AbortTask]
}

/// The request that an explicit graceful shutdown makes: a graceful
/// shutdown of the server with exactly `grace_period`.
pub open spec fn graceful_shutdown_commands(grace_period: Option<Duration>) -> Seq<ServerCommand> {
    seq![ServerCommand::GracefulShutdown(grace_period)]
}

impl App {
    /// The address the server listens at.
    pub closed spec fn spec_addr(self) -> SocketAddress {
        self.addr
    }

    /// The control handle of the server.
    pub closed spec fn spec_server_handle(self) -> Handle {
        self.server_handle
    }

    /// The task that runs the application.
    pub closed spec fn spec_task(self) -> JoinHandle<Result<(), ServerError>> {
        self.handle
    }

    /// A builder to configure and spawn an application at `addr` serving
    /// `router`, with no shutdown listener and no TLS.
    pub fn builder<F>(addr: SocketAddress, router: Router<Body>) -> (b: AppBuilder<F>)
        ensures
            b == AppBuilder::<F>::spec_new(addr, router),
            b.spec_addr() == addr,
            b.spec_router() == router,
            b.spec_shutdown_listener() is None,
            b.spec_tls() is None,
    {
        AppBuilder::new(addr, router)
    }

    /// The handle of a spawned application: the address its server listens
    /// at, its server's control handle, and the task running it.
    pub fn new(
        addr: SocketAddress,
        server_handle: Handle,
        handle: JoinHandle<Result<(), ServerError>>,
    ) -> (app: Self)
        ensures
            app.spec_addr() == addr,
            app.spec_server_handle() == server_handle,
            app.spec_task() == handle,
    {
        App { addr, server_handle, handle }
    }

    /// Returns the local address of the socket this server is listening on.
    pub fn local_addr(&self) -> (a: SocketAddress)
        ensures
            a == self.spec_addr(),
    {
        self.addr
    }

    /// Kills the server: requests that the server stop now, closing open
    /// connections, and that the application's task be aborted. Awaiting
    /// the task then answers as `poll_app_res` says: a panic of the task is
    /// forwarded, a cancellation is `Ok(())`, and a server that had already
    /// ended answers with its own result.
    pub fn kill(self) -> (s: Shutdown)
        ensures
            s.spec_commands() == kill_commands(),
            s.spec_task() == self.spec_task(),
            s.spec_server_handle() == self.spec_server_handle(),
    {
        let commands = vec![ServerCommand::Shutdown, ServerCommand::AbortTask];
        Shutdown { server_handle: self.server_handle, handle: self.handle, commands }
    }

    /// Kills the server; the same as `kill`.
    pub fn shutdown(self) -> (s: Shutdown)
        ensures
            s.spec_commands() == kill_commands(),
            s.spec_task() == self.spec_task(),
            s.spec_server_handle() == self.spec_server_handle(),
    {
        self.kill()
    }

    /// Explicitly request graceful shutdown: the server stops accepting
    /// connections and gives open ones `grace_period` (no limit for `None`).
    pub fn graceful_shutdown(self, grace_period: Option<Duration>) -> (s: Shutdown)
        ensures
            s.spec_commands() == graceful_shutdown_commands(grace_period),
            s.spec_task() == self.spec_task(),
            s.spec_server_handle() == self.spec_server_handle(),
    {
        let commands = vec![ServerCommand::GracefulShutdown(grace_period)];
        Shutdown { server_handle: self.server_handle, handle: self.handle, commands }
    }

    /// The task that runs the application, to be polled.
    pub fn task_mut(&mut self) -> (t: &mut JoinHandle<Result<(), ServerError>>)
        ensures
            *t == old(self).spec_task(),
            final(self).spec_task() == *final(t),
            final(self).spec_addr() == old(self).spec_addr(),
            final(self).spec_server_handle() == old(self).spec_server_handle(),
    {
        &mut self.handle
    }
}

impl Shutdown {
    /// The task of the application being shut down.
    pub closed spec fn spec_task(self) -> JoinHandle<Result<(), ServerError>> {
        self.handle
    }

    /// The control handle of the server being shut down.
    pub closed spec fn spec_server_handle(self) -> Handle {
        self.server_handle
    }

    /// The requests to carry out, in order.
    pub closed spec fn spec_commands(self) -> Seq<ServerCommand> {
        self.commands@
    }

    /// The requests to carry out, in order.
    pub fn commands(&self) -> (c: &Vec<ServerCommand>)
        ensures
            c@ == self.spec_commands(),
    {
        &self.commands
    }

    /// The control handle of the server being shut down.
    pub fn server_handle(&self) -> (h: &Handle)
        ensures
            *h == self.spec_server_handle(),
    {
        &self.server_handle
    }

    /// The task of the application being shut down.
    pub fn task(&self) -> (t: &JoinHandle<Result<(), ServerError>>)
        ensures
            *t == self.spec_task(),
    {
        &self.handle
    }

    /// The task of the application being shut down, to be polled.
    pub fn task_mut(&mut self) -> (t: &mut JoinHandle<Result<(), ServerError>>)
        ensures
            *t == old(self).spec_task(),
            final(self).spec_task() == *final(t),
            final(self).spec_commands() == old(self).spec_commands(),
            final(self).spec_server_handle() == old(self).spec_server_handle(),
    {
        &mut self.handle
    }
}

/// Killing an application always aborts its task and stops its server, and
/// never asks for a graceful shutdown; an explicit graceful shutdown asks
/// for nothing else than a graceful shutdown with the grace period given.
pub proof fn lemma_kill_and_graceful_requests(grace_period: Option<Duration>)
    ensures
        kill_commands().contains(ServerCommand::AbortTask),
        kill_commands().contains(ServerCommand::Shutdown),
        forall|g: Option<Duration>| !kill_commands().contains(ServerCommand::GracefulShutdown(g)),
        graceful_shutdown_commands(grace_period).len() == 1,
        graceful_shutdown_commands(grace_period)[0] == ServerCommand::GracefulShutdown(
            grace_period,
        ),
{
    assert(kill_commands()[1] == ServerCommand::AbortTask);
    assert(kill_commands()[0] == ServerCommand::Shutdown);
}

/// Awaiting a killed application never hides a panic: whatever the task
/// ended with, a panic of it is answered with a panic error, a cancellation
/// with `Ok(())`, and a finished server with its own result.
pub proof fn lemma_kill_answers(res: Result<(), ServerError>, err: JoinError)
    ensures
        spec_poll_app_res(Some(Ok(res))) == Some(res),
        !join_error_cancelled(err) ==> spec_poll_app_res(Some(Err(err))) == Some(
            Err::<(), ServerError>(ServerError::PanicError(err)),
        ),
        join_error_cancelled(err) ==> spec_poll_app_res(Some(Err(err))) == Some(
            Ok::<(), ServerError>(()),
        ),
        spec_poll_app_res(None) is None,
{
}

} // verus!
