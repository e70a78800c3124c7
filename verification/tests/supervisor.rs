use std::time::Duration;

use axum::Router;
use axum_convenience::{
    serve_result, server_exit_result, Phase, ServerCommand, ServerError, Supervisor, SupervisorAction,
    SupervisorEvent,
};
use axum_server::Handle;
use tokio::task::JoinError;

fn rt() -> tokio::runtime::Runtime {
    tokio::runtime::Builder::new_current_thread().enable_all().build().unwrap()
}

fn panicked_task_error() -> JoinError {
    rt().block_on(async { tokio::spawn(async { panic!("boom") }).await.unwrap_err() })
}

fn io_failure() -> std::io::Error {
    std::io::Error::new(std::io::ErrorKind::AddrInUse, "address in use")
}

#[test]
fn server_exit_ok_is_ok() {
    assert!(matches!(server_exit_result(Ok(Ok(()))), Ok(())));
}

#[test]
fn server_exit_io_error_is_runtime_error() {
    match server_exit_result(Ok(Err(io_failure()))) {
        Err(ServerError::RuntimeError(e)) => assert_eq!(e.kind(), std::io::ErrorKind::AddrInUse),
        other => panic!("unexpected: {:?}", other),
    }
}

#[test]
fn server_exit_join_error_is_panic_error() {
    match server_exit_result(Err(panicked_task_error())) {
        Err(ServerError::PanicError(e)) => assert!(e.is_panic()),
        other => panic!("unexpected: {:?}", other),
    }
}

#[test]
fn serve_result_maps_io_error() {
    assert!(matches!(serve_result(Ok(())), Ok(())));
    match serve_result(Err(io_failure())) {
        Err(ServerError::RuntimeError(e)) => assert_eq!(e.kind(), std::io::ErrorKind::AddrInUse),
        other => panic!("unexpected: {:?}", other),
    }
}

#[test]
fn server_exit_before_signal_finishes() {
    let mut s = Supervisor::new();
    assert!(matches!(s.phase(), Phase::Serving));
    let r = s.on_event(SupervisorEvent::ServerExited(Ok(Err(io_failure()))));
    assert!(matches!(r, SupervisorAction::Finish(Err(ServerError::RuntimeError(_)))));
    assert!(s.is_finished());
}

#[test]
fn signal_then_exit_reports_server_result() {
    let mut s = Supervisor::new();
    let r = s.on_event(SupervisorEvent::ShutdownSignalled(Some(Duration::from_millis(100))));
    assert!(matches!(
        r,
        SupervisorAction::Request(ServerCommand::GracefulShutdown(Some(d))) if d == Duration::from_millis(100)
    ));
    assert!(matches!(s.phase(), Phase::Draining(Some(d)) if *d == Duration::from_millis(100)));
    assert!(!s.is_finished());
    let r = s.on_event(SupervisorEvent::ServerExited(Ok(Ok(()))));
    assert!(matches!(r, SupervisorAction::Finish(Ok(()))));
    assert!(s.is_finished());
}

#[test]
fn signal_then_panic_is_not_swallowed() {
    let mut s = Supervisor::new();
    assert!(matches!(
        s.on_event(SupervisorEvent::ShutdownSignalled(None)),
        SupervisorAction::Request(ServerCommand::GracefulShutdown(None))
    ));
    let r = s.on_event(SupervisorEvent::ServerExited(Err(panicked_task_error())));
    assert!(matches!(r, SupervisorAction::Finish(Err(ServerError::PanicError(_)))));
}

#[test]
fn signal_shuts_down_a_running_server() {
    rt().block_on(async {
        let handle = Handle::new();
        let server = axum_server::bind(([127, 0, 0, 1], 0).into())
            .handle(handle.clone())
            .serve(Router::new().into_make_service());
        let mut task = tokio::spawn(server);
        let _addr = handle.listening().await;
        let mut s = Supervisor::new();
        match s.on_event(SupervisorEvent::ShutdownSignalled(None)) {
            SupervisorAction::Request(ServerCommand::GracefulShutdown(grace)) => handle.graceful_shutdown(grace),
            _ => panic!("a graceful shutdown should be requested"),
        }
        let exit = tokio::time::timeout(Duration::from_secs(10), &mut task)
            .await
            .expect("server should stop after the graceful shutdown request");
        let r = s.on_event(SupervisorEvent::ServerExited(exit));
        assert!(matches!(r, SupervisorAction::Finish(Ok(()))));
    });
}
