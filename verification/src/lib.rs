//! Building blocks for running an HTTP service with graceful shutdown.
//!
//! The library holds the decisions of a server's life: how an application is
//! configured ([`AppBuilder`]), what it is launched with ([`Launch`]), when a
//! shutdown signal turns into a graceful shutdown of the server
//! ([`Supervisor`]), and what a caller is answered once the server task has
//! ended ([`poll_app_res`]). What it asks of a running server (a graceful
//! shutdown, an immediate stop, an abort of the task) it returns as
//! [`ServerCommand`] values for the runtime side to carry out.
mod addr;
mod app;
mod builder;
mod command;
mod error;
mod foreign;
mod shutdown;
mod supervisor;

pub use addr::{lemma_port_independent_of_ip, lemma_port_is_given_port, SocketAddress};
pub use app::{
    graceful_shutdown_commands, kill_commands, lemma_kill_and_graceful_requests,
    lemma_kill_answers, poll_app_res, settle_join_error, spec_join_error_result,
    spec_poll_app_res, App, Shutdown,
};
pub use builder::{
    lemma_configuration_order_irrelevant, lemma_graceful_shutdown_last_wins,
    lemma_launch_of_configured, lemma_tls_last_wins, Acceptor, AppBuilder, Launch,
};
pub use command::ServerCommand;
pub use error::{join_error_cancelled, ServerError};
pub use shutdown::{
    duration_debug_text, grace_period_debug_text, lemma_debug_text_shows_grace_period,
    lemma_debug_text_without_grace_period,
    lemma_grace_period_last_wins, lemma_grace_period_text, lemma_kind_text, signal_debug_text, ShutdownSignal,
    ShutdownSignalKind,
};
pub use supervisor::{
    event_admissible, lemma_panic_not_swallowed, lemma_requests_only_on_signal,
    lemma_signal_then_exit, serve_result, server_exit_result, spec_server_exit, spec_step, Phase,
    ServerExit, Supervisor, SupervisorAction, SupervisorEvent,
};
