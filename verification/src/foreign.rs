//! The outside types that the library carries through its logic. Verus sees
//! nothing inside a value of any of them.
use vstd::prelude::*;

verus! {

/// `tokio::task::JoinError`: why a spawned task did not run to completion
/// (it was cancelled, or it panicked).
#[verifier::external_type_specification]
#[verifier::external_body]
pub struct ExJoinError(tokio::task::JoinError);

/// `tokio::task::JoinHandle<T>`: the handle of a spawned task whose output
/// is a `T`.
#[verifier::external_type_specification]
#[verifier::external_body]
#[verifier::reject_recursive_types(T)]
pub struct ExJoinHandle<T>(tokio::task::JoinHandle<T>);

/// `std::io::Error`: the error a server's accept loop ends with.
#[verifier::external_type_specification]
#[verifier::external_body]
pub struct ExIoError(std::io::Error);

/// `axum::Router<B>`: the routes an application serves.
#[verifier::external_type_specification]
#[verifier::external_body]
#[verifier::reject_recursive_types(B)]
pub struct ExRouter<B>(axum::Router<B>);

/// `hyper::Body`: the request body type of the routes.
#[verifier::external_type_specification]
#[verifier::external_body]
pub struct ExBody(hyper::Body);

/// `axum_server::Handle`: the control handle of a running server.
#[verifier::external_type_specification]
#[verifier::external_body]
pub struct ExServerHandle(axum_server::Handle);

/// `axum_server::tls_rustls::RustlsConfig`: a TLS configuration.
#[verifier::external_type_specification]
#[verifier::external_body]
pub struct ExRustlsConfig(axum_server::tls_rustls::RustlsConfig);

} // verus!
