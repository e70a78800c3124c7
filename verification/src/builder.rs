use axum::Router;
use axum_server::tls_rustls::RustlsConfig;
use hyper::Body;

use vstd::prelude::*;

use crate::addr::SocketAddress;
use crate::shutdown::ShutdownSignal;

verus! {

/// How the server accepts connections: over TLS with the given
/// configuration, or in plain text.
pub enum Acceptor {
    Tls(RustlsConfig),
    Plain,
}

impl Acceptor {
    /// The acceptor that a TLS setting asks for.
    pub open spec fn for_tls(tls: Option<RustlsConfig>) -> Acceptor {
        match tls {
            Some(config) => Acceptor::Tls(config),
            None => Acceptor::Plain,
        }
    }
}

/// Everything a server is launched with: where it binds, what it serves,
/// how it accepts connections, and the signal (if any) that shuts it down
/// gracefully.
pub struct Launch<F> {
    pub addr: SocketAddress,
    pub router: Router<Body>,
    pub acceptor: Acceptor,
    pub shutdown_listener: Option<ShutdownSignal<F>>,
}

/// Builder to configure applications; obtained through `App::builder`.
pub struct AppBuilder<F> {
    addr: SocketAddress,
    router: Router<Body>,
    shutdown_listener: Option<ShutdownSignal<F>>,
    tls: Option<RustlsConfig>,
}

impl<F> AppBuilder<F> {
    /// The address the server will bind.
    pub closed spec fn spec_addr(self) -> SocketAddress {
        self.addr
    }

    /// The routes the server will serve.
    pub closed spec fn spec_router(self) -> Router<Body> {
        self.router
    }

    /// The graceful shutdown listener, if one is set.
    pub closed spec fn spec_shutdown_listener(self) -> Option<ShutdownSignal<F>> {
        self.shutdown_listener
    }

    /// The TLS configuration, if one is set.
    pub closed spec fn spec_tls(self) -> Option<RustlsConfig> {
        self.tls
    }

    /// A fresh builder: an address and routes, nothing else configured.
    pub closed spec fn spec_new(addr: SocketAddress, router: Router<Body>) -> Self {
        AppBuilder { addr, router, shutdown_listener: None, tls: None }
    }

    /// This builder with `shutdown` as its graceful shutdown listener.
    pub closed spec fn spec_with_graceful_shutdown(self, shutdown: ShutdownSignal<F>) -> Self {
        AppBuilder { shutdown_listener: Some(shutdown), ..self }
    }

    /// This builder with `tls` as its TLS configuration.
    pub closed spec fn spec_with_tls(self, tls: RustlsConfig) -> Self {
        AppBuilder { tls: Some(tls), ..self }
    }

    /// A builder for a server at `addr` serving `router`, with no shutdown
    /// listener and no TLS.
    pub fn new(addr: SocketAddress, router: Router<Body>) -> (b: Self)
        ensures
            b == Self::spec_new(addr, router),
            b.spec_addr() == addr,
            b.spec_router() == router,
            b.spec_shutdown_listener() is None,
            b.spec_tls() is None,
    {
        AppBuilder { addr, router, shutdown_listener: None, tls: None }
    }

    /// Set a graceful shutdown listener for the server: once its signal
    /// fires, the server is asked to shut down gracefully. Replaces any
    /// listener set before; leaves the rest of the configuration as it was.
    pub fn with_graceful_shutdown(self, shutdown: ShutdownSignal<F>) -> (b: Self)
        ensures
            b == self.spec_with_graceful_shutdown(shutdown),
            b.spec_shutdown_listener() == Some(shutdown),
            b.spec_addr() == self.spec_addr(),
            b.spec_router() == self.spec_router(),
            b.spec_tls() == self.spec_tls(),
    {
        AppBuilder { shutdown_listener: Some(shutdown), ..self }
    }

    /// Serve over TLS with the given configuration. Replaces any TLS
    /// configuration set before; leaves the rest of the configuration as it
    /// was.
    pub fn with_tls(self, tls: RustlsConfig) -> (b: Self)
        ensures
            b == self.spec_with_tls(tls),
            b.spec_tls() == Some(tls),
            b.spec_addr() == self.spec_addr(),
            b.spec_router() == self.spec_router(),
            b.spec_shutdown_listener() == self.spec_shutdown_listener(),
    {
        AppBuilder { tls: Some(tls), ..self }
    }

    /// What spawning the configured application launches: the address and
    /// routes as configured, a TLS acceptor exactly when a TLS configuration
    /// is set, and the graceful shutdown listener as configured.
    pub fn into_launch(self) -> (l: Launch<F>)
        ensures
            l.addr == self.spec_addr(),
            l.router == self.spec_router(),
            l.acceptor == Acceptor::for_tls(self.spec_tls()),
            l.shutdown_listener == self.spec_shutdown_listener(),
    {
        let acceptor = match self.tls {
            Some(config) => Acceptor::Tls(config),
            None => Acceptor::Plain,
        };
        Launch {
            addr: self.addr,
            router: self.router,
            acceptor,
            shutdown_listener: self.shutdown_listener,
        }
    }
}

/// Setting the graceful shutdown listener twice keeps the later one.
pub proof fn lemma_graceful_shutdown_last_wins<F>(
    b: AppBuilder<F>,
    first: ShutdownSignal<F>,
    second: ShutdownSignal<F>,
)
    ensures
        b.spec_with_graceful_shutdown(first).spec_with_graceful_shutdown(second)
            == b.spec_with_graceful_shutdown(second),
{
}

/// Setting the TLS configuration twice keeps the later one.
pub proof fn lemma_tls_last_wins<F>(b: AppBuilder<F>, first: RustlsConfig, second: RustlsConfig)
    ensures
        b.spec_with_tls(first).spec_with_tls(second) == b.spec_with_tls(second),
{
}

/// The order in which the shutdown listener and the TLS configuration are
/// set does not matter.
pub proof fn lemma_configuration_order_irrelevant<F>(
    b: AppBuilder<F>,
    shutdown: ShutdownSignal<F>,
    tls: RustlsConfig,
)
    ensures
        b.spec_with_graceful_shutdown(shutdown).spec_with_tls(tls)
            == b.spec_with_tls(tls).spec_with_graceful_shutdown(shutdown),
{
}

/// A builder configured with a listener and TLS launches with exactly what
/// it was given: its address and routes, a TLS acceptor for the
/// configuration, and the listener.
pub proof fn lemma_launch_of_configured<F>(
    addr: SocketAddress,
    router: Router<Body>,
    shutdown: ShutdownSignal<F>,
    tls: RustlsConfig,
)
    ensures
        ({
            let b = AppBuilder::<F>::spec_new(addr, router).spec_with_graceful_shutdown(
                shutdown,
            ).spec_with_tls(tls);
            &&& b.spec_addr() == addr
            &&& b.spec_router() == router
            &&& Acceptor::for_tls(b.spec_tls()) == Acceptor::Tls(tls)
            &&& b.spec_shutdown_listener() == Some(shutdown)
        }),
{
}

} // verus!
