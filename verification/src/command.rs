use std::time::Duration;

use vstd::prelude::*;

verus! {

/// A request that the library makes of a running server and its task; the
/// code that owns the runtime carries it out.
pub enum ServerCommand {
    /// Stop accepting connections, and give open connections this long
    /// (no limit for `None`) before they are closed.
    GracefulShutdown(Option<Duration>),
    /// Stop the server now, closing open connections.
    Shutdown,
    /// Abort the task that runs the application.
    AbortTask,
}

} // verus!
