//! Configuration constants of the clipboard server.

use vstd::prelude::*;

verus! {

/// Default server port.
pub const DEFAULT_SERVER_PORT: u16 = 3000;

/// Default server address (binds to all interfaces).
pub const DEFAULT_SERVER_ADDRESS: &'static str = "0.0.0.0";

/// Default log filter for tracing.
pub const DEFAULT_LOG_FILTER: &'static str = "clip_server=debug,tower_http=debug,axum=debug";

} // verus!
