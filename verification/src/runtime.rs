//! Runtime-level building blocks.

use vstd::prelude::*;

verus! {

/// Core runtime status.
#[derive(Debug, Clone, Copy, PartialEq, Eq, Structural)]
pub enum CoreState {
    /// Runtime is initializing.
    Initializing,
    /// Runtime is ready and running.
    Running,
    /// Runtime is shutting down.
    Shutdown,
}

/// Core runtime metadata.
#[derive(Debug, Clone, PartialEq, Eq)]
pub struct CoreRuntime {
    /// Human-readable service name.
    pub service_name: String,
    /// Current state of the runtime.
    pub state: CoreState,
}

impl CoreRuntime {
    /// Creates a runtime context for `service_name`, still initializing.
    pub fn new(service_name: &str) -> (r: Self)
        ensures
            r.service_name@ == service_name@,
            r.state == CoreState::Initializing,
    {
        CoreRuntime { service_name: String::from_str(service_name), state: CoreState::Initializing }
    }
}

} // verus!
