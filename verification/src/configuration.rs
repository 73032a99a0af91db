//! Process configuration: where the upstream authority lives and how often
//! the keeper registry is refreshed.

use vstd::prelude::*;

verus! {

/// Settings for the background tasks.
pub struct TasksConfig {
    /// Seconds between two refresh ticks of the keeper registry.
    pub keepers: u64,
}

/// Top-level configuration of the service.
pub struct TidvattenConfig {
    /// Base URL of the upstream authority that serves keeper data.
    pub remote_api_base: String,
    /// Background-task settings.
    pub tasks: TasksConfig,
}

} // verus!
