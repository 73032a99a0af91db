//! In-memory registry of content keepers, kept fresh from an upstream
//! authority, together with the token-based authentication gate and the
//! report handler that sit in front of it.

pub mod api;
pub mod configuration;
pub mod registry;
pub mod remote;
pub mod scheduler;

pub use configuration::TasksConfig;
pub use configuration::TidvattenConfig;
