//! Plugin manifests and the registry of loaded plugins.
pub mod manifest;
pub mod paths;
pub mod loader;
pub mod laws;
pub mod cache;
