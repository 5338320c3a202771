//! Configuration checks, workflow normalisation, plugin manifests and the
//! decision logic of the gateway's node plugins.
pub mod checks;
pub mod config_acl;
pub mod config_store;
pub mod text;
pub mod rewrite;
pub mod sorted_pairs;
pub mod toml_types;
pub mod gateway_config;
pub mod plugin_registry;
pub mod plugin_runtime_contract;
pub mod plugins;
pub mod upstream;
