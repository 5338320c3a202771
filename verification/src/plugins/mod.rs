//! The decision logic of the gateway's node plugins.
pub mod node;
pub mod condition_evaluator;
pub mod intent_classifier;
pub mod policy_router;
pub mod http_fetch;
pub mod set_header;
pub mod select_model;
pub mod workflow_selection;
pub mod log_step;
pub mod rewrite_path;
pub mod code_runner;
pub mod laws;
