//! The gateway configuration model and the migration of legacy rule graphs
//! into the workflow index.
pub mod model;
pub mod legacy;
pub mod defaults;
pub mod workflow_set;
pub mod validate;
pub mod laws;
