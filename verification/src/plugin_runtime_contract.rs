//! The host-side model of a node plugin call: what a plugin is handed and
//! what it answers, and the messages exchanged with the code-runner guest.
use vstd::prelude::*;

verus! {

#[derive(Debug, Clone, PartialEq, Eq)]
pub struct RuntimeRequestHeader {
    pub name: String,
    pub value: String,
}

#[derive(Debug, Clone, Copy, PartialEq, Eq, Hash)]
pub enum RuntimeCapabilityKind {
    Log,
    Fs,
    Network,
}

#[derive(Debug, Clone, PartialEq, Eq)]
pub struct RuntimeCapabilityDeclaration {
    pub kind: RuntimeCapabilityKind,
    pub required: bool,
    pub scope: Option<String>,
    pub description: String,
}

#[derive(Debug, Clone, PartialEq, Eq)]
pub struct RuntimeCapabilityGrant {
    pub kind: RuntimeCapabilityKind,
    pub allowed: bool,
    pub scope: Option<String>,
}

#[derive(Debug, Clone, PartialEq, Eq)]
pub struct RuntimePluginManifest {
    pub id: String,
    pub name: String,
    pub version: String,
    pub description: String,
    pub supported_output_ports: Vec<String>,
    pub default_config_schema_hints_json: Option<String>,
    pub capabilities: Vec<RuntimeCapabilityDeclaration>,
}

#[derive(Debug, Clone, PartialEq, Eq)]
pub struct RuntimeNodeConfig {
    pub manifest: RuntimePluginManifest,
    pub grants: Vec<RuntimeCapabilityGrant>,
    pub config_json: Option<String>,
}

#[derive(Debug, Clone, PartialEq, Eq)]
pub struct RuntimeExecuteInput {
    pub request_method: String,
    pub current_path: String,
    pub request_headers: Vec<RuntimeRequestHeader>,
    pub workflow_context: Vec<(String, String)>,
    pub selected_provider_id: String,
    pub selected_model_id: String,
    pub node_config: RuntimeNodeConfig,
}

/// A change to the workflow context (`SetValue` sets a key, `Remove` drops it).
#[derive(Debug, Clone, PartialEq, Eq)]
pub enum RuntimeContextPatchOp {
    SetValue { key: String, value: String },
    Remove { key: String },
}

/// A change to the request headers (`SetValue` replaces, `Append` adds).
#[derive(Debug, Clone, PartialEq, Eq)]
pub enum RuntimeHeaderOp {
    SetValue { name: String, value: String },
    Append { name: String, value: String },
    Remove { name: String },
}

#[derive(Debug, Clone, Copy, PartialEq, Eq)]
pub enum RuntimeLogLevel {
    Debug,
    Info,
    Warn,
    Error,
}

#[derive(Debug, Clone, PartialEq, Eq)]
pub struct RuntimeLogEntry {
    pub level: RuntimeLogLevel,
    pub message: String,
}

#[derive(Debug, Clone, Default, PartialEq, Eq)]
pub struct RuntimeExecuteOutput {
    pub context_ops: Vec<RuntimeContextPatchOp>,
    pub header_ops: Vec<RuntimeHeaderOp>,
    pub path_rewrite: Option<String>,
    pub next_port: Option<String>,
    pub logs: Vec<RuntimeLogEntry>,
}

/// The request data handed to a code-runner script.
#[derive(Debug)]
pub struct CodeRunnerInput<'a> {
    pub method: &'a str,
    pub path: &'a str,
    pub headers: std::collections::BTreeMap<String, String>,
    pub context: std::collections::BTreeMap<String, String>,
    pub provider: Option<CodeRunnerProvider<'a>>,
    pub model: Option<CodeRunnerModel<'a>>,
}

#[derive(Debug)]
pub struct CodeRunnerProvider<'a> {
    pub id: &'a str,
    pub name: &'a str,
}

#[derive(Debug)]
pub struct CodeRunnerModel<'a> {
    pub id: &'a str,
    pub name: &'a str,
    pub provider_id: &'a str,
}

/// The request sent to the code-runner guest.
#[derive(Debug)]
pub struct CoreCodeRunnerRequest<'a> {
    pub code: String,
    pub input: CodeRunnerInput<'a>,
}

/// The guest's answer: the script's JSON result, or an error.
#[derive(Debug)]
pub struct CoreCodeRunnerResponse {
    pub ok: bool,
    pub json: Option<String>,
    pub error: Option<String>,
}

/// What a code-runner script returned.
#[derive(Debug)]
pub struct CodeRunnerOutput {
    pub context_patch: Vec<CodeRunnerContextPatchOp>,
    pub header_ops: Vec<CodeRunnerHeaderOp>,
    pub path_rewrite: Option<String>,
    pub next_port: Option<String>,
    pub logs: Vec<CodeRunnerLogEntry>,
}

#[derive(Debug)]
pub enum CodeRunnerContextPatchOp {
    SetValue { key: String, value: String },
    Remove { key: String },
}

#[derive(Debug)]
pub enum CodeRunnerHeaderOp {
    SetValue { name: String, value: String },
    Append { name: String, value: String },
    Remove { name: String },
}

#[derive(Debug)]
pub enum CodeRunnerLogLevel {
    Debug,
    Info,
    Warn,
    Error,
}

#[derive(Debug)]
pub struct CodeRunnerLogEntry {
    pub level: CodeRunnerLogLevel,
    pub message: String,
}

} // verus!
