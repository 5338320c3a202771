//! The raw shapes of a gateway configuration file, as read from TOML.
use vstd::prelude::*;

verus! {

#[derive(Debug, Clone, PartialEq, Eq)]
pub struct RawProvider {
    pub id: String,
    pub name: String,
}

#[derive(Debug, Clone, PartialEq, Eq)]
pub struct RawModel {
    pub id: String,
    pub name: String,
    pub provider_id: String,
}

#[derive(Debug, Clone, PartialEq, Eq)]
pub struct RawRoute {
    pub id: String,
    pub matcher: String,
    pub provider_id: String,
    pub model_id: Option<String>,
}

#[derive(Debug, Clone, Copy, PartialEq, Eq)]
pub enum RawRuleScope {
    Global,
    Provider,
    Model,
    Route,
}

#[derive(Debug, Clone, PartialEq)]
pub struct RawHeaderRule {
    pub id: String,
    pub scope: RawRuleScope,
    pub target_id: Option<String>,
    pub actions: Vec<toml::Value>,
}

#[derive(Debug, Clone, Default, PartialEq)]
pub struct RawRuleGraphConfig {
    pub start_node_id: String,
    pub nodes: Vec<RawRuleGraphNode>,
    pub edges: Vec<RawRuleGraphEdge>,
}

#[derive(Debug, Clone, PartialEq)]
pub struct RawRuleGraphNode {
    pub id: String,
    pub node_type: RawRuleGraphNodeType,
    pub condition: Option<RawConditionNodeConfig>,
    pub log: Option<RawLogNodeConfig>,
    pub set_header: Option<RawHeaderMutationNodeConfig>,
    pub remove_header: Option<RawHeaderNameNodeConfig>,
    pub copy_header: Option<RawCopyHeaderNodeConfig>,
    pub select_model: Option<RawSelectModelNodeConfig>,
    pub router: Option<RawRouterNodeConfig>,
    pub wasm_plugin: Option<RawWasmPluginNodeConfig>,
    pub match_node: Option<RawMatchNodeConfig>,
    pub code_runner: Option<RawCodeRunnerNodeConfig>,
}

#[derive(Debug, Clone, PartialEq, Eq)]
pub struct RawRuleGraphEdge {
    pub id: String,
    pub source: String,
    pub target: String,
}

#[derive(Debug, Clone, Copy, PartialEq, Eq)]
pub enum RawRuleGraphNodeType {
    Start,
    Condition,
    Log,
    SetHeader,
    RemoveHeader,
    CopyHeader,
    SetHeaderIfAbsent,
    SelectModel,
    Router,
    WasmPlugin,
    Match,
    CodeRunner,
    Other,
}

#[derive(Debug, Clone, Copy, PartialEq, Eq, Hash)]
pub enum RawWasmCapability {
    Log,
    Fs,
    Network,
}

#[derive(Debug, Clone, PartialEq)]
pub struct RawWasmPluginNodeConfig {
    pub plugin_id: String,
    pub timeout_ms: u64,
    pub fuel: Option<u64>,
    pub max_memory_bytes: u64,
    pub granted_capabilities: Vec<RawWasmCapability>,
    pub read_dirs: Vec<String>,
    pub write_dirs: Vec<String>,
    pub allowed_hosts: Vec<String>,
    pub config: toml::map::Map<String, toml::Value>,
}

#[derive(Debug, Clone, PartialEq)]
pub struct RawMatchNodeConfig {
    pub plugin: RawWasmPluginNodeConfig,
    pub branches: Vec<RawMatchBranchConfig>,
    pub fallback_node_id: Option<String>,
}

#[derive(Debug, Clone, PartialEq, Eq)]
pub struct RawMatchBranchConfig {
    pub id: String,
    pub expr: String,
    pub target_node_id: String,
}

#[derive(Debug, Clone, PartialEq, Eq)]
pub struct RawCodeRunnerNodeConfig {
    pub timeout_ms: u64,
    pub max_memory_bytes: u64,
    pub code: String,
}

#[derive(Debug, Clone, PartialEq, Eq)]
pub struct RawLogNodeConfig {
    pub message: String,
}

#[derive(Debug, Clone, PartialEq, Eq)]
pub struct RawHeaderMutationNodeConfig {
    pub name: String,
    pub value: String,
}

#[derive(Debug, Clone, PartialEq, Eq)]
pub struct RawHeaderNameNodeConfig {
    pub name: String,
}

#[derive(Debug, Clone, PartialEq, Eq)]
pub struct RawCopyHeaderNodeConfig {
    pub from: String,
    pub to: String,
}

#[derive(Debug, Clone, Copy, PartialEq, Eq)]
pub enum RawConditionMode {
    Builder,
    Expression,
}

#[derive(Debug, Clone, PartialEq, Eq)]
pub struct RawConditionNodeConfig {
    pub mode: RawConditionMode,
    pub expression: Option<String>,
    pub builder: Option<RawConditionBuilderConfig>,
}

#[derive(Debug, Clone, PartialEq, Eq)]
pub struct RawConditionBuilderConfig {
    pub field: String,
    pub operator: String,
    pub value: String,
}

#[derive(Debug, Clone, PartialEq, Eq)]
pub struct RawSelectModelNodeConfig {
    pub provider_id: String,
    pub model_id: String,
}

#[derive(Debug, Clone, PartialEq, Eq)]
pub struct RawRouterNodeConfig {
    pub rules: Vec<RawRouterRule>,
    pub fallback_node_id: Option<String>,
}

#[derive(Debug, Clone, PartialEq, Eq)]
pub struct RawRouterRule {
    pub id: String,
    pub clauses: Vec<RawRouterClause>,
    pub target_node_id: String,
}

#[derive(Debug, Clone, PartialEq, Eq)]
pub struct RawRouterClause {
    pub source: String,
    pub operator: String,
    pub value: String,
}

#[derive(Debug, Clone, PartialEq, Eq)]
pub struct RawWorkflowIndexEntry {
    pub id: String,
    pub name: Option<String>,
    pub file: Option<String>,
    pub description: Option<String>,
}

#[derive(Debug, Clone, Default, PartialEq, Eq)]
pub struct RawWorkflowIndex {
    pub workflows: Vec<RawWorkflowIndexEntry>,
    pub active_workflow_id: Option<String>,
}

#[derive(Debug, Clone, Default, PartialEq)]
pub struct RawGatewayConfig {
    pub providers: Vec<RawProvider>,
    pub models: Vec<RawModel>,
    pub routes: Vec<RawRoute>,
    pub header_rules: Vec<RawHeaderRule>,
    pub workflows: Vec<RawWorkflowIndexEntry>,
    pub active_workflow_id: Option<String>,
    pub workflows_dir: Option<String>,
    pub rule_graph: Option<RawRuleGraphConfig>,
}

} // verus!
