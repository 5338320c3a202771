//! The gateway configuration model: providers, models, routes, header rules,
//! the rule graph and the workflow index.
use vstd::prelude::*;

use crate::toml_types::clone_table;

verus! {

/// A copy of an optional string.
pub fn clone_opt_string(o: &Option<String>) -> (r: Option<String>)
    ensures
        r == *o,
{
    match o {
        Some(s) => Some(s.clone()),
        None => None,
    }
}

/// A copy of a list of strings.
pub fn clone_strings(v: &Vec<String>) -> (r: Vec<String>)
    ensures
        r@ == v@,
{
    let mut r: Vec<String> = Vec::new();
    let mut i: usize = 0;
    while i < v.len()
        invariant
            i <= v@.len(),
            r@ == v@.subrange(0, i as int),
        decreases v@.len() - i,
    {
        r.push(v[i].clone());
        i = i + 1;
        assert(r@ =~= v@.subrange(0, i as int));
    }
    assert(v@.subrange(0, i as int) =~= v@);
    r
}

#[derive(Debug, Clone)]
pub struct ProviderConfig {
    pub id: String,
    pub name: String,
    pub base_url: String,
    pub default_headers: Vec<HeaderConfig>,
}

#[derive(Debug, Clone)]
pub struct ModelConfig {
    pub id: String,
    pub name: String,
    pub provider_id: String,
    pub description: Option<String>,
}

#[derive(Debug, Clone)]
pub struct RouteConfig {
    pub id: String,
    pub priority: i64,
    pub enabled: bool,
    pub matcher: String,
    pub provider_id: String,
    pub model_id: Option<String>,
    pub path_rewrite: Option<String>,
}

#[derive(Debug, Clone)]
pub struct HeaderRuleConfig {
    pub id: String,
    pub enabled: bool,
    pub scope: RuleScope,
    pub target_id: Option<String>,
    pub when: Option<String>,
    pub actions: Vec<HeaderActionConfig>,
}

#[derive(Debug, Clone, Copy, PartialEq, Eq)]
pub enum RuleScope {
    Global,
    Provider,
    Model,
    Route,
}

#[derive(Debug, Clone)]
pub enum HeaderActionConfig {
    SetValue { name: String, value: String },
    Remove { name: String },
    Copy { from: String, to: String },
    SetIfAbsent { name: String, value: String },
}

#[derive(Debug, Clone)]
pub struct HeaderConfig {
    pub name: String,
    pub value: HeaderValueConfig,
}

#[derive(Debug, Clone)]
pub enum HeaderValueConfig {
    Encrypted { value: String, encrypted: bool, secret_env: Option<String> },
    Plain { value: String },
}

/// A node's place on the editor canvas. The coordinates are kept as the bit
/// patterns of their IEEE-754 double values (`f64::to_bits`), so that the
/// configuration passes through unchanged.
#[derive(Debug, Clone, Copy, PartialEq, Eq)]
pub struct GraphPosition {
    pub x: u64,
    pub y: u64,
}

#[derive(Debug, Clone)]
pub struct RuleGraphConfig {
    pub version: u32,
    pub start_node_id: String,
    pub nodes: Vec<RuleGraphNode>,
    pub edges: Vec<RuleGraphEdge>,
}

#[derive(Debug, Clone)]
pub struct RuleGraphNode {
    pub id: String,
    pub node_type: RuleGraphNodeType,
    pub position: GraphPosition,
    pub note: Option<String>,
    pub condition: Option<ConditionNodeConfig>,
    pub route_provider: Option<RouteProviderNodeConfig>,
    pub select_model: Option<SelectModelNodeConfig>,
    pub rewrite_path: Option<ValueNodeConfig>,
    pub set_context: Option<SetContextNodeConfig>,
    pub router: Option<RouterNodeConfig>,
    pub log: Option<LogNodeConfig>,
    pub set_header: Option<HeaderMutationNodeConfig>,
    pub remove_header: Option<HeaderNameNodeConfig>,
    pub copy_header: Option<CopyHeaderNodeConfig>,
    pub set_header_if_absent: Option<HeaderMutationNodeConfig>,
    pub note_node: Option<NoteNodeConfig>,
    pub wasm_plugin: Option<WasmPluginNodeConfig>,
    pub match_node: Option<MatchNodeConfig>,
    pub code_runner: Option<CodeRunnerNodeConfig>,
}

#[derive(Debug, Clone, PartialEq, Eq)]
pub struct RuleGraphEdge {
    pub id: String,
    pub source: String,
    pub target: String,
    pub source_handle: Option<String>,
}

#[derive(Debug, Clone, Copy, PartialEq, Eq)]
pub enum RuleGraphNodeType {
    Start,
    Condition,
    RouteProvider,
    SelectModel,
    RewritePath,
    SetContext,
    Router,
    Log,
    SetHeader,
    RemoveHeader,
    CopyHeader,
    SetHeaderIfAbsent,
    WasmPlugin,
    Match,
    CodeRunner,
    Note,
    End,
}

#[derive(Debug, Clone)]
pub struct ConditionNodeConfig {
    pub mode: ConditionMode,
    pub expression: Option<String>,
    pub builder: Option<ConditionBuilderConfig>,
}

#[derive(Debug, Clone, Copy, PartialEq, Eq)]
pub enum ConditionMode {
    Builder,
    Expression,
}

#[derive(Debug, Clone)]
pub struct ConditionBuilderConfig {
    pub field: String,
    pub operator: String,
    pub value: String,
}

#[derive(Debug, Clone)]
pub struct RouteProviderNodeConfig {
    pub provider_id: String,
}

#[derive(Debug, Clone)]
pub struct SelectModelNodeConfig {
    pub provider_id: String,
    pub model_id: String,
}

#[derive(Debug, Clone)]
pub struct ValueNodeConfig {
    pub value: String,
}

#[derive(Debug, Clone)]
pub struct SetContextNodeConfig {
    pub key: String,
    pub value_template: String,
}

#[derive(Debug, Clone)]
pub struct RouterNodeConfig {
    pub rules: Vec<RouterRuleConfig>,
    pub fallback_node_id: Option<String>,
}

#[derive(Debug, Clone)]
pub struct RouterRuleConfig {
    pub id: String,
    pub clauses: Vec<RouterClauseConfig>,
    pub target_node_id: String,
}

#[derive(Debug, Clone)]
pub struct RouterClauseConfig {
    pub source: String,
    pub operator: String,
    pub value: String,
}

#[derive(Debug, Clone)]
pub struct LogNodeConfig {
    pub message: String,
}

#[derive(Debug, Clone)]
pub struct HeaderMutationNodeConfig {
    pub name: String,
    pub value: String,
}

#[derive(Debug, Clone)]
pub struct HeaderNameNodeConfig {
    pub name: String,
}

#[derive(Debug, Clone)]
pub struct CopyHeaderNodeConfig {
    pub from: String,
    pub to: String,
}

#[derive(Debug, Clone)]
pub struct NoteNodeConfig {
    pub text: String,
}

#[derive(Debug, Clone, Copy, PartialEq, Eq, Hash)]
pub enum WasmCapability {
    Log,
    Fs,
    Network,
}

#[derive(Debug, Clone)]
pub struct WasmPluginNodeConfig {
    pub plugin_id: String,
    pub timeout_ms: u64,
    pub fuel: Option<u64>,
    pub max_memory_bytes: u64,
    pub granted_capabilities: Vec<WasmCapability>,
    pub read_dirs: Vec<String>,
    pub write_dirs: Vec<String>,
    pub allowed_hosts: Vec<String>,
    pub config: toml::map::Map<String, toml::Value>,
}

#[derive(Debug, Clone)]
pub struct MatchNodeConfig {
    pub plugin: WasmPluginNodeConfig,
    pub branches: Vec<MatchBranchConfig>,
    pub fallback_node_id: Option<String>,
}

#[derive(Debug, Clone)]
pub struct MatchBranchConfig {
    pub id: String,
    pub expr: String,
    pub target_node_id: String,
}

#[derive(Debug, Clone, Copy, PartialEq, Eq)]
pub enum CodeRunnerLanguage {
    Javascript,
}

#[derive(Debug, Clone)]
pub struct CodeRunnerNodeConfig {
    pub language: CodeRunnerLanguage,
    pub timeout_ms: u64,
    pub max_memory_bytes: u64,
    pub code: String,
}

#[derive(Debug, Clone)]
pub struct WorkflowIndexEntry {
    pub id: String,
    pub name: String,
    pub file: String,
    pub description: Option<String>,
}

#[derive(Debug, Clone)]
pub struct WorkflowFileConfig {
    pub workflow: RuleGraphConfig,
}

#[derive(Debug, Clone)]
pub struct GatewayConfig {
    pub listen: String,
    pub admin_listen: String,
    pub default_secret_env: Option<String>,
    pub providers: Vec<ProviderConfig>,
    pub models: Vec<ModelConfig>,
    pub routes: Vec<RouteConfig>,
    pub header_rules: Vec<HeaderRuleConfig>,
    pub rule_graph: Option<RuleGraphConfig>,
    pub workflows_dir: Option<String>,
    pub active_workflow_id: Option<String>,
    pub workflows: Vec<WorkflowIndexEntry>,
}

/// The value of a router rule, with its clauses as a sequence.
pub struct RouterRuleView {
    pub id: String,
    pub clauses: Seq<RouterClauseConfig>,
    pub target_node_id: String,
}

/// The value of a router node configuration.
pub struct RouterNodeView {
    pub rules: Seq<RouterRuleView>,
    pub fallback_node_id: Option<String>,
}

/// The value of a wasm plugin node configuration.
pub struct WasmPluginNodeView {
    pub plugin_id: String,
    pub timeout_ms: u64,
    pub fuel: Option<u64>,
    pub max_memory_bytes: u64,
    pub granted_capabilities: Seq<WasmCapability>,
    pub read_dirs: Seq<String>,
    pub write_dirs: Seq<String>,
    pub allowed_hosts: Seq<String>,
    pub config: toml::map::Map<String, toml::Value>,
}

/// The value of a match node configuration.
pub struct MatchNodeView {
    pub plugin: WasmPluginNodeView,
    pub branches: Seq<MatchBranchConfig>,
    pub fallback_node_id: Option<String>,
}

/// The value of a rule graph node.
pub struct RuleGraphNodeView {
    pub id: String,
    pub node_type: RuleGraphNodeType,
    pub position: GraphPosition,
    pub note: Option<String>,
    pub condition: Option<ConditionNodeConfig>,
    pub route_provider: Option<RouteProviderNodeConfig>,
    pub select_model: Option<SelectModelNodeConfig>,
    pub rewrite_path: Option<ValueNodeConfig>,
    pub set_context: Option<SetContextNodeConfig>,
    pub router: Option<RouterNodeView>,
    pub log: Option<LogNodeConfig>,
    pub set_header: Option<HeaderMutationNodeConfig>,
    pub remove_header: Option<HeaderNameNodeConfig>,
    pub copy_header: Option<CopyHeaderNodeConfig>,
    pub set_header_if_absent: Option<HeaderMutationNodeConfig>,
    pub note_node: Option<NoteNodeConfig>,
    pub wasm_plugin: Option<WasmPluginNodeView>,
    pub match_node: Option<MatchNodeView>,
    pub code_runner: Option<CodeRunnerNodeConfig>,
}

impl View for RouterRuleConfig {
    type V = RouterRuleView;

    open spec fn view(&self) -> RouterRuleView {
        RouterRuleView { id: self.id, clauses: self.clauses@, target_node_id: self.target_node_id }
    }
}

impl View for RouterNodeConfig {
    type V = RouterNodeView;

    open spec fn view(&self) -> RouterNodeView {
        RouterNodeView {
            rules: self.rules@.map_values(|r: RouterRuleConfig| r@),
            fallback_node_id: self.fallback_node_id,
        }
    }
}

impl View for WasmPluginNodeConfig {
    type V = WasmPluginNodeView;

    open spec fn view(&self) -> WasmPluginNodeView {
        WasmPluginNodeView {
            plugin_id: self.plugin_id,
            timeout_ms: self.timeout_ms,
            fuel: self.fuel,
            max_memory_bytes: self.max_memory_bytes,
            granted_capabilities: self.granted_capabilities@,
            read_dirs: self.read_dirs@,
            write_dirs: self.write_dirs@,
            allowed_hosts: self.allowed_hosts@,
            config: self.config,
        }
    }
}

impl View for MatchNodeConfig {
    type V = MatchNodeView;

    open spec fn view(&self) -> MatchNodeView {
        MatchNodeView {
            plugin: self.plugin@,
            branches: self.branches@,
            fallback_node_id: self.fallback_node_id,
        }
    }
}

pub open spec fn opt_router_view(o: Option<RouterNodeConfig>) -> Option<RouterNodeView> {
    match o {
        Some(c) => Some(c@),
        None => None,
    }
}

pub open spec fn opt_wasm_view(o: Option<WasmPluginNodeConfig>) -> Option<WasmPluginNodeView> {
    match o {
        Some(c) => Some(c@),
        None => None,
    }
}

pub open spec fn opt_match_view(o: Option<MatchNodeConfig>) -> Option<MatchNodeView> {
    match o {
        Some(c) => Some(c@),
        None => None,
    }
}

impl View for RuleGraphNode {
    type V = RuleGraphNodeView;

    open spec fn view(&self) -> RuleGraphNodeView {
        RuleGraphNodeView {
            id: self.id,
            node_type: self.node_type,
            position: self.position,
            note: self.note,
            condition: self.condition,
            route_provider: self.route_provider,
            select_model: self.select_model,
            rewrite_path: self.rewrite_path,
            set_context: self.set_context,
            router: opt_router_view(self.router),
            log: self.log,
            set_header: self.set_header,
            remove_header: self.remove_header,
            copy_header: self.copy_header,
            set_header_if_absent: self.set_header_if_absent,
            note_node: self.note_node,
            wasm_plugin: opt_wasm_view(self.wasm_plugin),
            match_node: opt_match_view(self.match_node),
            code_runner: self.code_runner,
        }
    }
}

impl ConditionNodeConfig {
    /// A copy of this configuration.
    pub fn duplicate(&self) -> (r: Self)
        ensures
            r == *self,
    {
        ConditionNodeConfig {
            mode: self.mode,
            expression: clone_opt_string(&self.expression),
            builder: match &self.builder {
                Some(b) => Some(
                    ConditionBuilderConfig {
                        field: b.field.clone(),
                        operator: b.operator.clone(),
                        value: b.value.clone(),
                    },
                ),
                None => None,
            },
        }
    }
}

impl RouterNodeConfig {
    /// A copy of this configuration.
    pub fn duplicate(&self) -> (r: Self)
        ensures
            r@ == self@,
    {
        let mut rules: Vec<RouterRuleConfig> = Vec::new();
        let mut i: usize = 0;
        while i < self.rules.len()
            invariant
                i <= self.rules@.len(),
                rules@.len() == i,
                forall|j: int| 0 <= j < i ==> #[trigger] rules@[j]@ == self.rules@[j]@,
            decreases self.rules@.len() - i,
        {
            let rule = &self.rules[i];
            let mut clauses: Vec<RouterClauseConfig> = Vec::new();
            let mut k: usize = 0;
            while k < rule.clauses.len()
                invariant
                    k <= rule.clauses@.len(),
                    clauses@ == rule.clauses@.subrange(0, k as int),
                decreases rule.clauses@.len() - k,
            {
                let c = &rule.clauses[k];
                clauses.push(
                    RouterClauseConfig {
                        source: c.source.clone(),
                        operator: c.operator.clone(),
                        value: c.value.clone(),
                    },
                );
                k = k + 1;
                assert(clauses@ =~= rule.clauses@.subrange(0, k as int));
            }
            assert(clauses@ =~= rule.clauses@);
            rules.push(
                RouterRuleConfig {
                    id: rule.id.clone(),
                    clauses,
                    target_node_id: rule.target_node_id.clone(),
                },
            );
            i = i + 1;
        }
        assert(rules@.map_values(|r: RouterRuleConfig| r@) =~= self.rules@.map_values(
            |r: RouterRuleConfig| r@,
        ));
        RouterNodeConfig { rules, fallback_node_id: clone_opt_string(&self.fallback_node_id) }
    }
}

impl WasmPluginNodeConfig {
    /// A copy of this configuration.
    pub fn duplicate(&self) -> (r: Self)
        ensures
            r@ == self@,
    {
        let mut caps: Vec<WasmCapability> = Vec::new();
        let mut i: usize = 0;
        while i < self.granted_capabilities.len()
            invariant
                i <= self.granted_capabilities@.len(),
                caps@ == self.granted_capabilities@.subrange(0, i as int),
            decreases self.granted_capabilities@.len() - i,
        {
            caps.push(self.granted_capabilities[i]);
            i = i + 1;
            assert(caps@ =~= self.granted_capabilities@.subrange(0, i as int));
        }
        assert(caps@ =~= self.granted_capabilities@);
        WasmPluginNodeConfig {
            plugin_id: self.plugin_id.clone(),
            timeout_ms: self.timeout_ms,
            fuel: self.fuel,
            max_memory_bytes: self.max_memory_bytes,
            granted_capabilities: caps,
            read_dirs: clone_strings(&self.read_dirs),
            write_dirs: clone_strings(&self.write_dirs),
            allowed_hosts: clone_strings(&self.allowed_hosts),
            config: clone_table(&self.config),
        }
    }
}

impl MatchNodeConfig {
    /// A copy of this configuration.
    pub fn duplicate(&self) -> (r: Self)
        ensures
            r@ == self@,
    {
        let mut branches: Vec<MatchBranchConfig> = Vec::new();
        let mut i: usize = 0;
        while i < self.branches.len()
            invariant
                i <= self.branches@.len(),
                branches@ == self.branches@.subrange(0, i as int),
            decreases self.branches@.len() - i,
        {
            let b = &self.branches[i];
            branches.push(
                MatchBranchConfig {
                    id: b.id.clone(),
                    expr: b.expr.clone(),
                    target_node_id: b.target_node_id.clone(),
                },
            );
            i = i + 1;
            assert(branches@ =~= self.branches@.subrange(0, i as int));
        }
        assert(branches@ =~= self.branches@);
        MatchNodeConfig {
            plugin: self.plugin.duplicate(),
            branches,
            fallback_node_id: clone_opt_string(&self.fallback_node_id),
        }
    }
}

impl RuleGraphEdge {
    /// A copy of this edge.
    pub fn duplicate(&self) -> (r: Self)
        ensures
            r == *self,
    {
        RuleGraphEdge {
            id: self.id.clone(),
            source: self.source.clone(),
            target: self.target.clone(),
            source_handle: clone_opt_string(&self.source_handle),
        }
    }
}

impl RuleGraphNode {
    /// A copy of this node.
    #[verifier::rlimit(40)]
    pub fn duplicate(&self) -> (r: Self)
        ensures
            r@ == self@,
    {
        let condition = match &self.condition {
            Some(c) => Some(c.duplicate()),
            None => None,
        };
        let route_provider = match &self.route_provider {
            Some(c) => Some(RouteProviderNodeConfig { provider_id: c.provider_id.clone() }),
            None => None,
        };
        let select_model = match &self.select_model {
            Some(c) => Some(
                SelectModelNodeConfig { provider_id: c.provider_id.clone(), model_id: c.model_id.clone() },
            ),
            None => None,
        };
        let rewrite_path = match &self.rewrite_path {
            Some(c) => Some(ValueNodeConfig { value: c.value.clone() }),
            None => None,
        };
        let set_context = match &self.set_context {
            Some(c) => Some(
                SetContextNodeConfig { key: c.key.clone(), value_template: c.value_template.clone() },
            ),
            None => None,
        };
        let router = match &self.router {
            Some(c) => Some(c.duplicate()),
            None => None,
        };
        assert(opt_router_view(router) == opt_router_view(self.router));
        let log = match &self.log {
            Some(c) => Some(LogNodeConfig { message: c.message.clone() }),
            None => None,
        };
        let set_header = match &self.set_header {
            Some(c) => Some(HeaderMutationNodeConfig { name: c.name.clone(), value: c.value.clone() }),
            None => None,
        };
        let remove_header = match &self.remove_header {
            Some(c) => Some(HeaderNameNodeConfig { name: c.name.clone() }),
            None => None,
        };
        let copy_header = match &self.copy_header {
            Some(c) => Some(CopyHeaderNodeConfig { from: c.from.clone(), to: c.to.clone() }),
            None => None,
        };
        let set_header_if_absent = match &self.set_header_if_absent {
            Some(c) => Some(HeaderMutationNodeConfig { name: c.name.clone(), value: c.value.clone() }),
            None => None,
        };
        let note_node = match &self.note_node {
            Some(c) => Some(NoteNodeConfig { text: c.text.clone() }),
            None => None,
        };
        let wasm_plugin = match &self.wasm_plugin {
            Some(c) => Some(c.duplicate()),
            None => None,
        };
        assert(opt_wasm_view(wasm_plugin) == opt_wasm_view(self.wasm_plugin));
        let match_node = match &self.match_node {
            Some(c) => Some(c.duplicate()),
            None => None,
        };
        assert(opt_match_view(match_node) == opt_match_view(self.match_node));
        let code_runner = match &self.code_runner {
            Some(c) => Some(
                CodeRunnerNodeConfig {
                    language: c.language,
                    timeout_ms: c.timeout_ms,
                    max_memory_bytes: c.max_memory_bytes,
                    code: c.code.clone(),
                },
            ),
            None => None,
        };
        RuleGraphNode {
            id: self.id.clone(),
            node_type: self.node_type,
            position: self.position,
            note: clone_opt_string(&self.note),
            condition,
            route_provider,
            select_model,
            rewrite_path,
            set_context,
            router,
            log,
            set_header,
            remove_header,
            copy_header,
            set_header_if_absent,
            note_node,
            wasm_plugin,
            match_node,
            code_runner,
        }
    }
}

} // verus!
