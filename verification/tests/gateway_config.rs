use infrastructure::config_store::GatewayConfigFileSource;
use infrastructure::gateway_config::defaults::{
    default_admin_listen, default_enabled, default_listen, default_rule_graph_version,
    default_wasm_plugin_timeout_ms,
};
use infrastructure::gateway_config::legacy::{
    migrate_rule_graph, normalize_legacy_rule_graph, uses_synthesized_legacy_workflow_index,
};
use infrastructure::gateway_config::model::{
    GatewayConfig, GraphPosition, RouteProviderNodeConfig, RuleGraphConfig, RuleGraphEdge,
    RuleGraphNode, RuleGraphNodeType, SelectModelNodeConfig, WasmCapability,
    WasmPluginNodeConfig, WorkflowFileConfig, WorkflowIndexEntry,
};
use infrastructure::gateway_config::validate::unique_ids;
use infrastructure::gateway_config::workflow_set::LoadedWorkflowSet;

fn node(id: &str, node_type: RuleGraphNodeType) -> RuleGraphNode {
    RuleGraphNode {
        id: id.to_string(),
        node_type,
        position: GraphPosition { x: 0, y: 0 },
        note: None,
        condition: None,
        route_provider: None,
        select_model: None,
        rewrite_path: None,
        set_context: None,
        router: None,
        log: None,
        set_header: None,
        remove_header: None,
        copy_header: None,
        set_header_if_absent: None,
        note_node: None,
        wasm_plugin: None,
        match_node: None,
        code_runner: None,
    }
}

fn edge(id: &str, source: &str, target: &str) -> RuleGraphEdge {
    RuleGraphEdge {
        id: id.to_string(),
        source: source.to_string(),
        target: target.to_string(),
        source_handle: None,
    }
}

fn legacy_graph() -> RuleGraphConfig {
    let mut route = node("rp", RuleGraphNodeType::RouteProvider);
    route.route_provider = Some(RouteProviderNodeConfig { provider_id: "openai".to_string() });
    let mut select = node("sm", RuleGraphNodeType::SelectModel);
    select.select_model =
        Some(SelectModelNodeConfig { provider_id: " ".to_string(), model_id: "gpt-4o".to_string() });
    RuleGraphConfig {
        version: 1,
        start_node_id: "start".to_string(),
        nodes: vec![node("start", RuleGraphNodeType::Start), route, select, node("end", RuleGraphNodeType::End)],
        edges: vec![edge("e1", "start", "rp"), edge("e2", "rp", "sm"), edge("e3", "sm", "end")],
    }
}

fn config_with(graph: Option<RuleGraphConfig>) -> GatewayConfig {
    GatewayConfig {
        listen: default_listen(),
        admin_listen: default_admin_listen(),
        default_secret_env: None,
        providers: Vec::new(),
        models: Vec::new(),
        routes: Vec::new(),
        header_rules: Vec::new(),
        rule_graph: graph,
        workflows_dir: None,
        active_workflow_id: None,
        workflows: Vec::new(),
    }
}

fn node_ids(g: &RuleGraphConfig) -> Vec<String> {
    g.nodes.iter().map(|n| n.id.clone()).collect()
}

#[test]
fn folds_route_provider_into_select_model() {
    let out = migrate_rule_graph(legacy_graph());
    assert_eq!(node_ids(&out), vec!["start", "sm", "end"]);
    let select = out.nodes.iter().find(|n| n.id == "sm").expect("select node kept");
    let config = select.select_model.as_ref().expect("select config kept");
    assert_eq!(config.provider_id, "openai");
    assert_eq!(config.model_id, "gpt-4o");
    assert_eq!(out.edges, vec![edge("e1", "start", "sm"), edge("e3", "sm", "end")]);
}

#[test]
fn leaves_graph_without_legacy_routes_alone() {
    let mut g = legacy_graph();
    g.nodes[2].select_model.as_mut().expect("config").provider_id = "anthropic".to_string();
    let out = migrate_rule_graph(g.clone());
    assert_eq!(node_ids(&out), node_ids(&g));
    assert_eq!(out.edges, g.edges);
}

#[test]
fn synthesizes_a_workflow_for_an_inline_graph() {
    let out = normalize_legacy_rule_graph(config_with(Some(legacy_graph())));
    assert_eq!(out.workflows_dir.as_deref(), Some("workflows"));
    assert_eq!(out.active_workflow_id.as_deref(), Some("default"));
    assert_eq!(out.workflows.len(), 1);
    assert_eq!(out.workflows[0].id, "default");
    assert_eq!(out.workflows[0].name, "Default Workflow");
    assert_eq!(out.workflows[0].file, "default.toml");
    assert_eq!(out.workflows[0].description.as_deref(), Some("Migrated from legacy rule_graph"));
    assert!(uses_synthesized_legacy_workflow_index(&out));
    assert_eq!(node_ids(out.rule_graph.as_ref().expect("graph kept")), vec!["start", "sm", "end"]);
}

#[test]
fn names_the_synthesized_workflow_after_the_active_id() {
    let mut config = config_with(Some(legacy_graph()));
    config.active_workflow_id = Some("chat".to_string());
    let out = normalize_legacy_rule_graph(config);
    assert_eq!(out.workflows[0].name, "Workflow chat");
    assert_eq!(out.workflows[0].file, "chat.toml");
    assert!(uses_synthesized_legacy_workflow_index(&out));
}

#[test]
fn trims_workflow_index_inputs() {
    let mut config = config_with(None);
    config.workflows_dir = Some("  flows ".to_string());
    config.workflows = vec![WorkflowIndexEntry {
        id: "a".to_string(),
        name: "A".to_string(),
        file: " a.toml ".to_string(),
        description: None,
    }];
    let out = normalize_legacy_rule_graph(config);
    assert_eq!(out.workflows_dir.as_deref(), Some("flows"));
    assert_eq!(out.workflows[0].file, "a.toml");
    assert!(!uses_synthesized_legacy_workflow_index(&out));
}

#[test]
fn active_graph_prefers_the_loaded_active_workflow() {
    let loaded = legacy_graph();
    let mut legacy = legacy_graph();
    legacy.start_node_id = "legacy".to_string();
    let set = LoadedWorkflowSet {
        summaries: Vec::new(),
        by_id: vec![("main".to_string(), WorkflowFileConfig { workflow: loaded })],
        active_workflow_id: Some("main".to_string()),
        legacy_rule_graph: Some(legacy.clone()),
    };
    assert_eq!(set.active_graph().map(|g| g.start_node_id.clone()), Some("start".to_string()));
    let missing = LoadedWorkflowSet { active_workflow_id: Some("other".to_string()), ..set.clone() };
    assert_eq!(missing.active_graph().map(|g| g.start_node_id.clone()), Some("legacy".to_string()));
    let none = LoadedWorkflowSet { active_workflow_id: None, legacy_rule_graph: None, ..set };
    assert!(none.active_graph().is_none());
}

#[test]
fn identifier_checks() {
    assert_eq!(unique_ids(&vec!["a", "b"], "provider"), Ok(vec!["a", "b"]));
    assert_eq!(unique_ids(&vec!["a", "b", "a"], "provider"), Err("duplicate provider id 'a'".to_string()));
    assert_eq!(unique_ids(&vec!["a", " "], "model"), Err("model id cannot be empty".to_string()));
}

#[test]
fn defaults_and_file_source() {
    assert_eq!(default_listen(), "127.0.0.1:9001");
    assert_eq!(default_admin_listen(), "127.0.0.1:9002");
    assert_eq!(default_rule_graph_version(), 1);
    assert_eq!(default_wasm_plugin_timeout_ms(), 20);
    assert!(default_enabled());
    let source = GatewayConfigFileSource::new("config/gateway.toml".to_string());
    assert_eq!(source.path(), "config/gateway.toml");
}

#[test]
fn normalizing_twice_keeps_the_workflow_index() {
    let mut config = config_with(Some(legacy_graph()));
    config.active_workflow_id = Some("chat".to_string());
    let once = normalize_legacy_rule_graph(config);
    let twice = normalize_legacy_rule_graph(once.clone());
    assert_eq!(twice.workflows_dir, once.workflows_dir);
    assert_eq!(twice.active_workflow_id, once.active_workflow_id);
    let files = |c: &GatewayConfig| c.workflows.iter().map(|w| (w.id.clone(), w.file.clone())).collect::<Vec<_>>();
    assert_eq!(files(&twice), files(&once));
}

#[test]
fn migration_keeps_plugin_settings() {
    let mut g = legacy_graph();
    let mut table = toml::map::Map::new();
    table.insert("policy_file".to_string(), toml::Value::String("p.json".to_string()));
    let mut plugin = node("wp", RuleGraphNodeType::WasmPlugin);
    plugin.wasm_plugin = Some(WasmPluginNodeConfig {
        plugin_id: "remote-policy-router".to_string(),
        timeout_ms: 50,
        fuel: Some(1000),
        max_memory_bytes: 1 << 24,
        granted_capabilities: vec![WasmCapability::Fs],
        read_dirs: vec!["examples".to_string()],
        write_dirs: Vec::new(),
        allowed_hosts: Vec::new(),
        config: table.clone(),
    });
    g.nodes.push(plugin);
    let out = migrate_rule_graph(g);
    let kept = out.nodes.iter().find(|n| n.id == "wp").expect("plugin node kept");
    let config = kept.wasm_plugin.as_ref().expect("plugin config kept");
    assert_eq!(config.config, table);
    assert_eq!(config.fuel, Some(1000));
    assert_eq!(config.read_dirs, vec!["examples".to_string()]);
    assert_eq!(node_ids(&out), vec!["start", "sm", "end", "wp"]);
}
