use infrastructure::config_acl::graph_acl::validate_code_runner_node;
use infrastructure::config_acl::util::unique_ids;
use infrastructure::config_acl::{
    map_gateway_config, InfrastructureAclError, RawCodeRunnerNodeConfig,
    RawConditionBuilderConfig, RawConditionMode, RawConditionNodeConfig, RawCopyHeaderNodeConfig,
    RawGatewayConfig, RawHeaderMutationNodeConfig, RawHeaderNameNodeConfig, RawHeaderRule,
    RawMatchBranchConfig, RawMatchNodeConfig, RawModel, RawProvider, RawRoute, RawRouterClause,
    RawRouterNodeConfig, RawRouterRule, RawRuleGraphConfig, RawRuleGraphEdge, RawRuleGraphNode,
    RawRuleGraphNodeType, RawRuleScope, RawSelectModelNodeConfig, RawWasmCapability,
    RawWasmPluginNodeConfig, RawWorkflowIndexEntry,
};

fn node(id: &str, node_type: RawRuleGraphNodeType) -> RawRuleGraphNode {
    RawRuleGraphNode {
        id: id.to_string(),
        node_type,
        condition: None,
        log: None,
        set_header: None,
        remove_header: None,
        copy_header: None,
        select_model: None,
        router: None,
        wasm_plugin: None,
        match_node: None,
        code_runner: None,
    }
}

fn start() -> RawRuleGraphNode {
    node("start", RawRuleGraphNodeType::Start)
}

fn edge(id: &str, source: &str, target: &str) -> RawRuleGraphEdge {
    RawRuleGraphEdge { id: id.to_string(), source: source.to_string(), target: target.to_string() }
}

fn with_graph(
    start_node_id: &str,
    nodes: Vec<RawRuleGraphNode>,
    edges: Vec<RawRuleGraphEdge>,
) -> RawGatewayConfig {
    RawGatewayConfig {
        rule_graph: Some(RawRuleGraphConfig { start_node_id: start_node_id.to_string(), nodes, edges }),
        ..RawGatewayConfig::default()
    }
}

fn provider(id: &str, name: &str) -> RawProvider {
    RawProvider { id: id.to_string(), name: name.to_string() }
}

fn model(id: &str, name: &str, provider_id: &str) -> RawModel {
    RawModel { id: id.to_string(), name: name.to_string(), provider_id: provider_id.to_string() }
}

fn wasm(plugin_id: &str, timeout_ms: u64, max_memory_bytes: u64) -> RawWasmPluginNodeConfig {
    RawWasmPluginNodeConfig {
        plugin_id: plugin_id.to_string(),
        timeout_ms,
        fuel: None,
        max_memory_bytes,
        granted_capabilities: Vec::new(),
        read_dirs: Vec::new(),
        write_dirs: Vec::new(),
        allowed_hosts: Vec::new(),
        config: toml::map::Map::new(),
    }
}

fn wasm_node(config: RawWasmPluginNodeConfig) -> RawRuleGraphNode {
    let mut n = node("wp1", RawRuleGraphNodeType::WasmPlugin);
    n.wasm_plugin = Some(config);
    n
}

fn action(kind: &str, name: &str, value: Option<&str>) -> toml::Value {
    let mut table = toml::map::Map::new();
    table.insert("type".to_string(), toml::Value::String(kind.to_string()));
    table.insert("name".to_string(), toml::Value::String(name.to_string()));
    if let Some(v) = value {
        table.insert("value".to_string(), toml::Value::String(v.to_string()));
    }
    toml::Value::Table(table)
}

fn validation(message: &str) -> InfrastructureAclError {
    InfrastructureAclError::Validation(message.to_string())
}

#[test]
fn rejects_missing_active_workflow_id_when_workflows_exist() {
    let raw = RawGatewayConfig {
        workflows: vec![RawWorkflowIndexEntry {
            id: "chat-routing".to_string(),
            name: None,
            file: Some("chat-routing.toml".to_string()),
            description: None,
        }],
        ..RawGatewayConfig::default()
    };
    let error = map_gateway_config(&raw)
        .expect_err("active_workflow_id should be required when workflows exist");
    assert_eq!(error, validation("active_workflow_id must be set when workflows are present"));
}

#[test]
fn rejects_missing_workflow_file_in_gateway_mapping() {
    let raw = RawGatewayConfig {
        active_workflow_id: Some("chat-routing".to_string()),
        workflows: vec![RawWorkflowIndexEntry {
            id: "chat-routing".to_string(),
            name: None,
            file: None,
            description: None,
        }],
        ..RawGatewayConfig::default()
    };
    let error = map_gateway_config(&raw).expect_err("workflow file is required");
    assert_eq!(error, validation("workflow 'chat-routing' file cannot be empty"));
}

#[test]
fn rejects_route_with_missing_provider_reference() {
    let raw = RawGatewayConfig {
        routes: vec![RawRoute {
            id: "chat-route".to_string(),
            matcher: "/v1/chat/completions".to_string(),
            provider_id: "missing".to_string(),
            model_id: None,
        }],
        ..RawGatewayConfig::default()
    };
    let error = map_gateway_config(&raw).expect_err("route provider must exist");
    assert_eq!(error, validation("route 'chat-route' references missing provider 'missing'"));
}

#[test]
fn rejects_global_header_rule_with_target_id() {
    let raw = RawGatewayConfig {
        header_rules: vec![RawHeaderRule {
            id: "rule-1".to_string(),
            scope: RawRuleScope::Global,
            target_id: Some("openai".to_string()),
            actions: vec![action("set", "x-api-key", Some("demo"))],
        }],
        ..RawGatewayConfig::default()
    };
    let error =
        map_gateway_config(&raw).expect_err("global header rules must not provide target_id");
    assert_eq!(error, validation("header_rule 'rule-1' must not define target_id for global scope"));
}

#[test]
fn rejects_scoped_header_rule_without_target() {
    let raw = RawGatewayConfig {
        providers: vec![provider("openai", "OpenAI")],
        header_rules: vec![RawHeaderRule {
            id: "rule-1".to_string(),
            scope: RawRuleScope::Provider,
            target_id: None,
            actions: vec![action("remove", "x-remove", None)],
        }],
        ..RawGatewayConfig::default()
    };
    let error = map_gateway_config(&raw).expect_err("scoped header rules require target_id");
    assert_eq!(error, validation("header_rule 'rule-1' requires target_id for provider scope"));
}

#[test]
fn rejects_header_rule_without_actions() {
    let raw = RawGatewayConfig {
        header_rules: vec![RawHeaderRule {
            id: "rule-1".to_string(),
            scope: RawRuleScope::Global,
            target_id: None,
            actions: Vec::new(),
        }],
        ..RawGatewayConfig::default()
    };
    let error = map_gateway_config(&raw).expect_err("header rule must include actions");
    assert_eq!(error, validation("header_rule 'rule-1' must contain at least one action"));
}

#[test]
fn validates_basic_rule_graph_subset() {
    let raw = with_graph(
        "start",
        vec![start(), node("end", RawRuleGraphNodeType::Other)],
        vec![edge("edge-1", "start", "end")],
    );
    let result = map_gateway_config(&raw);
    assert!(result.is_ok(), "basic rule_graph subset should validate");
}

#[test]
fn rejects_rule_graph_with_missing_start_node_reference() {
    let raw = with_graph("missing", vec![start()], Vec::new());
    let error = map_gateway_config(&raw).expect_err("start node reference must exist");
    assert_eq!(error, validation("rule_graph start node 'missing' does not exist"));
}

#[test]
fn rejects_rule_graph_without_single_start_node() {
    let raw = with_graph(
        "start",
        vec![node("start", RawRuleGraphNodeType::Other), node("end", RawRuleGraphNodeType::Other)],
        Vec::new(),
    );
    let error = map_gateway_config(&raw).expect_err("exactly one start node is required");
    assert_eq!(error, validation("rule_graph requires exactly one start node, found 0"));
}

#[test]
fn rejects_rule_graph_edge_with_missing_target() {
    let raw = with_graph("start", vec![start()], vec![edge("edge-1", "start", "missing")]);
    let error = map_gateway_config(&raw).expect_err("edge target must exist");
    assert_eq!(error, validation("rule_graph edge 'edge-1' missing target 'missing'"));
}

#[test]
fn rejects_select_model_node_with_missing_config() {
    let mut raw = with_graph(
        "start",
        vec![start(), node("select-model", RawRuleGraphNodeType::SelectModel)],
        Vec::new(),
    );
    raw.providers = vec![provider("openai", "OpenAI")];
    raw.models = vec![model("gpt-4o", "GPT-4o", "openai")];
    let error = map_gateway_config(&raw).expect_err("select_model config is required");
    assert_eq!(error, validation("rule_graph node 'select-model' missing select_model config"));
}

#[test]
fn rejects_select_model_node_with_provider_model_mismatch() {
    let mut select = node("select-model", RawRuleGraphNodeType::SelectModel);
    select.select_model = Some(RawSelectModelNodeConfig {
        provider_id: "anthropic".to_string(),
        model_id: "gpt-4o".to_string(),
    });
    let mut raw = with_graph("start", vec![start(), select], Vec::new());
    raw.providers = vec![provider("openai", "OpenAI"), provider("anthropic", "Anthropic")];
    raw.models = vec![model("gpt-4o", "GPT-4o", "openai")];
    let error = map_gateway_config(&raw).expect_err("model-provider ownership must match");
    assert_eq!(
        error,
        validation(
            "rule_graph node 'select-model' model 'gpt-4o' does not belong to provider 'anthropic'"
        )
    );
}

#[test]
fn rejects_router_node_without_rules() {
    let mut router = node("router", RawRuleGraphNodeType::Router);
    router.router = Some(RawRouterNodeConfig { rules: Vec::new(), fallback_node_id: None });
    let raw = with_graph("start", vec![start(), router], Vec::new());
    let error = map_gateway_config(&raw).expect_err("router must contain rules");
    assert_eq!(error, validation("rule_graph node 'router' must define at least one router rule"));
}

#[test]
fn rejects_router_rule_with_missing_target() {
    let mut router = node("router", RawRuleGraphNodeType::Router);
    router.router = Some(RawRouterNodeConfig {
        rules: vec![RawRouterRule {
            id: "r1".to_string(),
            clauses: vec![RawRouterClause {
                source: "path".to_string(),
                operator: "contains".to_string(),
                value: "/v1".to_string(),
            }],
            target_node_id: "missing".to_string(),
        }],
        fallback_node_id: None,
    });
    let raw = with_graph("start", vec![start(), router], Vec::new());
    let error = map_gateway_config(&raw).expect_err("router target node must exist");
    assert_eq!(
        error,
        validation("rule_graph node 'router' router rule 'r1' references missing target 'missing'")
    );
}

#[test]
fn rejects_condition_node_without_config() {
    let raw =
        with_graph("start", vec![start(), node("c1", RawRuleGraphNodeType::Condition)], Vec::new());
    let error = map_gateway_config(&raw).expect_err("condition config is required");
    assert_eq!(error, validation("rule_graph node 'c1' missing condition config"));
}

#[test]
fn rejects_condition_expression_mode_without_expression() {
    let mut c1 = node("c1", RawRuleGraphNodeType::Condition);
    c1.condition = Some(RawConditionNodeConfig {
        mode: RawConditionMode::Expression,
        expression: None,
        builder: None,
    });
    let raw = with_graph("start", vec![start(), c1], Vec::new());
    let error = map_gateway_config(&raw).expect_err("expression mode requires expression");
    assert_eq!(error, validation("rule_graph condition node 'c1' requires expression"));
}

#[test]
fn rejects_condition_builder_mode_with_incomplete_fields() {
    let mut c1 = node("c1", RawRuleGraphNodeType::Condition);
    c1.condition = Some(RawConditionNodeConfig {
        mode: RawConditionMode::Builder,
        expression: None,
        builder: Some(RawConditionBuilderConfig {
            field: "method".to_string(),
            operator: String::new(),
            value: "POST".to_string(),
        }),
    });
    let raw = with_graph("start", vec![start(), c1], Vec::new());
    let error = map_gateway_config(&raw).expect_err("builder fields must be complete");
    assert_eq!(error, validation("rule_graph condition node 'c1' builder fields cannot be empty"));
}

#[test]
fn rejects_condition_node_with_more_than_two_outgoing_edges() {
    let mut c1 = node("c1", RawRuleGraphNodeType::Condition);
    c1.condition = Some(RawConditionNodeConfig {
        mode: RawConditionMode::Expression,
        expression: Some("true".to_string()),
        builder: None,
    });
    let raw = with_graph(
        "start",
        vec![
            start(),
            c1,
            node("n1", RawRuleGraphNodeType::Other),
            node("n2", RawRuleGraphNodeType::Other),
            node("n3", RawRuleGraphNodeType::Other),
        ],
        vec![edge("e1", "c1", "n1"), edge("e2", "c1", "n2"), edge("e3", "c1", "n3")],
    );
    let error = map_gateway_config(&raw).expect_err("condition supports at most two edges");
    assert_eq!(
        error,
        validation("rule_graph condition node 'c1' supports at most 2 outgoing edges")
    );
}

#[test]
fn rejects_log_node_without_config() {
    let raw = with_graph("start", vec![start(), node("log1", RawRuleGraphNodeType::Log)], Vec::new());
    let error = map_gateway_config(&raw).expect_err("log config is required");
    assert_eq!(error, validation("rule_graph node 'log1' missing log config"));
}

#[test]
fn rejects_set_header_node_with_empty_name_or_value() {
    let mut set1 = node("set1", RawRuleGraphNodeType::SetHeader);
    set1.set_header =
        Some(RawHeaderMutationNodeConfig { name: "x-key".to_string(), value: String::new() });
    let raw = with_graph("start", vec![start(), set1], Vec::new());
    let error = map_gateway_config(&raw).expect_err("set_header requires non-empty fields");
    assert_eq!(error, validation("rule_graph node 'set1' header name/value cannot be empty"));
}

#[test]
fn rejects_remove_header_node_without_name() {
    let mut rm1 = node("rm1", RawRuleGraphNodeType::RemoveHeader);
    rm1.remove_header = Some(RawHeaderNameNodeConfig { name: " ".to_string() });
    let raw = with_graph("start", vec![start(), rm1], Vec::new());
    let error = map_gateway_config(&raw).expect_err("remove_header requires name");
    assert_eq!(error, validation("rule_graph node 'rm1' header name cannot be empty"));
}

#[test]
fn rejects_copy_header_node_with_missing_fields() {
    let mut copy1 = node("copy1", RawRuleGraphNodeType::CopyHeader);
    copy1.copy_header =
        Some(RawCopyHeaderNodeConfig { from: "x-src".to_string(), to: String::new() });
    let raw = with_graph("start", vec![start(), copy1], Vec::new());
    let error = map_gateway_config(&raw).expect_err("copy_header requires both fields");
    assert_eq!(error, validation("rule_graph node 'copy1' copy header fields cannot be empty"));
}

#[test]
fn rejects_wasm_plugin_node_without_config() {
    let raw =
        with_graph("start", vec![start(), node("wp1", RawRuleGraphNodeType::WasmPlugin)], Vec::new());
    let error = map_gateway_config(&raw).expect_err("wasm_plugin config is required");
    assert_eq!(error, validation("rule_graph node 'wp1' missing wasm_plugin config"));
}

#[test]
fn rejects_wasm_plugin_node_with_empty_plugin_id() {
    let raw = with_graph("start", vec![start(), wasm_node(wasm(" ", 20, 1024))], Vec::new());
    let error = map_gateway_config(&raw).expect_err("plugin_id must be non-empty");
    assert_eq!(error, validation("rule_graph node 'wp1' plugin_id cannot be empty"));
}

#[test]
fn rejects_wasm_plugin_node_with_zero_timeout() {
    let raw = with_graph("start", vec![start(), wasm_node(wasm("plugin.demo", 0, 1024))], Vec::new());
    let error = map_gateway_config(&raw).expect_err("timeout must be positive");
    assert_eq!(error, validation("rule_graph node 'wp1' timeout_ms must be greater than zero"));
}

#[test]
fn rejects_wasm_plugin_node_with_zero_max_memory() {
    let raw = with_graph("start", vec![start(), wasm_node(wasm("plugin.demo", 20, 0))], Vec::new());
    let error = map_gateway_config(&raw).expect_err("max_memory_bytes must be positive");
    assert_eq!(
        error,
        validation("rule_graph node 'wp1' max_memory_bytes must be greater than zero")
    );
}

#[test]
fn rejects_wasm_plugin_fs_dirs_without_fs_capability() {
    let mut config = wasm("plugin.demo", 20, 1024);
    config.read_dirs = vec!["sandbox".to_string()];
    let raw = with_graph("start", vec![start(), wasm_node(config)], Vec::new());
    let error = map_gateway_config(&raw).expect_err("fs directories require fs capability grant");
    assert_eq!(
        error,
        validation("rule_graph node 'wp1' fs directories require an fs capability grant")
    );
}

#[test]
fn rejects_wasm_plugin_fs_capability_without_dirs() {
    let mut config = wasm("plugin.demo", 20, 1024);
    config.granted_capabilities = vec![RawWasmCapability::Fs];
    let raw = with_graph("start", vec![start(), wasm_node(config)], Vec::new());
    let error = map_gateway_config(&raw).expect_err("fs capability should require dirs");
    assert_eq!(
        error,
        validation("rule_graph node 'wp1' fs capability requires read_dirs or write_dirs")
    );
}

#[test]
fn rejects_wasm_plugin_read_dirs_with_absolute_path() {
    let mut config = wasm("plugin.demo", 20, 1024);
    config.granted_capabilities = vec![RawWasmCapability::Fs];
    config.read_dirs = vec!["/etc".to_string()];
    let raw = with_graph("start", vec![start(), wasm_node(config)], Vec::new());
    let error = map_gateway_config(&raw).expect_err("read_dirs must be relative");
    assert_eq!(error, validation("rule_graph node 'wp1' read_dirs must use relative paths"));
}

#[test]
fn rejects_wasm_plugin_read_dirs_with_parent_traversal() {
    let mut config = wasm("plugin.demo", 20, 1024);
    config.granted_capabilities = vec![RawWasmCapability::Fs];
    config.read_dirs = vec!["../secret".to_string()];
    let raw = with_graph("start", vec![start(), wasm_node(config)], Vec::new());
    let error = map_gateway_config(&raw).expect_err("read_dirs must not contain parent traversal");
    assert_eq!(
        error,
        validation("rule_graph node 'wp1' read_dirs must not contain parent traversal")
    );
}

#[test]
fn rejects_wasm_plugin_network_capability_without_allowed_hosts() {
    let mut config = wasm("plugin.demo", 20, 1024);
    config.granted_capabilities = vec![RawWasmCapability::Network];
    let raw = with_graph("start", vec![start(), wasm_node(config)], Vec::new());
    let error =
        map_gateway_config(&raw).expect_err("network capability should require allowed_hosts");
    assert_eq!(
        error,
        validation("rule_graph node 'wp1' network capability requires allowed_hosts")
    );
}

#[test]
fn rejects_wasm_plugin_allowed_hosts_without_network_capability() {
    let mut config = wasm("plugin.demo", 20, 1024);
    config.allowed_hosts = vec!["api.openai.com".to_string()];
    let raw = with_graph("start", vec![start(), wasm_node(config)], Vec::new());
    let error =
        map_gateway_config(&raw).expect_err("allowed_hosts require network capability grant");
    assert_eq!(
        error,
        validation("rule_graph node 'wp1' allowed_hosts require a network capability grant")
    );
}

fn match_node(branches: Vec<RawMatchBranchConfig>, fallback: Option<&str>) -> RawRuleGraphNode {
    let mut m1 = node("m1", RawRuleGraphNodeType::Match);
    m1.match_node = Some(RawMatchNodeConfig {
        plugin: wasm("plugin.match", 20, 1024),
        branches,
        fallback_node_id: fallback.map(|f| f.to_string()),
    });
    m1
}

fn branch(id: &str, expr: &str, target: &str) -> RawMatchBranchConfig {
    RawMatchBranchConfig {
        id: id.to_string(),
        expr: expr.to_string(),
        target_node_id: target.to_string(),
    }
}

#[test]
fn rejects_match_node_without_config() {
    let raw = with_graph("start", vec![start(), node("m1", RawRuleGraphNodeType::Match)], Vec::new());
    let error = map_gateway_config(&raw).expect_err("match config is required");
    assert_eq!(error, validation("rule_graph node 'm1' missing match config"));
}

#[test]
fn rejects_match_node_without_branches() {
    let raw = with_graph(
        "start",
        vec![start(), node("end", RawRuleGraphNodeType::Other), match_node(Vec::new(), None)],
        Vec::new(),
    );
    let error = map_gateway_config(&raw).expect_err("match node must define branches");
    assert_eq!(error, validation("rule_graph node 'm1' must define at least one match branch"));
}

#[test]
fn rejects_match_branch_with_missing_target() {
    let raw = with_graph(
        "start",
        vec![start(), match_node(vec![branch("b1", "true", "missing")], None)],
        Vec::new(),
    );
    let error = map_gateway_config(&raw).expect_err("match branch target must exist");
    assert_eq!(
        error,
        validation("rule_graph node 'm1' match branch 'b1' references missing target 'missing'")
    );
}

#[test]
fn rejects_match_node_with_missing_fallback_target() {
    let raw = with_graph(
        "start",
        vec![
            start(),
            node("end", RawRuleGraphNodeType::Other),
            match_node(vec![branch("b1", "true", "end")], Some("missing")),
        ],
        Vec::new(),
    );
    let error = map_gateway_config(&raw).expect_err("fallback target must exist");
    assert_eq!(
        error,
        validation("rule_graph node 'm1' references missing fallback target 'missing'")
    );
}

fn runner(timeout_ms: u64, max_memory_bytes: u64, code: &str) -> RawRuleGraphNode {
    let mut n = node("runner1", RawRuleGraphNodeType::CodeRunner);
    n.code_runner =
        Some(RawCodeRunnerNodeConfig { timeout_ms, max_memory_bytes, code: code.to_string() });
    n
}

#[test]
fn rejects_code_runner_node_without_config() {
    let raw = with_graph(
        "start",
        vec![start(), node("runner1", RawRuleGraphNodeType::CodeRunner)],
        Vec::new(),
    );
    let error = map_gateway_config(&raw).expect_err("code_runner config is required");
    assert_eq!(error, validation("rule_graph node 'runner1' missing code_runner config"));
}

#[test]
fn rejects_code_runner_node_with_zero_timeout() {
    let raw = with_graph("start", vec![start(), runner(0, 1024, "return {};")], Vec::new());
    let error = map_gateway_config(&raw).expect_err("timeout must be positive");
    assert_eq!(error, validation("rule_graph node 'runner1' timeout_ms must be greater than zero"));
}

#[test]
fn rejects_code_runner_node_with_zero_max_memory() {
    let raw = with_graph("start", vec![start(), runner(20, 0, "return {};")], Vec::new());
    let error = map_gateway_config(&raw).expect_err("max_memory_bytes must be positive");
    assert_eq!(
        error,
        validation("rule_graph node 'runner1' max_memory_bytes must be greater than zero")
    );
}

#[test]
fn rejects_code_runner_node_with_empty_code() {
    let raw = with_graph("start", vec![start(), runner(20, 1024, " ")], Vec::new());
    let error = map_gateway_config(&raw).expect_err("code cannot be empty");
    assert_eq!(error, validation("rule_graph node 'runner1' code cannot be empty"));
}

#[test]
fn accepts_a_consistent_configuration() {
    let mut raw = with_graph(
        "start",
        vec![start(), node("end", RawRuleGraphNodeType::Other)],
        vec![edge("e1", "start", "end")],
    );
    raw.providers = vec![provider("openai", "OpenAI")];
    raw.models = vec![model("gpt-4o", "GPT-4o", "openai")];
    raw.routes = vec![RawRoute {
        id: "chat".to_string(),
        matcher: "/v1/chat".to_string(),
        provider_id: "openai".to_string(),
        model_id: Some("gpt-4o".to_string()),
    }];
    raw.header_rules = vec![RawHeaderRule {
        id: "rule-1".to_string(),
        scope: RawRuleScope::Route,
        target_id: Some("chat".to_string()),
        actions: vec![action("set", "x-api-key", Some("demo"))],
    }];
    raw.active_workflow_id = Some("main".to_string());
    raw.workflows = vec![RawWorkflowIndexEntry {
        id: "main".to_string(),
        name: None,
        file: Some("main.toml".to_string()),
        description: None,
    }];
    assert_eq!(map_gateway_config(&raw), Ok(()));
}

#[test]
fn rejects_duplicate_route_ids() {
    let route = RawRoute {
        id: "chat".to_string(),
        matcher: "/v1/chat".to_string(),
        provider_id: "openai".to_string(),
        model_id: None,
    };
    let raw = RawGatewayConfig {
        providers: vec![provider("openai", "OpenAI")],
        routes: vec![route.clone(), route],
        ..RawGatewayConfig::default()
    };
    assert_eq!(map_gateway_config(&raw), Err(validation("duplicate route id 'chat'")));
}

#[test]
fn rejects_two_workflows_sharing_a_file() {
    let entry = |id: &str| RawWorkflowIndexEntry {
        id: id.to_string(),
        name: None,
        file: Some("shared.toml".to_string()),
        description: None,
    };
    let raw = RawGatewayConfig {
        active_workflow_id: Some("a".to_string()),
        workflows: vec![entry("a"), entry("b")],
        ..RawGatewayConfig::default()
    };
    assert_eq!(map_gateway_config(&raw), Err(validation("duplicate workflow file 'shared.toml'")));
}

#[test]
fn code_runner_node_checks_in_order() {
    let err = |m: &str| Err(InfrastructureAclError::Validation(format!("rule_graph node 'run' {m}")));
    let cfg = |t: u64, m: u64, c: &str| Some(RawCodeRunnerNodeConfig { timeout_ms: t, max_memory_bytes: m, code: c.to_string() });
    assert_eq!(validate_code_runner_node("run", &None), err("missing code_runner config"));
    assert_eq!(validate_code_runner_node("run", &cfg(0, 0, " ")), err("timeout_ms must be greater than zero"));
    assert_eq!(validate_code_runner_node("run", &cfg(5, 0, " ")), err("max_memory_bytes must be greater than zero"));
    assert_eq!(validate_code_runner_node("run", &cfg(5, 64, " \t")), err("code cannot be empty"));
    assert_eq!(validate_code_runner_node("run", &cfg(5, 64, "return 1")), Ok(()));
}

#[test]
fn unique_ids_gives_the_ids() {
    assert_eq!(unique_ids(&vec!["r1", "r2"], "route"), Ok(vec!["r1", "r2"]));
    assert_eq!(
        unique_ids(&vec!["r1", "r1"], "route"),
        Err(InfrastructureAclError::Validation("duplicate route id 'r1'".to_string()))
    );
    assert_eq!(
        unique_ids(&vec!["", "r1"], "route"),
        Err(InfrastructureAclError::Validation("route id cannot be empty".to_string()))
    );
}
