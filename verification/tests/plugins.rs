use infrastructure::plugin_runtime_contract::{
    RuntimeContextPatchOp, RuntimeExecuteInput, RuntimeHeaderOp, RuntimeLogLevel,
    RuntimeNodeConfig, RuntimePluginManifest, RuntimeRequestHeader,
};
use infrastructure::plugins::code_runner::normalize_source;
use infrastructure::plugins::condition_evaluator::{
    self, evaluate_clause, evaluate_expression, parse_contains, parse_eq, parse_header_eq,
    parse_quoted, ConditionConfig,
};
use infrastructure::plugins::intent_classifier;
use infrastructure::plugins::log_step::{self, parse_level, LogStepConfig};
use infrastructure::plugins::node::{
    context_map, find_header, header_map, render_template, NodeExecuteError,
};
use infrastructure::plugins::rewrite_path::{self, RewritePathConfig};
use infrastructure::plugins::select_model::{self, SelectModelConfig};
use infrastructure::plugins::set_header::{
    self, build_header_op, required_name, required_value, HeaderMutation, SetHeaderConfig,
};
use infrastructure::plugins::workflow_selection::{self, SelectionConfig};

fn header(name: &str, value: &str) -> RuntimeRequestHeader {
    RuntimeRequestHeader { name: name.to_string(), value: value.to_string() }
}

fn input(method: &str, path: &str, headers: Vec<RuntimeRequestHeader>) -> RuntimeExecuteInput {
    RuntimeExecuteInput {
        request_method: method.to_string(),
        current_path: path.to_string(),
        request_headers: headers,
        workflow_context: Vec::new(),
        selected_provider_id: "openai".to_string(),
        selected_model_id: "gpt-4o".to_string(),
        node_config: RuntimeNodeConfig {
            manifest: RuntimePluginManifest {
                id: String::new(),
                name: String::new(),
                version: String::new(),
                description: String::new(),
                supported_output_ports: Vec::new(),
                default_config_schema_hints_json: None,
                capabilities: Vec::new(),
            },
            grants: Vec::new(),
            config_json: None,
        },
    }
}

fn set_value(key: &str, value: &str) -> RuntimeContextPatchOp {
    RuntimeContextPatchOp::SetValue { key: key.to_string(), value: value.to_string() }
}

#[test]
fn parse_quoted_accepts_both_quote_styles() {
    assert_eq!(parse_quoted("\"abc\""), Some("abc".to_string()));
    assert_eq!(parse_quoted("'abc'"), Some("abc".to_string()));
    assert_eq!(parse_quoted("\"\""), Some(String::new()));
    assert_eq!(parse_quoted("\"abc'"), None);
    assert_eq!(parse_quoted("\""), None);
    assert_eq!(parse_quoted("abc"), None);
}

#[test]
fn parses_clause_forms() {
    assert_eq!(parse_eq(" method == \"POST\" ", "method"), Some("POST".to_string()));
    assert_eq!(parse_eq("path == '/v1'", "method"), None);
    assert_eq!(
        parse_header_eq("ctx.header. x-tenant  == 'acme'"),
        Some(("x-tenant".to_string(), "acme".to_string()))
    );
    assert_eq!(parse_header_eq("header.x == 'a'"), None);
    assert_eq!(parse_contains("  path.contains( \"/chat\" ) ", "path"), Some("/chat".to_string()));
    assert_eq!(parse_contains("path.contains(/chat)", "path"), None);
}

#[test]
fn evaluates_clauses_against_the_request() {
    let req = input("POST", "/v1/chat/completions", vec![header("X-Tenant", "acme")]);
    assert_eq!(evaluate_clause("method == \"POST\"", &req), Some(true));
    assert_eq!(evaluate_clause("method == \"GET\"", &req), Some(false));
    assert_eq!(evaluate_clause("path == '/v1/chat/completions'", &req), Some(true));
    assert_eq!(evaluate_clause("ctx.header.x-tenant == 'acme'", &req), Some(true));
    assert_eq!(evaluate_clause("ctx.header.x-missing == 'acme'", &req), Some(false));
    assert_eq!(evaluate_clause("path.contains('/chat')", &req), Some(true));
    assert_eq!(evaluate_clause("model == 'x'", &req), None);
}

#[test]
fn expressions_need_every_clause() {
    let req = input("POST", "/v1/chat", vec![]);
    assert!(evaluate_expression("method == 'POST' && path.contains('/chat')", &req));
    assert!(!evaluate_expression("method == 'POST' && path.contains('/embed')", &req));
    assert!(!evaluate_expression("method == 'POST' && nonsense", &req));
    assert!(!evaluate_expression("   ", &req));
}

#[test]
fn condition_node_reports_its_result() {
    let req = input("GET", "/health", vec![]);
    let config = ConditionConfig { expr: Some("method == 'GET'".to_string()) };
    let out = condition_evaluator::execute(&req, &config);
    assert_eq!(out.context_ops, vec![set_value("condition.last_result", "true")]);
    assert_eq!(out.next_port, Some("true".to_string()));
    assert!(out.header_ops.is_empty());
    assert_eq!(out.path_rewrite, None);
    assert_eq!(out.logs.len(), 1);
    assert_eq!(out.logs[0].level, RuntimeLogLevel::Info);
    assert_eq!(out.logs[0].message, "condition-evaluator evaluated expr 'method == 'GET'' => true");

    let out = condition_evaluator::execute(&req, &ConditionConfig { expr: None });
    assert_eq!(out.next_port, Some("false".to_string()));
    assert_eq!(out.logs[0].message, "condition-evaluator evaluated expr '' => false");
}

#[test]
fn intent_classifier_prefers_chat() {
    let out = intent_classifier::execute(&input("POST", "/v1/x", vec![header("X-Intent", "chat")]));
    assert_eq!(out.next_port, Some("chat".to_string()));
    assert_eq!(out.context_ops, vec![set_value("intent", "chat")]);
    assert_eq!(out.logs[0].message, "intent-classifier routed path '/v1/x' to port 'chat'");

    let out = intent_classifier::execute(&input("POST", "/v1/chat/completions", vec![]));
    assert_eq!(out.next_port, Some("chat".to_string()));

    let out = intent_classifier::execute(&input("POST", "/v1/embeddings", vec![header("x-intent", "Chat")]));
    assert_eq!(out.next_port, Some("default".to_string()));
}

#[test]
fn header_map_lowercases_and_keeps_the_last_value() {
    let req = input("GET", "/", vec![header("B", "1"), header("a", "2"), header("b", "3")]);
    let map = header_map(&req);
    assert_eq!(map, vec![("a".to_string(), "2".to_string()), ("b".to_string(), "3".to_string())]);
    assert_eq!(find_header(&req.request_headers, "b"), Some("1"));
}

#[test]
fn renders_templates_in_order() {
    let mut req = input("POST", "/v1/chat", vec![header("X-Tenant", "acme")]);
    req.workflow_context =
        vec![("k".to_string(), "first".to_string()), ("k".to_string(), "second".to_string())];
    let headers = header_map(&req);
    let context = context_map(&req);
    let out = render_template(
        "${method} ${path} ${provider.id}/${model.id} ${header.x-tenant} ${ctx.k} ${ctx.none}",
        &req,
        &headers,
        &context,
    );
    assert_eq!(out, "POST /v1/chat openai/gpt-4o acme second ${ctx.none}");
}

fn invalid<T>(m: &str) -> Result<T, NodeExecuteError> {
    Err(NodeExecuteError::InvalidInput(m.to_string()))
}

fn mutation(op: &str, name: Option<&str>, value: Option<&str>, from: Option<&str>) -> HeaderMutation {
    HeaderMutation {
        op: op.to_string(),
        name: name.map(|s| s.to_string()),
        value: value.map(|s| s.to_string()),
        from: from.map(|s| s.to_string()),
    }
}

#[test]
fn builds_each_header_operation() {
    let req = input("POST", "/v1", vec![header("X-Src", "copied"), header("X-Existing", "kept")]);
    let headers = header_map(&req);
    let context = context_map(&req);
    let build = |m: HeaderMutation| build_header_op(&m, &req, &headers, &context);

    assert_eq!(
        build(mutation(" set ", Some(" x-a "), Some(" ${method} "), None)),
        Ok(RuntimeHeaderOp::SetValue { name: "x-a".to_string(), value: "POST".to_string() })
    );
    assert_eq!(
        build(mutation("append", Some("x-a"), Some("v"), None)),
        Ok(RuntimeHeaderOp::Append { name: "x-a".to_string(), value: "v".to_string() })
    );
    assert_eq!(
        build(mutation("remove", Some("x-a"), None, None)),
        Ok(RuntimeHeaderOp::Remove { name: "x-a".to_string() })
    );
    assert_eq!(
        build(mutation("copy", Some("x-dst"), None, Some("X-SRC"))),
        Ok(RuntimeHeaderOp::SetValue { name: "x-dst".to_string(), value: "copied".to_string() })
    );
    assert_eq!(
        build(mutation("copy", Some("x-dst"), None, Some("x-none"))),
        Ok(RuntimeHeaderOp::SetValue { name: "x-dst".to_string(), value: String::new() })
    );
    assert_eq!(
        build(mutation("set_if_absent", Some("X-Existing"), Some("new"), None)),
        Ok(RuntimeHeaderOp::SetValue { name: "X-Existing".to_string(), value: "kept".to_string() })
    );
    assert_eq!(
        build(mutation("set_if_absent", Some("x-new"), Some("${path}"), None)),
        Ok(RuntimeHeaderOp::SetValue { name: "x-new".to_string(), value: "/v1".to_string() })
    );
}

#[test]
fn refuses_incomplete_header_mutations() {
    let req = input("POST", "/v1", vec![]);
    let headers = header_map(&req);
    let context = context_map(&req);
    let build = |m: HeaderMutation| build_header_op(&m, &req, &headers, &context);

    assert_eq!(build(mutation("set", None, Some("v"), None)), invalid("header op requires 'name'"));
    assert_eq!(build(mutation("set", Some("x"), Some("  "), None)), invalid("header op requires 'value'"));
    assert_eq!(build(mutation("copy", Some("x"), None, None)), invalid("copy op requires 'from'"));
    assert_eq!(build(mutation(" rename ", Some("x"), None, None)), invalid("unsupported set-header op 'rename'"));
    assert_eq!(required_name(&mutation("set", Some("  "), None, None)), invalid("header op requires 'name'"));
    assert_eq!(required_value(&mutation("set", None, Some(" v "), None)), Ok("v"));
}

#[test]
fn set_header_node_stops_at_the_first_refusal() {
    let req = input("POST", "/v1", vec![]);
    let config = SetHeaderConfig {
        set_headers: vec![
            mutation("set", Some("x-a"), Some("1"), None),
            mutation("explode", None, None, None),
            mutation("set", None, None, None),
        ],
        log_message: None,
    };
    assert_eq!(
        set_header::execute(&req, &config),
        Err(NodeExecuteError::InvalidInput("unsupported set-header op 'explode'".to_string()))
    );

    let config = SetHeaderConfig {
        set_headers: vec![mutation("set", Some("x-a"), Some("1"), None)],
        log_message: Some("set on ${path}".to_string()),
    };
    let out = set_header::execute(&req, &config).expect("valid mutations");
    assert_eq!(out.header_ops, vec![RuntimeHeaderOp::SetValue { name: "x-a".to_string(), value: "1".to_string() }]);
    assert_eq!(out.logs.len(), 1);
    assert_eq!(out.logs[0].message, "set on /v1");
}

#[test]
fn select_model_records_the_selection() {
    let mut req = input("POST", "/v1", vec![]);
    req.workflow_context = vec![("selection.provider_id".to_string(), "old".to_string())];
    let config = SelectModelConfig {
        provider_id: Some(" anthropic ".to_string()),
        model_id: Some("large-model".to_string()),
        log_message: None,
    };
    let out = select_model::execute(&req, &config).expect("both ids given");
    assert_eq!(
        out.context_ops,
        vec![set_value("selection.provider_id", "anthropic"), set_value("selection.model_id", "large-model")]
    );
    assert_eq!(out.logs[0].message, "selected provider=old model=${ctx.selection.model_id}");

    let config = SelectModelConfig { provider_id: Some("a".to_string()), model_id: None, log_message: None };
    assert_eq!(
        select_model::execute(&req, &config),
        Err(NodeExecuteError::InvalidInput(
            "select-model requires non-empty provider_id and model_id".to_string()
        ))
    );
}

#[test]
fn workflow_selection_sets_what_is_given() {
    let req = input("POST", "/v1", vec![]);
    let config = SelectionConfig { provider_id: Some("p".to_string()), model_id: Some("m".to_string()), log_message: None };
    let out = workflow_selection::execute(&req, &config).expect("ids given");
    assert_eq!(out.context_ops, vec![set_value("selection.provider_id", "p"), set_value("selection.model_id", "m")]);
    assert_eq!(out.logs[0].message, "selected provider=p model=m");

    let config = SelectionConfig { provider_id: None, model_id: Some(" m ".to_string()), log_message: None };
    let out = workflow_selection::execute(&req, &config).expect("model given");
    assert_eq!(out.context_ops, vec![set_value("selection.model_id", "m")]);
    assert_eq!(out.logs[0].message, "selected model=m");

    let config = SelectionConfig { provider_id: Some(" ".to_string()), model_id: None, log_message: None };
    assert_eq!(
        workflow_selection::execute(&req, &config),
        Err(NodeExecuteError::InvalidInput("selection step requires provider_id or model_id".to_string()))
    );
}

#[test]
fn log_step_levels_and_default_message() {
    assert_eq!(parse_level(Some(" warn ")), RuntimeLogLevel::Warn);
    assert_eq!(parse_level(Some("debug")), RuntimeLogLevel::Debug);
    assert_eq!(parse_level(Some("error")), RuntimeLogLevel::Error);
    assert_eq!(parse_level(Some("verbose")), RuntimeLogLevel::Info);
    assert_eq!(parse_level(None), RuntimeLogLevel::Info);
    let out = log_step::execute(&input("PUT", "/a", vec![]), &LogStepConfig { log_message: None, level: Some("error".to_string()) });
    assert_eq!(out.logs.len(), 1);
    assert_eq!(out.logs[0].level, RuntimeLogLevel::Error);
    assert_eq!(out.logs[0].message, "log-step method=PUT path=/a");
}

#[test]
fn rewrite_path_renders_the_trimmed_template() {
    let req = input("GET", "/v1/chat", vec![]);
    let config = RewritePathConfig { path_rewrite: Some("  /proxy${path} ".to_string()), log_message: Some("  ".to_string()) };
    let out = rewrite_path::execute(&req, &config);
    assert_eq!(out.path_rewrite, Some("/proxy/v1/chat".to_string()));
    assert!(out.logs.is_empty());
    let out = rewrite_path::execute(&req, &RewritePathConfig { path_rewrite: Some(" ".to_string()), log_message: None });
    assert_eq!(out.path_rewrite, None);
}

#[test]
fn code_runner_source_drops_the_export() {
    assert_eq!(normalize_source("  export function run(input) {}"), "  function run(input) {}");
    assert_eq!(normalize_source("function run() {} // export function run"), "function run() {} // export function run");
}
