use infrastructure::plugin_runtime_contract::{
    RuntimeContextPatchOp, RuntimeExecuteInput, RuntimeHeaderOp, RuntimeLogEntry,
    RuntimeLogLevel, RuntimeNodeConfig, RuntimePluginManifest, RuntimeRequestHeader,
};
use infrastructure::plugins::http_fetch::{http_get_request, http_response_body, parse_http_url};
use infrastructure::plugins::policy_router::{
    self, choose_port, load_local_policy, load_remote_policy, match_path_prefix, PathPrefixRoute,
    PolicyDocument, PolicyFetch, RouterConfig, SimpleHttpUrl,
};

fn request(path: &str, headers: &[(&str, &str)]) -> RuntimeExecuteInput {
    RuntimeExecuteInput {
        request_method: "POST".to_string(),
        current_path: path.to_string(),
        request_headers: headers
            .iter()
            .map(|(n, v)| RuntimeRequestHeader { name: n.to_string(), value: v.to_string() })
            .collect(),
        workflow_context: Vec::new(),
        selected_provider_id: String::new(),
        selected_model_id: String::new(),
        node_config: RuntimeNodeConfig {
            manifest: RuntimePluginManifest {
                id: String::new(),
                name: String::new(),
                version: String::new(),
                description: String::new(),
                supported_output_ports: Vec::new(),
                default_config_schema_hints_json: None,
                capabilities: Vec::new(),
            },
            grants: Vec::new(),
            config_json: None,
        },
    }
}

fn policy(routes: &[(&str, &str)], prefixes: &[(&str, &str)], default: Option<&str>) -> PolicyDocument {
    PolicyDocument {
        header_routes: routes.iter().map(|(k, v)| (k.to_string(), v.to_string())).collect(),
        path_prefix_routes: prefixes
            .iter()
            .map(|(p, port)| PathPrefixRoute { prefix: p.to_string(), port: port.to_string() })
            .collect(),
        default_port: default.map(|d| d.to_string()),
    }
}

fn decided(d: policy_router::Decision) -> (String, String, String) {
    (d.port, d.route_key, d.policy_source)
}

fn triple(a: &str, b: &str, c: &str) -> (String, String, String) {
    (a.to_string(), b.to_string(), c.to_string())
}

#[test]
fn header_routes_win_remote_first() {
    let remote = policy(&[("acme", "gold")], &[("/v1", "prefix")], Some("r-default"));
    let local = policy(&[("acme", "silver"), ("beta", "bronze")], &[], None);
    let req = request("/v1/chat", &[("X-Tenant", "acme")]);
    assert_eq!(decided(choose_port(&req, "x-tenant", Some(&local), Some(&remote), "fb")), triple("gold", "acme", "remote"));
    let req = request("/v1/chat", &[("x-tenant", "beta")]);
    assert_eq!(decided(choose_port(&req, "x-tenant", Some(&local), Some(&remote), "fb")), triple("bronze", "beta", "local"));
}

#[test]
fn then_prefixes_then_defaults_then_fallback() {
    let remote = policy(&[], &[("/v2", "two")], Some("r-default"));
    let local = policy(&[], &[("/v1", "one")], Some("l-default"));
    let req = request("/v1/chat", &[]);
    assert_eq!(decided(choose_port(&req, "x-tenant", Some(&local), Some(&remote), "fb")), triple("one", "/v1", "local"));
    let req = request("/v3", &[]);
    assert_eq!(decided(choose_port(&req, "x-tenant", Some(&local), Some(&remote), "fb")), triple("r-default", "default", "remote"));
    assert_eq!(decided(choose_port(&req, "x-tenant", Some(&local), None, "fb")), triple("l-default", "default", "local"));
    assert_eq!(decided(choose_port(&req, "x-tenant", None, None, "fb")), triple("fb", "fallback", "fallback"));
}

#[test]
fn first_matching_prefix_is_used() {
    let p = policy(&[], &[("/v1/chat", "chat"), ("/v1", "v1")], None);
    assert_eq!(match_path_prefix(&p, "/v1/chat/x").map(|r| r.port.clone()), Some("chat".to_string()));
    assert_eq!(match_path_prefix(&p, "/v2"), None);
}

#[test]
fn router_node_output_and_logs() {
    let config = RouterConfig { policy_file: None, policy_url: None, match_header: None, fallback_port: None };
    let earlier = vec![RuntimeLogEntry { level: RuntimeLogLevel::Warn, message: "earlier".to_string() }];
    let out = policy_router::execute(&request("/x", &[]), &config, None, None, earlier);
    assert_eq!(out.next_port, Some("default".to_string()));
    assert_eq!(
        out.context_ops,
        vec![
            RuntimeContextPatchOp::SetValue { key: "route_key".to_string(), value: "fallback".to_string() },
            RuntimeContextPatchOp::SetValue { key: "policy_source".to_string(), value: "fallback".to_string() },
        ]
    );
    assert_eq!(
        out.header_ops,
        vec![
            RuntimeHeaderOp::SetValue { name: "x-policy-source".to_string(), value: "fallback".to_string() },
            RuntimeHeaderOp::SetValue { name: "x-route-key".to_string(), value: "fallback".to_string() },
        ]
    );
    assert_eq!(out.logs.len(), 2);
    assert_eq!(out.logs[0].message, "earlier");
    assert_eq!(out.logs[1].message, "remote-policy-router chose port 'default' using route key 'fallback' from fallback");
}

#[test]
fn policy_loading_is_logged() {
    let mut logs = Vec::new();
    let loaded = load_local_policy("policy.json", PolicyFetch::Loaded(policy(&[], &[], None)), &mut logs);
    assert!(loaded.is_some());
    let none = load_remote_policy("http://h/p", PolicyFetch::Unavailable("refused".to_string()), &mut logs);
    assert!(none.is_none());
    let none = load_local_policy("p.json", PolicyFetch::Invalid("bad json".to_string()), &mut logs);
    assert!(none.is_none());
    assert_eq!(logs[0].message, "loaded local policy from 'policy.json'");
    assert_eq!(logs[0].level, RuntimeLogLevel::Info);
    assert_eq!(logs[1].message, "failed to fetch remote policy 'http://h/p': refused");
    assert_eq!(logs[1].level, RuntimeLogLevel::Warn);
    assert_eq!(logs[2].message, "failed to parse local policy 'p.json': bad json");
}

#[test]
fn parses_plain_http_urls() {
    assert_eq!(
        parse_http_url("http://policy.local:8080/v1/policy"),
        Ok(SimpleHttpUrl { host: "policy.local".to_string(), port: 8080, path: "/v1/policy".to_string() })
    );
    assert_eq!(
        parse_http_url("http://policy.local"),
        Ok(SimpleHttpUrl { host: "policy.local".to_string(), port: 80, path: "/".to_string() })
    );
    assert_eq!(parse_http_url("https://x"), Err("only http:// URLs are supported".to_string()));
    assert_eq!(parse_http_url("http://:80/x"), Err("URL host is required".to_string()));
    let error = parse_http_url("http://h:99999/").expect_err("port out of range");
    assert!(error.starts_with("invalid URL port '99999': "), "{error}");
}

#[test]
fn writes_the_get_request() {
    let url = SimpleHttpUrl { host: "h".to_string(), port: 80, path: "/p".to_string() };
    assert_eq!(
        http_get_request(&url),
        "GET /p HTTP/1.1\r\nHost: h\r\nConnection: close\r\nAccept: application/json\r\n\r\n"
    );
}

#[test]
fn reads_the_response_body() {
    assert_eq!(http_response_body("HTTP/1.1 200 OK\r\nA: b\r\n\r\n{\"x\":1}"), Ok("{\"x\":1}".to_string()));
    assert_eq!(
        http_response_body("HTTP/1.1 404 Not Found\r\n\r\n"),
        Err("unexpected response status: HTTP/1.1 404 Not Found".to_string())
    );
    assert_eq!(http_response_body("HTTP/1.1 200 OK"), Err("response missing header/body separator".to_string()));
    assert_eq!(http_response_body("\r\n\r\nbody"), Err("response missing status line".to_string()));
}
