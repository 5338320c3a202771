use infrastructure::plugin_registry::manifest::validate_supported_output_ports;
use infrastructure::plugin_registry::loader::{plan_registry_root, RegistryRoot};
use infrastructure::plugin_registry::loader::register_plugin_id;
use infrastructure::plugin_registry::manifest::{
    parse_plugin_manifest, ManifestCapability, ManifestCategory, ManifestError, ManifestIcon,
    ManifestTone, PluginManifest, PluginRuntimeKind, RawPluginManifest, RawPluginManifestUi,
};

fn strings(items: &[&str]) -> Vec<String> {
    items.iter().map(|s| s.to_string()).collect()
}

fn intent_classifier(ports: &[&str], capabilities: &[&str]) -> RawPluginManifest {
    RawPluginManifest {
        id: "intent-classifier".to_string(),
        name: "Intent Classifier".to_string(),
        version: "1.0.0".to_string(),
        description: "Classifies request intent".to_string(),
        runtime: None,
        supported_output_ports: strings(ports),
        capabilities: strings(capabilities),
        default_config_schema_hints: None,
        config_schema: None,
        ui: RawPluginManifestUi::default(),
    }
}

fn parse(path: &str, raw: RawPluginManifest) -> Result<PluginManifest, ManifestError> {
    parse_plugin_manifest(path, raw)
}

fn check_parses_plugin_toml() {
    let mut hints = toml::map::Map::new();
    hints.insert("prompt".to_string(), toml::Value::String("string".to_string()));
    hints.insert("default_intent".to_string(), toml::Value::String("string".to_string()));
    let mut raw = intent_classifier(&["chat", "default"], &["fs", "network"]);
    raw.default_config_schema_hints = Some(toml::Value::Table(hints));
    raw.ui = RawPluginManifestUi {
        icon: Some("route".to_string()),
        category: Some("routing".to_string()),
        tone: Some("sky".to_string()),
        order: Some(20),
        tags: strings(&["tenant", "policy"]),
    };
    let manifest =
        parse("plugins/intent-classifier/plugin.toml", raw).expect("manifest should parse");

    assert_eq!(manifest.id, "intent-classifier");
    assert_eq!(manifest.name, "Intent Classifier");
    assert_eq!(manifest.version, "1.0.0");
    assert_eq!(manifest.description, "Classifies request intent");
    assert_eq!(manifest.supported_output_ports, vec!["chat", "default"]);
    assert_eq!(manifest.capabilities, vec![ManifestCapability::Fs, ManifestCapability::Network]);
    assert_eq!(manifest.ui.icon, Some(ManifestIcon::Route));
    assert_eq!(manifest.ui.category, Some(ManifestCategory::Routing));
    assert_eq!(manifest.ui.tone, Some(ManifestTone::Sky));
    assert_eq!(manifest.ui.order, Some(20));
    assert_eq!(manifest.ui.tags, vec!["tenant", "policy"]);
    assert_eq!(manifest.runtime, PluginRuntimeKind::Component);
    let hints = manifest
        .default_config_schema_hints
        .as_ref()
        .and_then(|value| value.as_table())
        .expect("schema hints should be a table");
    assert_eq!(hints.get("prompt").and_then(|value| value.as_str()), Some("string"));
    assert_eq!(hints.get("default_intent").and_then(|value| value.as_str()), Some("string"));
}

fn check_parses_core_runtime_manifest() {
    let raw = RawPluginManifest {
        id: "js-code-runner".to_string(),
        name: "Code Runner".to_string(),
        version: "0.1.0".to_string(),
        description: "Runs javascript inside a core wasm guest".to_string(),
        runtime: Some("core".to_string()),
        supported_output_ports: strings(&["default"]),
        capabilities: strings(&["log"]),
        default_config_schema_hints: None,
        config_schema: None,
        ui: RawPluginManifestUi::default(),
    };
    let manifest = parse("plugins/js-code-runner/plugin.toml", raw).expect("manifest should parse");
    assert_eq!(manifest.runtime, PluginRuntimeKind::Core);
}

fn check_rejects_empty_supported_output_port_names() {
    let error = match parse(
        "plugins/intent-classifier/plugin.toml",
        intent_classifier(&["chat", "   "], &["fs"]),
    ) {
        Ok(_) => panic!("empty supported_output_ports should fail"),
        Err(error) => error,
    };
    assert!(
        error.message.contains("contains an empty supported_output_ports entry"),
        "unexpected error: {}",
        error.message
    );
}

fn check_rejects_duplicate_supported_output_port_names() {
    let error = match parse(
        "plugins/intent-classifier/plugin.toml",
        intent_classifier(&["chat", " chat "], &["network"]),
    ) {
        Ok(_) => panic!("duplicate supported_output_ports should fail"),
        Err(error) => error,
    };
    assert!(
        error.message.contains("declares duplicate supported_output_port 'chat'"),
        "unexpected error: {}",
        error.message
    );
}

fn check_rejects_duplicate_plugin_ids() {
    let raw = intent_classifier(&["chat", "default"], &["log"]);
    let first = parse("intent-classifier/plugin.toml", raw.clone()).expect("manifest should parse");
    let second =
        parse("intent-classifier-copy/plugin.toml", raw).expect("manifest should parse");
    let mut ids: Vec<String> = Vec::new();
    register_plugin_id(&mut ids, &first.id).expect("first plugin id should register");
    let error = match register_plugin_id(&mut ids, &second.id) {
        Ok(_) => panic!("duplicate ids should fail"),
        Err(error) => error,
    };
    assert!(
        error.message.contains("duplicate plugin id 'intent-classifier'"),
        "unexpected error: {}",
        error.message
    );
}

fn check_rejects_unsupported_capability_declarations() {
    let error = match parse(
        "intent-classifier/plugin.toml",
        intent_classifier(&["chat", "default"], &["log", "shell"]),
    ) {
        Ok(_) => panic!("unsupported capability should fail"),
        Err(error) => error,
    };
    assert!(
        error.message.contains("unsupported capability 'shell' (supported: log, fs, network)"),
        "unexpected error: {}",
        error.message
    );
}

fn check_rejects_unsupported_ui_icon_declarations() {
    let mut raw = intent_classifier(&["chat", "default"], &["log"]);
    raw.ui.icon = Some("rocket".to_string());
    let error = match parse("plugins/intent-classifier/plugin.toml", raw) {
        Ok(_) => panic!("unsupported ui.icon should fail"),
        Err(error) => error,
    };
    assert!(
        error.message.contains("unsupported ui.icon 'rocket'"),
        "unexpected error: {}",
        error.message
    );
}

#[test]
fn plugin_registry_parses_plugin_toml() {
    check_parses_plugin_toml();
}

#[test]
fn tests_parses_plugin_toml() {
    check_parses_plugin_toml();
}

#[test]
fn plugin_registry_parses_core_runtime_manifest() {
    check_parses_core_runtime_manifest();
}

#[test]
fn tests_parses_core_runtime_manifest() {
    check_parses_core_runtime_manifest();
}

#[test]
fn plugin_registry_rejects_empty_supported_output_port_names() {
    check_rejects_empty_supported_output_port_names();
}

#[test]
fn tests_rejects_empty_supported_output_port_names() {
    check_rejects_empty_supported_output_port_names();
}

#[test]
fn plugin_registry_rejects_duplicate_supported_output_port_names() {
    check_rejects_duplicate_supported_output_port_names();
}

#[test]
fn tests_rejects_duplicate_supported_output_port_names() {
    check_rejects_duplicate_supported_output_port_names();
}

#[test]
fn plugin_registry_rejects_duplicate_plugin_ids() {
    check_rejects_duplicate_plugin_ids();
}

#[test]
fn tests_rejects_duplicate_plugin_ids() {
    check_rejects_duplicate_plugin_ids();
}

#[test]
fn plugin_registry_rejects_unsupported_capability_declarations() {
    check_rejects_unsupported_capability_declarations();
}

#[test]
fn tests_rejects_unsupported_capability_declarations() {
    check_rejects_unsupported_capability_declarations();
}

#[test]
fn plugin_registry_rejects_unsupported_ui_icon_declarations() {
    check_rejects_unsupported_ui_icon_declarations();
}

#[test]
fn tests_rejects_unsupported_ui_icon_declarations() {
    check_rejects_unsupported_ui_icon_declarations();
}

#[test]
fn rejects_unsupported_runtime() {
    let mut raw = intent_classifier(&["chat"], &["log"]);
    raw.runtime = Some(" wasi ".to_string());
    let error = parse("p/plugin.toml", raw).expect_err("unknown runtime should fail");
    assert_eq!(
        error.message,
        "plugin manifest 'p/plugin.toml' declares unsupported runtime 'wasi' (supported: component, core)"
    );
}

#[test]
fn trims_output_ports_and_tags() {
    let mut raw = intent_classifier(&[" chat ", "default"], &[]);
    raw.ui.tags = strings(&[" edge "]);
    let manifest = parse("p/plugin.toml", raw).expect("manifest should parse");
    assert_eq!(manifest.supported_output_ports, vec!["chat", "default"]);
    assert_eq!(manifest.ui.tags, vec!["edge"]);
}

#[test]
fn output_ports_are_trimmed_and_distinct() {
    assert_eq!(
        validate_supported_output_ports("p/plugin.toml", &strings(&[" a ", "b"])).map_err(|e| e.message),
        Ok(strings(&["a", "b"]))
    );
    assert_eq!(
        validate_supported_output_ports("p/plugin.toml", &strings(&["a", " a"])).map_err(|e| e.message),
        Err("plugin manifest 'p/plugin.toml' declares duplicate supported_output_port 'a'".to_string())
    );
    assert_eq!(
        validate_supported_output_ports("p/plugin.toml", &strings(&["a", "  "])).map_err(|e| e.message),
        Err("plugin manifest 'p/plugin.toml' contains an empty supported_output_ports entry".to_string())
    );
}

#[test]
fn registry_root_decisions() {
    assert_eq!(plan_registry_root("plugins", false, false).map_err(|e| e.message), Ok(RegistryRoot::Empty));
    assert_eq!(plan_registry_root("plugins", true, true).map_err(|e| e.message), Ok(RegistryRoot::Scan));
    assert_eq!(
        plan_registry_root("plugins", true, false).map_err(|e| e.message),
        Err("plugin registry root 'plugins' is not a directory".to_string())
    );
}
