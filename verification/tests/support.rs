use infrastructure::plugin_registry::cache::ArtifactCache;
use infrastructure::plugins::node::{context_map, empty_input, header_map, render_template};
use infrastructure::plugin_registry::paths::{
    join_path, parent_path, plugins_root_candidates, resolve_plugin_wasm_path, select_plugins_root,
    PathProbe,
};
use infrastructure::plugin_registry::loader::{plugin_manifest_path, require_plugin_manifest};
use infrastructure::rewrite::{replace_all_exec, split_all_exec};
use infrastructure::sorted_pairs::{collect_pairs, str_lt};
use infrastructure::upstream::{build_upstream_url, should_skip_forward_header, UpstreamUrlError};

fn pairs(items: &[(&str, &str)]) -> Vec<(String, String)> {
    items.iter().map(|(k, v)| (k.to_string(), v.to_string())).collect()
}

#[test]
fn collected_pairs_are_ordered_and_last_wins() {
    assert_eq!(collect_pairs(pairs(&[("b", "1"), ("a", "2"), ("b", "3")])), pairs(&[("a", "2"), ("b", "3")]));
    assert!(str_lt("a", "b"));
    assert!(str_lt("", "a"));
    assert!(!str_lt("ab", "a"));
    assert!(!str_lt("a", "a"));
    assert!(str_lt("Z", "a"));
}

#[test]
fn replaces_and_splits_left_to_right() {
    assert_eq!(replace_all_exec("aXbXc", "X", "--"), "a--b--c");
    assert_eq!(replace_all_exec("aaa", "aa", "b"), "ba");
    assert_eq!(replace_all_exec("abc", "", "z"), "abc");
    assert_eq!(split_all_exec("a&&b&&", "&&"), vec!["a", "b", ""]);
}

#[test]
fn skips_hop_and_overridden_headers() {
    let extra = vec!["authorization".to_string()];
    assert!(should_skip_forward_header("host", &extra));
    assert!(should_skip_forward_header("connection", &extra));
    assert!(should_skip_forward_header("x-target", &extra));
    assert!(should_skip_forward_header("authorization", &extra));
    assert!(!should_skip_forward_header("accept", &extra));
}

#[test]
fn builds_upstream_urls() {
    let url = build_upstream_url("https://api.example.com/base?old=1", "/v1/chat", Some("x=1"))
        .expect("base url parses");
    assert_eq!(url.as_str(), "https://api.example.com/v1/chat?x=1");
    let url = build_upstream_url("http://localhost:8080", "/v1", None).expect("base url parses");
    assert_eq!(url.as_str(), "http://localhost:8080/v1");
    assert_eq!(
        build_upstream_url("not a url", "/v1", None),
        Err(UpstreamUrlError::InvalidBaseUrl(url::ParseError::RelativeUrlWithoutBase))
    );
}

#[test]
fn path_text_follows_std_paths() {
    for (base, name) in [("a", "b"), ("a/", "b"), ("", "b"), ("/", "plugins")] {
        let expected = std::path::Path::new(base).join(name).display().to_string();
        assert_eq!(join_path(base, name), expected);
    }
    for p in ["/a/b/c.toml", "/c.toml", "/", "c.toml", "a/b"] {
        let expected = std::path::Path::new(p).parent().map(|q| q.display().to_string());
        assert_eq!(parent_path(p), expected, "{p}");
    }
}

#[test]
fn locates_plugin_files() {
    assert_eq!(resolve_plugin_wasm_path("plugins/x", true, true).map_err(|e| e.message), Ok("plugins/x/wasm/plugin.wasm".to_string()));
    assert_eq!(resolve_plugin_wasm_path("plugins/x", false, true).map_err(|e| e.message), Ok("plugins/x/plugin.wasm".to_string()));
    assert_eq!(
        resolve_plugin_wasm_path("plugins/x", false, false).map_err(|e| e.message),
        Err("plugin directory 'plugins/x' is missing wasm/plugin.wasm (and legacy plugin.wasm)".to_string())
    );
    assert_eq!(plugin_manifest_path("plugins/x"), "plugins/x/plugin.toml");
    assert!(require_plugin_manifest("plugins/x", true).is_ok());
    assert_eq!(
        require_plugin_manifest("plugins/x", false).map_err(|e| e.message),
        Err("plugin directory 'plugins/x' is missing plugin.toml".to_string())
    );
}

#[test]
fn resolves_the_plugins_root() {
    let candidates = plugins_root_candidates("/srv/app/config/gateway.toml").expect("has a parent");
    assert_eq!(candidates, vec!["/srv/app/config/plugins", "/srv/app/plugins"]);
    assert_eq!(plugins_root_candidates("/gateway.toml").expect("has a parent"), vec!["/plugins"]);
    assert_eq!(
        plugins_root_candidates("/").map_err(|e| e.message),
        Err("config path '/' does not have a parent directory".to_string())
    );
    let none = PathProbe { is_dir: false, exists: false };
    let dir = PathProbe { is_dir: true, exists: true };
    let file = PathProbe { is_dir: false, exists: true };
    let config = "/srv/app/config/gateway.toml";
    assert_eq!(select_plugins_root(config, &candidates, &vec![none, dir]).map_err(|e| e.message), Ok("/srv/app/plugins".to_string()));
    assert_eq!(
        select_plugins_root(config, &candidates, &vec![file, dir]).map_err(|e| e.message),
        Err("resolved plugins path '/srv/app/config/plugins' exists but is not a directory".to_string())
    );
    assert_eq!(
        select_plugins_root(config, &candidates, &vec![none, none]).map_err(|e| e.message),
        Err("could not resolve plugins directory for config '/srv/app/config/gateway.toml'; checked: /srv/app/config/plugins, /srv/app/plugins".to_string())
    );
}

#[test]
fn caches_artifacts_by_path() {
    let mut cache: ArtifactCache<u32> = ArtifactCache::new();
    assert_eq!(cache.len(), 0);
    assert_eq!(cache.get("a.wasm"), None);
    cache.insert("a.wasm".to_string(), 7);
    cache.insert("b.wasm".to_string(), 9);
    assert_eq!(cache.get("a.wasm"), Some(&7));
    assert_eq!(cache.get("b.wasm"), Some(&9));
    assert_eq!(cache.get("c.wasm"), None);
    assert_eq!(cache.len(), 2);
}

#[test]
fn plain_templates_render_unchanged() {
    let input = empty_input();
    let headers = header_map(&input);
    let context = context_map(&input);
    assert_eq!(render_template("no placeholders here $ {x}", &input, &headers, &context), "no placeholders here $ {x}");
    assert!(input.request_headers.is_empty());
    assert_eq!(input.node_config.config_json, None);
}

#[test]
fn upstream_url_drops_the_base_query() {
    let url = build_upstream_url("https://api.example.com/base?old=1#frag", "v1/models", None)
        .expect("base url parses");
    assert_eq!(url.as_str(), "https://api.example.com/v1/models#frag");
}
