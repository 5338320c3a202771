//! What every configuration that the checks accept guarantees.
use vstd::prelude::*;
use crate::checks::{lemma_first_error_none};
use crate::config_acl::graph_acl::{edge_check, graph_structure_error, node_check, rule_graph_error, start_node_count, start_node_error};
use crate::config_acl::ids::{edge_ids_view, header_rule_ids_view, model_ids_view, node_ids_view, provider_ids_view, route_ids_view};
use crate::config_acl::raw_model::{
    RawGatewayConfig, RawRuleGraphConfig, RawRuleGraphNodeType, RawRuleScope, RawWasmCapability,
    RawWasmPluginNodeConfig,
};
use crate::config_acl::util::has_parent_segment;
use crate::config_acl::wasm_plugin_acl::{wasm_path_check, wasm_plugin_error, wasm_scopes_error};
use crate::config_acl::route_acl::{header_rule_check, route_and_header_rule_error, route_check};
use crate::config_acl::util::{ids_unique, lemma_unique_ids_error_none, opt_is};
use crate::config_acl::workflow_acl::{active_workflow_error, workflow_file_check, workflow_index_error};
use crate::config_acl::gateway_config_error;
use crate::text::is_blank;

verus! {

/// The workflow index of an accepted configuration: every indexed workflow
/// names a non-blank file, no two name the same file, and when workflows
/// are indexed the active workflow is one of them.
pub proof fn lemma_accepted_workflow_index(raw: RawGatewayConfig)
    requires
        gateway_config_error(raw) is None,
    ensures
        forall|i: int|
            0 <= i < raw.workflows@.len() ==> ((#[trigger] raw.workflows@[i]).file matches Some(f)
                && !is_blank(f@)),
        forall|i: int, j: int|
            0 <= i < j < raw.workflows@.len() ==> (#[trigger] raw.workflows@[i]).file->0@
                != (#[trigger] raw.workflows@[j]).file->0@,
        raw.workflows@.len() > 0 ==> (raw.active_workflow_id matches Some(a) && exists|i: int|
            0 <= i < raw.workflows@.len() && (#[trigger] raw.workflows@[i]).id@ == a@),
{
    let ws = raw.workflows@;
    let check = workflow_file_check(ws);
    assert(workflow_index_error(raw) is None);
    lemma_first_error_none(ws.len(), check);
    assert forall|i: int| 0 <= i < ws.len() implies ((#[trigger] ws[i]).file matches Some(f)
        && !is_blank(f@)) by {
        assert(check(i) is None);
    }
    assert forall|i: int, j: int| 0 <= i < j < ws.len() implies (#[trigger] ws[i]).file->0@
        != (#[trigger] ws[j]).file->0@ by {
        assert(check(j) is None);
        assert(check(i) is None);
        if ws[i].file->0@ == ws[j].file->0@ {
            assert(opt_is(ws[i].file, ws[j].file->0@));
        }
    }
    assert(active_workflow_error(raw) is None);
}

/// The routes and header rules of an accepted configuration: their ids are
/// non-blank and pairwise distinct; every route has a non-blank matcher and
/// names a declared provider and, if any, a declared model; every header
/// rule has an action, and a scoped rule names a declared target of its
/// scope while a global one names none.
pub proof fn lemma_accepted_routes_and_header_rules(raw: RawGatewayConfig)
    requires
        gateway_config_error(raw) is None,
    ensures
        ids_unique(route_ids_view(raw.routes@)),
        ids_unique(header_rule_ids_view(raw.header_rules@)),
        forall|i: int|
            0 <= i < raw.routes@.len() ==> {
                let r = #[trigger] raw.routes@[i];
                &&& !is_blank(r.matcher@)
                &&& provider_ids_view(raw.providers@).contains(r.provider_id@)
                &&& (r.model_id is Some ==> model_ids_view(raw.models@).contains(r.model_id->0@))
            },
        forall|i: int|
            0 <= i < raw.header_rules@.len() ==> {
                let h = #[trigger] raw.header_rules@[i];
                &&& h.actions@.len() > 0
                &&& match h.scope {
                    RawRuleScope::Global => h.target_id is None,
                    RawRuleScope::Provider => h.target_id matches Some(t) && provider_ids_view(
                        raw.providers@,
                    ).contains(t@),
                    RawRuleScope::Model => h.target_id matches Some(t) && model_ids_view(
                        raw.models@,
                    ).contains(t@),
                    RawRuleScope::Route => h.target_id matches Some(t) && route_ids_view(
                        raw.routes@,
                    ).contains(t@),
                }
            },
{
    assert(workflow_index_error(raw) is None);
    assert(route_and_header_rule_error(raw) is None);
    let providers = provider_ids_view(raw.providers@);
    let models = model_ids_view(raw.models@);
    let routes = route_ids_view(raw.routes@);
    lemma_unique_ids_error_none(routes, "route"@);
    lemma_unique_ids_error_none(header_rule_ids_view(raw.header_rules@), "header_rule"@);
    let rc = route_check(raw.routes@, providers, models);
    let hc = header_rule_check(raw.header_rules@, providers, models, routes);
    lemma_first_error_none(raw.routes@.len(), rc);
    lemma_first_error_none(raw.header_rules@.len(), hc);
    assert forall|i: int| 0 <= i < raw.routes@.len() implies {
        let r = #[trigger] raw.routes@[i];
        &&& !is_blank(r.matcher@)
        &&& providers.contains(r.provider_id@)
        &&& (r.model_id is Some ==> models.contains(r.model_id->0@))
    } by {
        assert(rc(i) is None);
    }
    assert forall|i: int| 0 <= i < raw.header_rules@.len() implies {
        let h = #[trigger] raw.header_rules@[i];
        &&& h.actions@.len() > 0
        &&& match h.scope {
            RawRuleScope::Global => h.target_id is None,
            RawRuleScope::Provider => h.target_id matches Some(t) && providers.contains(t@),
            RawRuleScope::Model => h.target_id matches Some(t) && models.contains(t@),
            RawRuleScope::Route => h.target_id matches Some(t) && routes.contains(t@),
        }
    } by {
        assert(hc(i) is None);
    }
}

/// The rule graph of an accepted configuration: node and edge ids are
/// non-blank and pairwise distinct, the named start node exists and is the
/// only start node, and every edge joins two nodes of the graph.
pub proof fn lemma_accepted_rule_graph(raw: RawGatewayConfig)
    requires
        gateway_config_error(raw) is None,
        raw.rule_graph is Some,
    ensures
        ({
            let g = raw.rule_graph->0;
            &&& ids_unique(node_ids_view(g.nodes@))
            &&& ids_unique(edge_ids_view(g.edges@))
            &&& node_ids_view(g.nodes@).contains(g.start_node_id@)
            &&& start_node_count(g.nodes@) == 1
            &&& forall|i: int|
                0 <= i < g.edges@.len() ==> node_ids_view(g.nodes@).contains(
                    (#[trigger] g.edges@[i]).source@,
                ) && node_ids_view(g.nodes@).contains(g.edges@[i].target@)
        }),
{
    let g = raw.rule_graph->0;
    assert(workflow_index_error(raw) is None);
    assert(route_and_header_rule_error(raw) is None);
    assert(rule_graph_error(raw, g) is None);
    assert(graph_structure_error(g) is None);
    lemma_unique_ids_error_none(node_ids_view(g.nodes@), "rule_graph node"@);
    lemma_unique_ids_error_none(edge_ids_view(g.edges@), "rule_graph edge"@);
    assert(start_node_error(g) is None);
    let ec = edge_check(g);
    lemma_first_error_none(g.edges@.len(), ec);
    assert forall|i: int| 0 <= i < g.edges@.len() implies node_ids_view(g.nodes@).contains(
        (#[trigger] g.edges@[i]).source@,
    ) && node_ids_view(g.nodes@).contains(g.edges@[i].target@) by {
        assert(ec(i) is None);
    }
}

/// The structural conditions of a rule graph: non-blank, pairwise distinct
/// node and edge ids, a non-blank start node id that names a node, exactly
/// one start node, and every edge joining two nodes of the graph.
pub open spec fn graph_structure_holds(g: RawRuleGraphConfig) -> bool {
    &&& ids_unique(node_ids_view(g.nodes@))
    &&& ids_unique(edge_ids_view(g.edges@))
    &&& !is_blank(g.start_node_id@)
    &&& node_ids_view(g.nodes@).contains(g.start_node_id@)
    &&& start_node_count(g.nodes@) == 1
    &&& forall|i: int|
        0 <= i < g.edges@.len() ==> node_ids_view(g.nodes@).contains(
            (#[trigger] g.edges@[i]).source@,
        ) && node_ids_view(g.nodes@).contains(g.edges@[i].target@)
}

/// A rule graph whose nodes are all start nodes or nodes of other kinds
/// (so that no node carries a configuration to check) is accepted exactly
/// when its structural conditions hold.
pub proof fn lemma_plain_rule_graph_accepted(raw: RawGatewayConfig, g: RawRuleGraphConfig)
    requires
        forall|i: int|
            0 <= i < g.nodes@.len() ==> (#[trigger] g.nodes@[i]).node_type
                == RawRuleGraphNodeType::Start || g.nodes@[i].node_type
                == RawRuleGraphNodeType::Other,
    ensures
        rule_graph_error(raw, g) is None <==> graph_structure_holds(g),
{
    let nc = node_check(raw, g);
    lemma_first_error_none(g.nodes@.len(), nc);
    assert forall|i: int| 0 <= i < g.nodes@.len() implies #[trigger] nc(i) is None by {
        assert(g.nodes@[i].node_type == RawRuleGraphNodeType::Start || g.nodes@[i].node_type
            == RawRuleGraphNodeType::Other);
    }
    lemma_unique_ids_error_none(node_ids_view(g.nodes@), "rule_graph node"@);
    lemma_unique_ids_error_none(edge_ids_view(g.edges@), "rule_graph edge"@);
    let ec = edge_check(g);
    lemma_first_error_none(g.edges@.len(), ec);
    if graph_structure_holds(g) {
        assert forall|i: int| 0 <= i < g.edges@.len() implies #[trigger] ec(i) is None by {
            assert(node_ids_view(g.nodes@).contains(g.edges@[i].source@));
        }
        assert(start_node_error(g) is None);
        assert(graph_structure_error(g) is None);
    }
    if rule_graph_error(raw, g) is None {
        assert(graph_structure_error(g) is None);
        assert(start_node_error(g) is None);
        assert forall|i: int| 0 <= i < g.edges@.len() implies node_ids_view(g.nodes@).contains(
            (#[trigger] g.edges@[i]).source@,
        ) && node_ids_view(g.nodes@).contains(g.edges@[i].target@) by {
            assert(ec(i) is None);
        }
    }
}

/// A directory that a wasm plugin may be granted: not blank, not starting
/// at the root, and without a `..` segment.
pub open spec fn wasm_dir_usable(p: Seq<char>) -> bool {
    &&& !is_blank(p)
    &&& !(p.len() > 0 && p[0] == '/')
    &&& !has_parent_segment(p)
}

/// The conditions on a wasm plugin configuration: a plugin id, positive
/// timeout and memory limits, a positive fuel budget when one is set,
/// directories exactly when `fs` is granted and all of them usable, hosts
/// exactly when `network` is granted and none of them blank.
pub open spec fn wasm_plugin_config_holds(c: RawWasmPluginNodeConfig) -> bool {
    &&& !is_blank(c.plugin_id@)
    &&& c.timeout_ms > 0
    &&& c.fuel != Some(0u64)
    &&& c.max_memory_bytes > 0
    &&& (c.granted_capabilities@.contains(RawWasmCapability::Fs) <==> (c.read_dirs@.len() > 0
        || c.write_dirs@.len() > 0))
    &&& forall|i: int| 0 <= i < c.read_dirs@.len() ==> wasm_dir_usable((#[trigger] c.read_dirs@[i])@)
    &&& forall|i: int|
        0 <= i < c.write_dirs@.len() ==> wasm_dir_usable((#[trigger] c.write_dirs@[i])@)
    &&& (c.granted_capabilities@.contains(RawWasmCapability::Network) <==> c.allowed_hosts@.len()
        > 0)
    &&& forall|i: int| 0 <= i < c.allowed_hosts@.len() ==> !is_blank((#[trigger] c.allowed_hosts@[i])@)
}

/// A wasm plugin configuration is accepted exactly when its conditions hold.
pub proof fn lemma_wasm_plugin_config_accepted(node_id: Seq<char>, c: RawWasmPluginNodeConfig)
    ensures
        wasm_plugin_error(node_id, c) is None <==> wasm_plugin_config_holds(c),
{
    let rc = wasm_path_check(node_id, "read_dirs"@, c.read_dirs@);
    let wc = wasm_path_check(node_id, "write_dirs"@, c.write_dirs@);
    lemma_first_error_none(c.read_dirs@.len(), rc);
    lemma_first_error_none(c.write_dirs@.len(), wc);
    if wasm_plugin_config_holds(c) {
        assert forall|i: int| 0 <= i < c.read_dirs@.len() implies #[trigger] rc(i) is None by {
            assert(wasm_dir_usable(c.read_dirs@[i]@));
        }
        assert forall|i: int| 0 <= i < c.write_dirs@.len() implies #[trigger] wc(i) is None by {
            assert(wasm_dir_usable(c.write_dirs@[i]@));
        }
        assert(wasm_scopes_error(node_id, c) is None);
    }
    if wasm_plugin_error(node_id, c) is None {
        assert(wasm_scopes_error(node_id, c) is None);
        assert forall|i: int| 0 <= i < c.read_dirs@.len() implies wasm_dir_usable(
            (#[trigger] c.read_dirs@[i])@,
        ) by {
            assert(rc(i) is None);
        }
        assert forall|i: int| 0 <= i < c.write_dirs@.len() implies wasm_dir_usable(
            (#[trigger] c.write_dirs@[i])@,
        ) by {
            assert(wc(i) is None);
        }
    }
}

} // verus!
