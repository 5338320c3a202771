//! Migration of a legacy rule graph: `route_provider` nodes that only feed a
//! provider-less `select_model` node are folded into it, and a configuration
//! that still carries its graph inline gets a workflow index entry for it.
use vstd::prelude::*;

use crate::gateway_config::model::{
    GatewayConfig, RuleGraphConfig, RuleGraphEdge, RuleGraphNode, RuleGraphNodeType,
    RuleGraphNodeView, SelectModelNodeConfig, WorkflowIndexEntry,
};
use crate::text::{cat2, is_blank, is_blank_str, owned, str_eq, trim, trim_seq};

verus! {

/// The edges of `es` that enter node `id`, in order.
pub open spec fn edges_into(es: Seq<RuleGraphEdge>, id: Seq<char>) -> Seq<RuleGraphEdge>
    decreases es.len(),
{
    if es.len() == 0 {
        Seq::empty()
    } else {
        edges_into(es.drop_last(), id) + if es.last().target@ == id {
            seq![es.last()]
        } else {
            Seq::empty()
        }
    }
}

/// The edges of `es` that leave node `id`, in order.
pub open spec fn edges_from(es: Seq<RuleGraphEdge>, id: Seq<char>) -> Seq<RuleGraphEdge>
    decreases es.len(),
{
    if es.len() == 0 {
        Seq::empty()
    } else {
        edges_from(es.drop_last(), id) + if es.last().source@ == id {
            seq![es.last()]
        } else {
            Seq::empty()
        }
    }
}

/// The last node of `ns` named `id`: the one that a map from identifier to
/// node, filled in order, keeps.
pub open spec fn last_node_with_id(ns: Seq<RuleGraphNode>, id: Seq<char>) -> Option<RuleGraphNode>
    decreases ns.len(),
{
    if ns.len() == 0 {
        None
    } else if ns.last().id@ == id {
        Some(ns.last())
    } else {
        last_node_with_id(ns.drop_last(), id)
    }
}

/// The route that a provider-less `select_model` node `n` of graph `g`
/// absorbs: its single incoming edge, the `route_provider` node that edge
/// leaves (whose only outgoing edge is that one), and that node's provider.
pub open spec fn legacy_route(g: RuleGraphConfig, n: RuleGraphNode) -> Option<
    (RuleGraphEdge, RuleGraphNode, String),
> {
    if n.node_type != RuleGraphNodeType::SelectModel {
        None
    } else {
        match n.select_model {
            None => None,
            Some(sm) => if !is_blank(sm.provider_id@) {
                None
            } else {
                let incoming = edges_into(g.edges@, n.id@);
                if incoming.len() != 1 {
                    None
                } else {
                    let route_edge = incoming[0];
                    match last_node_with_id(g.nodes@, route_edge.source@) {
                        None => None,
                        Some(route_node) => if route_node.node_type
                            != RuleGraphNodeType::RouteProvider {
                            None
                        } else {
                            match route_node.route_provider {
                                None => None,
                                Some(rc) => {
                                    let outgoing = edges_from(g.edges@, route_node.id@);
                                    if outgoing.len() != 1 || outgoing[0].target@ != n.id@ {
                                        None
                                    } else {
                                        Some((route_edge, route_node, rc.provider_id))
                                    }
                                },
                            }
                        },
                    }
                }
            },
        }
    }
}

/// Edge `e` with the end at `route_id` moved to `node_id`.
pub open spec fn redirect_edge(e: RuleGraphEdge, route_id: Seq<char>, node_id: String) -> RuleGraphEdge {
    if e.target@ == route_id {
        RuleGraphEdge { target: node_id, ..e }
    } else if e.source@ == route_id {
        RuleGraphEdge { source: node_id, ..e }
    } else {
        e
    }
}

/// The edges `es` without those named `drop_id`, the others redirected from
/// `route_id` to `node_id`.
pub open spec fn rewrite_edges(
    es: Seq<RuleGraphEdge>,
    drop_id: Seq<char>,
    route_id: Seq<char>,
    node_id: String,
) -> Seq<RuleGraphEdge>
    decreases es.len(),
{
    if es.len() == 0 {
        Seq::empty()
    } else {
        rewrite_edges(es.drop_last(), drop_id, route_id, node_id) + if es.last().id@ == drop_id {
            Seq::empty()
        } else {
            seq![redirect_edge(es.last(), route_id, node_id)]
        }
    }
}

/// Node `n` selecting its model from `provider`.
pub open spec fn with_provider(n: RuleGraphNodeView, provider: String) -> RuleGraphNodeView {
    RuleGraphNodeView {
        select_model: Some(
            SelectModelNodeConfig { provider_id: provider, model_id: n.select_model->0.model_id },
        ),
        ..n
    }
}

/// The progress of the migration over a prefix of the nodes: the absorbed
/// route nodes, the updated `select_model` nodes, and the rewritten edges.
pub struct LegacyFold {
    pub removed: Seq<Seq<char>>,
    pub updated: Seq<RuleGraphNodeView>,
    pub edges: Seq<RuleGraphEdge>,
}

/// The migration after the first `k` nodes of `g`.
pub open spec fn legacy_fold(g: RuleGraphConfig, k: nat) -> LegacyFold
    decreases k,
{
    if k == 0 {
        LegacyFold { removed: Seq::empty(), updated: Seq::empty(), edges: g.edges@ }
    } else {
        let prev = legacy_fold(g, (k - 1) as nat);
        let n = g.nodes@[k - 1];
        match legacy_route(g, n) {
            None => prev,
            Some((route_edge, route_node, provider)) => LegacyFold {
                removed: prev.removed.push(route_node.id@),
                updated: prev.updated.push(with_provider(n@, provider)),
                edges: rewrite_edges(prev.edges, route_edge.id@, route_node.id@, n.id),
            },
        }
    }
}

/// The last updated node named `id`.
pub open spec fn last_updated_with_id(us: Seq<RuleGraphNodeView>, id: Seq<char>) -> Option<RuleGraphNodeView>
    decreases us.len(),
{
    if us.len() == 0 {
        None
    } else if us.last().id@ == id {
        Some(us.last())
    } else {
        last_updated_with_id(us.drop_last(), id)
    }
}

/// The nodes `ns` without the absorbed route nodes, each replaced by the
/// last updated node of the same name when there is one.
pub open spec fn kept_nodes(
    ns: Seq<RuleGraphNode>,
    removed: Seq<Seq<char>>,
    updated: Seq<RuleGraphNodeView>,
) -> Seq<RuleGraphNodeView>
    decreases ns.len(),
{
    if ns.len() == 0 {
        Seq::empty()
    } else {
        kept_nodes(ns.drop_last(), removed, updated) + if removed.contains(ns.last().id@) {
            Seq::empty()
        } else {
            seq![
                match last_updated_with_id(updated, ns.last().id@) {
                    Some(u) => u,
                    None => ns.last()@,
                },
            ]
        }
    }
}

/// The edges `es` that touch no absorbed route node.
pub open spec fn kept_edges(es: Seq<RuleGraphEdge>, removed: Seq<Seq<char>>) -> Seq<RuleGraphEdge>
    decreases es.len(),
{
    if es.len() == 0 {
        Seq::empty()
    } else {
        kept_edges(es.drop_last(), removed) + if removed.contains(es.last().source@)
            || removed.contains(es.last().target@) {
            Seq::empty()
        } else {
            seq![es.last()]
        }
    }
}

fn edges_into_vec(es: &Vec<RuleGraphEdge>, id: &str) -> (r: Vec<RuleGraphEdge>)
    ensures
        r@ == edges_into(es@, id@),
{
    let mut r: Vec<RuleGraphEdge> = Vec::new();
    let mut i: usize = 0;
    while i < es.len()
        invariant
            i <= es@.len(),
            r@ == edges_into(es@.subrange(0, i as int), id@),
        decreases es@.len() - i,
    {
        assert(es@.subrange(0, i + 1).drop_last() =~= es@.subrange(0, i as int));
        if str_eq(es[i].target.as_str(), id) {
            r.push(es[i].duplicate());
        }
        i = i + 1;
    }
    assert(es@.subrange(0, i as int) =~= es@);
    r
}

fn edges_from_vec(es: &Vec<RuleGraphEdge>, id: &str) -> (r: Vec<RuleGraphEdge>)
    ensures
        r@ == edges_from(es@, id@),
{
    let mut r: Vec<RuleGraphEdge> = Vec::new();
    let mut i: usize = 0;
    while i < es.len()
        invariant
            i <= es@.len(),
            r@ == edges_from(es@.subrange(0, i as int), id@),
        decreases es@.len() - i,
    {
        assert(es@.subrange(0, i + 1).drop_last() =~= es@.subrange(0, i as int));
        if str_eq(es[i].source.as_str(), id) {
            r.push(es[i].duplicate());
        }
        i = i + 1;
    }
    assert(es@.subrange(0, i as int) =~= es@);
    r
}

fn find_last_node(ns: &Vec<RuleGraphNode>, id: &str) -> (r: Option<usize>)
    ensures
        match r {
            Some(k) => k < ns@.len() && last_node_with_id(ns@, id@) == Some(ns@[k as int]),
            None => last_node_with_id(ns@, id@) is None,
        },
{
    let mut i: usize = ns.len();
    assert(ns@.subrange(0, i as int) =~= ns@);
    while i > 0
        invariant
            i <= ns@.len(),
            last_node_with_id(ns@, id@) == last_node_with_id(ns@.subrange(0, i as int), id@),
        decreases i,
    {
        assert(ns@.subrange(0, i as int).drop_last() =~= ns@.subrange(0, i - 1));
        if str_eq(ns[i - 1].id.as_str(), id) {
            return Some(i - 1);
        }
        i = i - 1;
    }
    None
}

/// The route that node `n` of graph `g` absorbs (see `legacy_route`): the
/// route edge, the index of the route node, and the provider.
fn route_for(g: &RuleGraphConfig, n: &RuleGraphNode) -> (r: Option<(RuleGraphEdge, usize, String)>)
    ensures
        match r {
            Some((e, k, p)) => k < g.nodes@.len() && legacy_route(*g, *n) == Some(
                (e, g.nodes@[k as int], p),
            ),
            None => legacy_route(*g, *n) is None,
        },
{
    match n.node_type {
        RuleGraphNodeType::SelectModel => {},
        _ => {
            return None;
        },
    }
    let sm = match &n.select_model {
        Some(sm) => sm,
        None => {
            return None;
        },
    };
    if !is_blank_str(sm.provider_id.as_str()) {
        return None;
    }
    let incoming = edges_into_vec(&g.edges, n.id.as_str());
    if incoming.len() != 1 {
        return None;
    }
    let route_edge = incoming[0].duplicate();
    let k = match find_last_node(&g.nodes, route_edge.source.as_str()) {
        Some(k) => k,
        None => {
            return None;
        },
    };
    let route_node = &g.nodes[k];
    match route_node.node_type {
        RuleGraphNodeType::RouteProvider => {},
        _ => {
            return None;
        },
    }
    let rc = match &route_node.route_provider {
        Some(rc) => rc,
        None => {
            return None;
        },
    };
    let outgoing = edges_from_vec(&g.edges, route_node.id.as_str());
    if outgoing.len() != 1 || !str_eq(outgoing[0].target.as_str(), n.id.as_str()) {
        return None;
    }
    Some((route_edge, k, rc.provider_id.clone()))
}

fn redirect_edge_exec(e: &RuleGraphEdge, route_id: &str, node_id: &String) -> (r: RuleGraphEdge)
    ensures
        r == redirect_edge(*e, route_id@, *node_id),
{
    if str_eq(e.target.as_str(), route_id) {
        RuleGraphEdge {
            id: e.id.clone(),
            source: e.source.clone(),
            target: node_id.clone(),
            source_handle: crate::gateway_config::model::clone_opt_string(&e.source_handle),
        }
    } else if str_eq(e.source.as_str(), route_id) {
        RuleGraphEdge {
            id: e.id.clone(),
            source: node_id.clone(),
            target: e.target.clone(),
            source_handle: crate::gateway_config::model::clone_opt_string(&e.source_handle),
        }
    } else {
        e.duplicate()
    }
}

fn rewrite_edges_exec(
    es: &Vec<RuleGraphEdge>,
    drop_id: &str,
    route_id: &str,
    node_id: &String,
) -> (r: Vec<RuleGraphEdge>)
    ensures
        r@ == rewrite_edges(es@, drop_id@, route_id@, *node_id),
{
    let mut r: Vec<RuleGraphEdge> = Vec::new();
    let mut i: usize = 0;
    while i < es.len()
        invariant
            i <= es@.len(),
            r@ == rewrite_edges(es@.subrange(0, i as int), drop_id@, route_id@, *node_id),
        decreases es@.len() - i,
    {
        assert(es@.subrange(0, i + 1).drop_last() =~= es@.subrange(0, i as int));
        if !str_eq(es[i].id.as_str(), drop_id) {
            r.push(redirect_edge_exec(&es[i], route_id, node_id));
        }
        i = i + 1;
    }
    assert(es@.subrange(0, i as int) =~= es@);
    r
}

/// The names in `v`, as character sequences.
pub open spec fn string_views(v: Seq<String>) -> Seq<Seq<char>> {
    v.map_values(|s: String| s@)
}

fn contains_string(v: &Vec<String>, id: &str) -> (r: bool)
    ensures
        r == string_views(v@).contains(id@),
{
    let mut i: usize = 0;
    while i < v.len()
        invariant
            i <= v@.len(),
            forall|j: int| 0 <= j < i ==> #[trigger] v@[j]@ != id@,
        decreases v@.len() - i,
    {
        if str_eq(v[i].as_str(), id) {
            assert(string_views(v@)[i as int] == id@);
            return true;
        }
        i = i + 1;
    }
    proof {
        if string_views(v@).contains(id@) {
            let j = choose|j: int| 0 <= j < v@.len() && string_views(v@)[j] == id@;
            assert(v@[j]@ == id@);
        }
    }
    false
}

/// The views of the nodes `ns`.
pub open spec fn node_views(ns: Seq<RuleGraphNode>) -> Seq<RuleGraphNodeView> {
    ns.map_values(|n: RuleGraphNode| n@)
}

fn plan_legacy_migration(g: &RuleGraphConfig) -> (r: (Vec<String>, Vec<RuleGraphNode>, Vec<RuleGraphEdge>))
    ensures
        string_views(r.0@) == legacy_fold(*g, g.nodes@.len()).removed,
        node_views(r.1@) == legacy_fold(*g, g.nodes@.len()).updated,
        r.2@ == legacy_fold(*g, g.nodes@.len()).edges,
{
    let mut removed: Vec<String> = Vec::new();
    let mut updated: Vec<RuleGraphNode> = Vec::new();
    let mut edges: Vec<RuleGraphEdge> = Vec::new();
    let mut k: usize = 0;
    while k < g.edges.len()
        invariant
            k <= g.edges@.len(),
            edges@ == g.edges@.subrange(0, k as int),
        decreases g.edges@.len() - k,
    {
        edges.push(g.edges[k].duplicate());
        k = k + 1;
        assert(edges@ =~= g.edges@.subrange(0, k as int));
    }
    assert(edges@ =~= g.edges@);
    assert(string_views(removed@) =~= Seq::<Seq<char>>::empty());
    assert(node_views(updated@) =~= Seq::<RuleGraphNodeView>::empty());
    let mut i: usize = 0;
    while i < g.nodes.len()
        invariant
            i <= g.nodes@.len(),
            string_views(removed@) == legacy_fold(*g, i as nat).removed,
            node_views(updated@) == legacy_fold(*g, i as nat).updated,
            edges@ == legacy_fold(*g, i as nat).edges,
        decreases g.nodes@.len() - i,
    {
        let node = &g.nodes[i];
        match route_for(g, node) {
            None => {},
            Some((route_edge, rk, provider)) => {
                let route_node = &g.nodes[rk];
                let ghost old_removed = removed@;
                let ghost old_updated = updated@;
                removed.push(route_node.id.clone());
                assert(string_views(removed@) =~= string_views(old_removed).push(route_node.id@));
                let mut n2 = node.duplicate();
                n2.select_model = Some(
                    SelectModelNodeConfig {
                        provider_id: provider,
                        model_id: match &node.select_model {
                            Some(sm) => sm.model_id.clone(),
                            None => String::new(),
                        },
                    },
                );
                assert(n2@ == with_provider(node@, n2.select_model->0.provider_id));
                updated.push(n2);
                assert(node_views(updated@) =~= node_views(old_updated).push(n2@));
                edges = rewrite_edges_exec(&edges, route_edge.id.as_str(), route_node.id.as_str(), &node.id);
            },
        }
        i = i + 1;
    }
    (removed, updated, edges)
}

fn find_last_updated(us: &Vec<RuleGraphNode>, id: &str) -> (r: Option<usize>)
    ensures
        match r {
            Some(k) => k < us@.len() && last_updated_with_id(node_views(us@), id@) == Some(
                us@[k as int]@,
            ),
            None => last_updated_with_id(node_views(us@), id@) is None,
        },
{
    let mut i: usize = us.len();
    assert(node_views(us@).subrange(0, i as int) =~= node_views(us@));
    while i > 0
        invariant
            i <= us@.len(),
            last_updated_with_id(node_views(us@), id@) == last_updated_with_id(
                node_views(us@).subrange(0, i as int),
                id@,
            ),
        decreases i,
    {
        assert(node_views(us@).subrange(0, i as int).drop_last() =~= node_views(us@).subrange(
            0,
            i - 1,
        ));
        if str_eq(us[i - 1].id.as_str(), id) {
            return Some(i - 1);
        }
        i = i - 1;
    }
    None
}

fn keep_nodes(
    ns: &Vec<RuleGraphNode>,
    removed: &Vec<String>,
    updated: &Vec<RuleGraphNode>,
) -> (r: Vec<RuleGraphNode>)
    ensures
        node_views(r@) == kept_nodes(ns@, string_views(removed@), node_views(updated@)),
{
    let mut r: Vec<RuleGraphNode> = Vec::new();
    let mut i: usize = 0;
    while i < ns.len()
        invariant
            i <= ns@.len(),
            node_views(r@) == kept_nodes(
                ns@.subrange(0, i as int),
                string_views(removed@),
                node_views(updated@),
            ),
        decreases ns@.len() - i,
    {
        assert(ns@.subrange(0, i + 1).drop_last() =~= ns@.subrange(0, i as int));
        let n = &ns[i];
        if !contains_string(removed, n.id.as_str()) {
            let ghost old_r = r@;
            let kept = match find_last_updated(updated, n.id.as_str()) {
                Some(k) => updated[k].duplicate(),
                None => n.duplicate(),
            };
            r.push(kept);
            assert(node_views(r@) =~= node_views(old_r).push(kept@));
        }
        i = i + 1;
    }
    assert(ns@.subrange(0, i as int) =~= ns@);
    r
}

fn keep_edges(es: &Vec<RuleGraphEdge>, removed: &Vec<String>) -> (r: Vec<RuleGraphEdge>)
    ensures
        r@ == kept_edges(es@, string_views(removed@)),
{
    let mut r: Vec<RuleGraphEdge> = Vec::new();
    let mut i: usize = 0;
    while i < es.len()
        invariant
            i <= es@.len(),
            r@ == kept_edges(es@.subrange(0, i as int), string_views(removed@)),
        decreases es@.len() - i,
    {
        assert(es@.subrange(0, i + 1).drop_last() =~= es@.subrange(0, i as int));
        let e = &es[i];
        if !contains_string(removed, e.source.as_str()) && !contains_string(
            removed,
            e.target.as_str(),
        ) {
            r.push(e.duplicate());
        }
        i = i + 1;
    }
    assert(es@.subrange(0, i as int) =~= es@);
    r
}

/// The rule graph `g` after the migration: absorbed route nodes and the edges
/// touching them are gone, and the absorbing nodes name the provider.
pub open spec fn migrated_graph_holds(out: RuleGraphConfig, g: RuleGraphConfig) -> bool {
    let f = legacy_fold(g, g.nodes@.len());
    &&& out.version == g.version
    &&& out.start_node_id == g.start_node_id
    &&& if f.removed.len() == 0 {
        &&& node_views(out.nodes@) == node_views(g.nodes@)
        &&& out.edges@ == g.edges@
    } else {
        &&& node_views(out.nodes@) == kept_nodes(g.nodes@, f.removed, f.updated)
        &&& out.edges@ == kept_edges(f.edges, f.removed)
    }
}

/// Migrates the legacy rule graph `g` (see `migrated_graph_holds`).
pub fn migrate_rule_graph(g: RuleGraphConfig) -> (out: RuleGraphConfig)
    ensures
        migrated_graph_holds(out, g),
{
    let (removed, updated, edges) = plan_legacy_migration(&g);
    if removed.len() == 0 {
        return g;
    }
    let nodes = keep_nodes(&g.nodes, &removed, &updated);
    let kept = keep_edges(&edges, &removed);
    RuleGraphConfig { version: g.version, start_node_id: g.start_node_id, nodes, edges: kept }
}

/// The characters of an optional string.
pub open spec fn opt_view(o: Option<String>) -> Option<Seq<char>> {
    match o {
        Some(s) => Some(s@),
        None => None,
    }
}

/// The name given to a workflow synthesized for a legacy graph.
pub open spec fn synthesized_workflow_name(id: Seq<char>) -> Seq<char> {
    if id == "default"@ {
        "Default Workflow"@
    } else {
        "Workflow "@ + id
    }
}

/// Whether the configuration still carries its graph inline and indexes no
/// workflow, so that one is synthesized for it.
pub open spec fn needs_synthesized_workflow(config: GatewayConfig) -> bool {
    config.rule_graph is Some && config.workflows@.len() == 0
}

/// The identifier of the synthesized workflow: the active one, or `default`.
pub open spec fn synthesized_workflow_id(config: GatewayConfig) -> Seq<char> {
    match config.active_workflow_id {
        Some(a) => a@,
        None => "default"@,
    }
}

/// What `normalize_legacy_rule_graph` makes of `config`: the graph migrated
/// (see `migrated_graph_holds`), a workflow index entry synthesized for an
/// inline graph that has none, and the workflow directory and files trimmed;
/// everything else unchanged.
pub open spec fn normalized_config_holds(out: GatewayConfig, config: GatewayConfig) -> bool {
    let synth = needs_synthesized_workflow(config);
    let sid = synthesized_workflow_id(config);
    &&& out.listen == config.listen
    &&& out.admin_listen == config.admin_listen
    &&& out.default_secret_env == config.default_secret_env
    &&& out.providers == config.providers
    &&& out.models == config.models
    &&& out.routes == config.routes
    &&& out.header_rules == config.header_rules
    &&& match config.rule_graph {
        None => out.rule_graph is None,
        Some(g) => match out.rule_graph {
            Some(o) => migrated_graph_holds(o, g),
            None => false,
        },
    }
    &&& opt_view(out.workflows_dir) == if synth {
        match config.workflows_dir {
            Some(d) => Some(trim_seq(d@)),
            None => Some(trim_seq("workflows"@)),
        }
    } else {
        match config.workflows_dir {
            Some(d) => Some(trim_seq(d@)),
            None => None,
        }
    }
    &&& opt_view(out.active_workflow_id) == if synth {
        Some(sid)
    } else {
        opt_view(config.active_workflow_id)
    }
    &&& if synth {
        &&& out.workflows@.len() == 1
        &&& out.workflows@[0].id@ == sid
        &&& out.workflows@[0].name@ == synthesized_workflow_name(sid)
        &&& out.workflows@[0].file@ == trim_seq(sid + ".toml"@)
        &&& opt_view(out.workflows@[0].description) == Some("Migrated from legacy rule_graph"@)
    } else {
        &&& out.workflows@.len() == config.workflows@.len()
        &&& forall|i: int|
            0 <= i < config.workflows@.len() ==> {
                &&& (#[trigger] out.workflows@[i]).id == config.workflows@[i].id
                &&& out.workflows@[i].name == config.workflows@[i].name
                &&& out.workflows@[i].description == config.workflows@[i].description
                &&& out.workflows@[i].file@ == trim_seq(config.workflows@[i].file@)
            }
    }
}

fn trimmed_entries(ws: Vec<WorkflowIndexEntry>) -> (r: Vec<WorkflowIndexEntry>)
    ensures
        r@.len() == ws@.len(),
        forall|i: int|
            0 <= i < ws@.len() ==> {
                &&& (#[trigger] r@[i]).id == ws@[i].id
                &&& r@[i].name == ws@[i].name
                &&& r@[i].description == ws@[i].description
                &&& r@[i].file@ == trim_seq(ws@[i].file@)
            },
{
    let mut r: Vec<WorkflowIndexEntry> = Vec::new();
    let mut i: usize = 0;
    while i < ws.len()
        invariant
            i <= ws@.len(),
            r@.len() == i,
            forall|j: int|
                0 <= j < i ==> {
                    &&& (#[trigger] r@[j]).id == ws@[j].id
                    &&& r@[j].name == ws@[j].name
                    &&& r@[j].description == ws@[j].description
                    &&& r@[j].file@ == trim_seq(ws@[j].file@)
                },
        decreases ws@.len() - i,
    {
        let w = &ws[i];
        r.push(
            WorkflowIndexEntry {
                id: w.id.clone(),
                name: w.name.clone(),
                file: owned(trim(w.file.as_str())),
                description: crate::gateway_config::model::clone_opt_string(&w.description),
            },
        );
        i = i + 1;
    }
    r
}

/// Migrates a legacy configuration: folds `route_provider` nodes that only
/// feed a provider-less `select_model` node into it, gives an inline rule
/// graph without a workflow index an entry of its own, and trims the workflow
/// directory and files (see `normalized_config_holds`).
pub fn normalize_legacy_rule_graph(config: GatewayConfig) -> (out: GatewayConfig)
    ensures
        normalized_config_holds(out, config),
{
    let ghost input = config;
    let GatewayConfig {
        listen,
        admin_listen,
        default_secret_env,
        providers,
        models,
        routes,
        header_rules,
        rule_graph,
        workflows_dir,
        active_workflow_id,
        workflows,
    } = config;
    let synth = rule_graph.is_some() && workflows.len() == 0;
    let rule_graph = match rule_graph {
        Some(g) => Some(migrate_rule_graph(g)),
        None => None,
    };
    let (workflows_dir, active_workflow_id, workflows) = if synth {
        let sid = match &active_workflow_id {
            Some(a) => a.clone(),
            None => owned("default"),
        };
        let dir = match workflows_dir {
            Some(d) => d,
            None => owned("workflows"),
        };
        let name = if str_eq(sid.as_str(), "default") {
            owned("Default Workflow")
        } else {
            cat2("Workflow ", sid.as_str())
        };
        let file = cat2(sid.as_str(), ".toml");
        let entry = WorkflowIndexEntry {
            id: sid.clone(),
            name,
            file: owned(trim(file.as_str())),
            description: Some(owned("Migrated from legacy rule_graph")),
        };
        let mut ws: Vec<WorkflowIndexEntry> = Vec::new();
        ws.push(entry);
        let active = match active_workflow_id {
            Some(a) => a,
            None => sid,
        };
        (Some(owned(trim(dir.as_str()))), Some(active), ws)
    } else {
        let dir = match workflows_dir {
            Some(d) => Some(owned(trim(d.as_str()))),
            None => None,
        };
        (dir, active_workflow_id, trimmed_entries(workflows))
    };
    GatewayConfig {
        listen,
        admin_listen,
        default_secret_env,
        providers,
        models,
        routes,
        header_rules,
        rule_graph,
        workflows_dir,
        active_workflow_id,
        workflows,
    }
}

/// Whether the workflow index of `config` is exactly the one synthesized for
/// an inline legacy graph.
pub open spec fn is_synthesized_legacy_index(config: GatewayConfig) -> bool {
    &&& config.rule_graph is Some
    &&& config.workflows@.len() == 1
    &&& config.workflows_dir matches Some(d) && d@ == "workflows"@
    &&& config.active_workflow_id matches Some(a) && {
        let w = config.workflows@[0];
        &&& w.id@ == a@
        &&& w.name@ == synthesized_workflow_name(a@)
        &&& w.file@ == a@ + ".toml"@
        &&& opt_view(w.description) == Some("Migrated from legacy rule_graph"@)
    }
}

/// Whether the workflow index of `config` is the one synthesized for an
/// inline legacy graph (so that a missing workflow file may fall back to the
/// inline graph).
pub fn uses_synthesized_legacy_workflow_index(config: &GatewayConfig) -> (r: bool)
    ensures
        r == is_synthesized_legacy_index(*config),
{
    if config.rule_graph.is_none() || config.workflows.len() != 1 {
        return false;
    }
    let dir = match &config.workflows_dir {
        Some(d) => d,
        None => {
            return false;
        },
    };
    let active = match &config.active_workflow_id {
        Some(a) => a,
        None => {
            return false;
        },
    };
    let w = &config.workflows[0];
    let expected_name = if str_eq(active.as_str(), "default") {
        owned("Default Workflow")
    } else {
        cat2("Workflow ", active.as_str())
    };
    let expected_file = cat2(active.as_str(), ".toml");
    let description_ok = match &w.description {
        Some(d) => str_eq(d.as_str(), "Migrated from legacy rule_graph"),
        None => false,
    };
    str_eq(dir.as_str(), "workflows") && str_eq(w.id.as_str(), active.as_str()) && str_eq(
        w.name.as_str(),
        expected_name.as_str(),
    ) && str_eq(w.file.as_str(), expected_file.as_str()) && description_ok
}

} // verus!
