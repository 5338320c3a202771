//! What the legacy migration guarantees.
use vstd::prelude::*;
use crate::gateway_config::legacy::{
    is_synthesized_legacy_index, kept_edges, kept_nodes, last_updated_with_id, legacy_fold,
    migrated_graph_holds, needs_synthesized_workflow, node_views, normalized_config_holds,
    opt_view, synthesized_workflow_id,
};
use crate::gateway_config::model::{
    GatewayConfig, RuleGraphConfig, RuleGraphEdge, RuleGraphNode, RuleGraphNodeView,
};
use crate::text::{is_whitespace_char, lemma_trim_idempotent, lemma_trim_unchanged, trim_seq};

verus! {

/// A configuration with an inline rule graph and no workflow index, whose
/// workflow directory is absent or `workflows` (surrounding whitespace
/// aside), is, once normalised, recognised as carrying the workflow index
/// synthesised for a legacy graph, provided the synthesised workflow's id
/// does not start with whitespace (trimming the file name would drop it).
pub proof fn lemma_synthesized_index_is_recognised(config: GatewayConfig, out: GatewayConfig)
    requires
        normalized_config_holds(out, config),
        needs_synthesized_workflow(config),
        match config.workflows_dir {
            None => true,
            Some(d) => trim_seq(d@) == "workflows"@,
        },
        synthesized_workflow_id(config).len() == 0 || !is_whitespace_char(
            synthesized_workflow_id(config)[0],
        ),
    ensures
        is_synthesized_legacy_index(out),
{
    let sid = synthesized_workflow_id(config);
    reveal_strlit("workflows");
    reveal_strlit(".toml");
    lemma_trim_unchanged("workflows"@);
    let file = sid + ".toml"@;
    assert(file.last() == 'l');
    if sid.len() > 0 {
        assert(file[0] == sid[0]);
    } else {
        assert(file[0] == '.');
    }
    lemma_trim_unchanged(file);
    assert(out.rule_graph is Some);
    match config.workflows_dir {
        Some(d) => assert(opt_view(out.workflows_dir) == Some(trim_seq(d@))),
        None => assert(opt_view(out.workflows_dir) == Some("workflows"@)),
    }
    assert(opt_view(out.active_workflow_id) == Some(sid));
}

proof fn lemma_updated_keeps_id(us: Seq<RuleGraphNodeView>, id: Seq<char>)
    ensures
        last_updated_with_id(us, id) matches Some(u) ==> u.id@ == id,
    decreases us.len(),
{
    if us.len() > 0 && us.last().id@ != id {
        lemma_updated_keeps_id(us.drop_last(), id);
    }
}

proof fn lemma_kept_nodes_not_removed(
    ns: Seq<RuleGraphNode>,
    removed: Seq<Seq<char>>,
    updated: Seq<RuleGraphNodeView>,
)
    ensures
        forall|i: int|
            0 <= i < kept_nodes(ns, removed, updated).len() ==> !removed.contains(
                (#[trigger] kept_nodes(ns, removed, updated)[i]).id@,
            ),
    decreases ns.len(),
{
    if ns.len() > 0 {
        let prev = kept_nodes(ns.drop_last(), removed, updated);
        lemma_kept_nodes_not_removed(ns.drop_last(), removed, updated);
        lemma_updated_keeps_id(updated, ns.last().id@);
        let all = kept_nodes(ns, removed, updated);
        assert forall|i: int| 0 <= i < all.len() implies !removed.contains(
            (#[trigger] all[i]).id@,
        ) by {
            if i < prev.len() {
                assert(all[i] == prev[i]);
            }
        }
    }
}

proof fn lemma_kept_edges_clear(es: Seq<RuleGraphEdge>, removed: Seq<Seq<char>>)
    ensures
        forall|i: int|
            0 <= i < kept_edges(es, removed).len() ==> !removed.contains(
                (#[trigger] kept_edges(es, removed)[i]).source@,
            ) && !removed.contains(kept_edges(es, removed)[i].target@),
    decreases es.len(),
{
    if es.len() > 0 {
        let prev = kept_edges(es.drop_last(), removed);
        lemma_kept_edges_clear(es.drop_last(), removed);
        let all = kept_edges(es, removed);
        assert forall|i: int| 0 <= i < all.len() implies !removed.contains(
            (#[trigger] all[i]).source@,
        ) && !removed.contains(all[i].target@) by {
            if i < prev.len() {
                assert(all[i] == prev[i]);
            }
        }
    }
}

/// After the migration of a rule graph, no absorbed `route_provider` node
/// is left and no edge touches one; a graph with nothing to absorb is left
/// as it was.
pub proof fn lemma_migration_leaves_no_absorbed_route(g: RuleGraphConfig, out: RuleGraphConfig)
    requires
        migrated_graph_holds(out, g),
    ensures
        ({
            let removed = legacy_fold(g, g.nodes@.len()).removed;
            &&& forall|i: int|
                0 <= i < out.nodes@.len() ==> !removed.contains((#[trigger] out.nodes@[i]).id@)
            &&& forall|i: int|
                0 <= i < out.edges@.len() ==> !removed.contains(
                    (#[trigger] out.edges@[i]).source@,
                ) && !removed.contains(out.edges@[i].target@)
            &&& removed.len() == 0 ==> node_views(out.nodes@) == node_views(g.nodes@)
                && out.edges@ == g.edges@
        }),
{
    let f = legacy_fold(g, g.nodes@.len());
    if f.removed.len() > 0 {
        lemma_kept_nodes_not_removed(g.nodes@, f.removed, f.updated);
        lemma_kept_edges_clear(f.edges, f.removed);
        assert forall|i: int| 0 <= i < out.nodes@.len() implies !f.removed.contains(
            (#[trigger] out.nodes@[i]).id@,
        ) by {
            assert(node_views(out.nodes@)[i] == out.nodes@[i]@);
        }
    }
}

/// Normalising a normalised configuration changes nothing in its workflow
/// index: the directory, the active workflow and every entry stay as the
/// first normalisation left them.
pub proof fn lemma_normalized_index_is_stable(
    config: GatewayConfig,
    once: GatewayConfig,
    twice: GatewayConfig,
)
    requires
        normalized_config_holds(once, config),
        normalized_config_holds(twice, once),
    ensures
        opt_view(twice.workflows_dir) == opt_view(once.workflows_dir),
        opt_view(twice.active_workflow_id) == opt_view(once.active_workflow_id),
        twice.workflows@.len() == once.workflows@.len(),
        forall|i: int|
            0 <= i < once.workflows@.len() ==> {
                &&& (#[trigger] twice.workflows@[i]).id == once.workflows@[i].id
                &&& twice.workflows@[i].name == once.workflows@[i].name
                &&& twice.workflows@[i].description == once.workflows@[i].description
                &&& twice.workflows@[i].file@ == once.workflows@[i].file@
            },
{
    assert(!needs_synthesized_workflow(once));
    if let Some(d) = config.workflows_dir {
        lemma_trim_idempotent(d@);
    } else {
        lemma_trim_idempotent("workflows"@);
    }
    if needs_synthesized_workflow(config) {
        lemma_trim_idempotent(synthesized_workflow_id(config) + ".toml"@);
    } else {
        assert forall|i: int| 0 <= i < once.workflows@.len() implies trim_seq(
            once.workflows@[i].file@,
        ) == once.workflows@[i].file@ by {
            lemma_trim_idempotent(config.workflows@[i].file@);
        }
    }
}

} // verus!
