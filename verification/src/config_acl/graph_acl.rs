//! Checks of the rule graph of a raw gateway configuration: identifiers, the
//! start node, edges, and each node's configuration.
use vstd::prelude::*;

use crate::checks::{first_error, lemma_first_error_prefix, lemma_first_error_step, or_else};
use crate::config_acl::error::{acl_outcome, validation_error, InfrastructureAclError};
use crate::config_acl::ids::{
    edge_ids, edge_ids_view, model_ids, model_ids_view, node_ids, node_ids_view, provider_ids,
    provider_ids_view,
};
use crate::config_acl::raw_model::{
    RawCodeRunnerNodeConfig, RawConditionMode, RawConditionNodeConfig, RawGatewayConfig,
    RawMatchNodeConfig, RawModel, RawRouterClause, RawRouterNodeConfig, RawRuleGraphConfig, RawRuleGraphEdge,
    RawRuleGraphNode, RawRuleGraphNodeType,
};
use crate::config_acl::util::{
    contains_str, contains_str_before, strs_view, unique_ids, unique_ids_error,
};
use crate::config_acl::wasm_plugin_acl::{validate_wasm_plugin_config, wasm_plugin_error};
use crate::text::{cat2, cat3, cat5, cat7, decimal, is_blank, is_blank_str, str_eq, usize_to_decimal};

verus! {

/// The number of start nodes among `ns`.
pub open spec fn start_node_count(ns: Seq<RawRuleGraphNode>) -> nat
    decreases ns.len(),
{
    if ns.len() == 0 {
        0
    } else {
        start_node_count(ns.drop_last()) + if ns.last().node_type == RawRuleGraphNodeType::Start {
            1nat
        } else {
            0nat
        }
    }
}

/// The number of edges among `es` that leave node `id`.
pub open spec fn outgoing_count(es: Seq<RawRuleGraphEdge>, id: Seq<char>) -> nat
    decreases es.len(),
{
    if es.len() == 0 {
        0
    } else {
        outgoing_count(es.drop_last(), id) + if es.last().source@ == id {
            1nat
        } else {
            0nat
        }
    }
}

/// The error of the start node: named, present, and the only start node.
pub open spec fn start_node_error(g: RawRuleGraphConfig) -> Option<Seq<char>> {
    if is_blank(g.start_node_id@) {
        Some("rule_graph start_node_id cannot be empty"@)
    } else if !node_ids_view(g.nodes@).contains(g.start_node_id@) {
        Some("rule_graph start node '"@ + g.start_node_id@ + "' does not exist"@)
    } else if start_node_count(g.nodes@) != 1 {
        Some("rule_graph requires exactly one start node, found "@ + decimal(start_node_count(g.nodes@)))
    } else {
        None
    }
}

/// The check of the `i`-th edge: both ends are nodes of the graph.
pub open spec fn edge_check(g: RawRuleGraphConfig) -> spec_fn(int) -> Option<Seq<char>> {
    |i: int|
        {
            let e = g.edges@[i];
            if !node_ids_view(g.nodes@).contains(e.source@) {
                Some("rule_graph edge '"@ + e.id@ + "' missing source '"@ + e.source@ + "'"@)
            } else if !node_ids_view(g.nodes@).contains(e.target@) {
                Some("rule_graph edge '"@ + e.id@ + "' missing target '"@ + e.target@ + "'"@)
            } else {
                None
            }
        }
}

/// The first structural error of the graph: node and edge identifiers, the
/// start node, then the edges.
pub open spec fn graph_structure_error(g: RawRuleGraphConfig) -> Option<Seq<char>> {
    or_else(
        unique_ids_error(node_ids_view(g.nodes@), "rule_graph node"@),
        or_else(
            unique_ids_error(edge_ids_view(g.edges@), "rule_graph edge"@),
            or_else(start_node_error(g), first_error(g.edges@.len(), edge_check(g))),
        ),
    )
}

/// A node reference that names a node of the graph.
pub open spec fn is_target(g: RawRuleGraphConfig, id: Seq<char>) -> bool {
    !is_blank(id) && node_ids_view(g.nodes@).contains(id)
}

/// The error of an optional fallback target of node `node_id`.
pub open spec fn fallback_error(g: RawRuleGraphConfig, node_id: Seq<char>, fallback: Option<String>) -> Option<
    Seq<char>,
> {
    match fallback {
        Some(f) => if is_target(g, f@) {
            None
        } else {
            Some("rule_graph node '"@ + node_id + "' references missing fallback target '"@ + f@ + "'"@)
        },
        None => None,
    }
}

/// The error of a condition node.
pub open spec fn condition_error(g: RawRuleGraphConfig, node_id: Seq<char>, c: Option<RawConditionNodeConfig>) -> Option<
    Seq<char>,
> {
    match c {
        None => Some("rule_graph node '"@ + node_id + "' missing condition config"@),
        Some(c) => {
            let mode_error = match c.mode {
                RawConditionMode::Expression => if match c.expression {
                    Some(e) => is_blank(e@),
                    None => true,
                } {
                    Some("rule_graph condition node '"@ + node_id + "' requires expression"@)
                } else {
                    None
                },
                RawConditionMode::Builder => match c.builder {
                    None => Some(
                        "rule_graph condition node '"@ + node_id + "' requires builder config"@,
                    ),
                    Some(b) => if is_blank(b.field@) || is_blank(b.operator@) || is_blank(b.value@) {
                        Some(
                            "rule_graph condition node '"@ + node_id
                                + "' builder fields cannot be empty"@,
                        )
                    } else {
                        None
                    },
                },
            };
            or_else(
                mode_error,
                if outgoing_count(g.edges@, node_id) > 2 {
                    Some(
                        "rule_graph condition node '"@ + node_id
                            + "' supports at most 2 outgoing edges"@,
                    )
                } else {
                    None
                },
            )
        },
    }
}

/// The first model among `models` named `m` belongs to a provider other than `p`.
pub open spec fn first_model_has_other_provider(models: Seq<RawModel>, m: Seq<char>, p: Seq<char>) -> bool {
    exists|k: int|
        0 <= k < models.len() && #[trigger] models[k].id@ == m && models[k].provider_id@ != p
            && forall|j: int| 0 <= j < k ==> #[trigger] models[j].id@ != m
}

/// The error of a select-model node.
pub open spec fn select_model_error(raw: RawGatewayConfig, node: RawRuleGraphNode) -> Option<Seq<char>> {
    match node.select_model {
        None => Some("rule_graph node '"@ + node.id@ + "' missing select_model config"@),
        Some(c) => if !provider_ids_view(raw.providers@).contains(c.provider_id@) {
            Some(
                "rule_graph node '"@ + node.id@ + "' references missing provider '"@ + c.provider_id@
                    + "'"@,
            )
        } else if !model_ids_view(raw.models@).contains(c.model_id@) {
            Some(
                "rule_graph node '"@ + node.id@ + "' references missing model '"@ + c.model_id@
                    + "'"@,
            )
        } else if first_model_has_other_provider(raw.models@, c.model_id@, c.provider_id@) {
            Some(
                "rule_graph node '"@ + node.id@ + "' model '"@ + c.model_id@
                    + "' does not belong to provider '"@ + c.provider_id@ + "'"@,
            )
        } else {
            None
        },
    }
}

/// The error of a log node.
pub open spec fn log_error(node: RawRuleGraphNode) -> Option<Seq<char>> {
    match node.log {
        None => Some("rule_graph node '"@ + node.id@ + "' missing log config"@),
        Some(c) => if is_blank(c.message@) {
            Some("rule_graph node '"@ + node.id@ + "' log message cannot be empty"@)
        } else {
            None
        },
    }
}

/// The error of a set-header (or set-if-absent) node.
pub open spec fn set_header_error(node: RawRuleGraphNode) -> Option<Seq<char>> {
    match node.set_header {
        None => Some("rule_graph node '"@ + node.id@ + "' missing header config"@),
        Some(c) => if is_blank(c.name@) || is_blank(c.value@) {
            Some("rule_graph node '"@ + node.id@ + "' header name/value cannot be empty"@)
        } else {
            None
        },
    }
}

/// The error of a remove-header node.
pub open spec fn remove_header_error(node: RawRuleGraphNode) -> Option<Seq<char>> {
    match node.remove_header {
        None => Some("rule_graph node '"@ + node.id@ + "' missing remove_header config"@),
        Some(c) => if is_blank(c.name@) {
            Some("rule_graph node '"@ + node.id@ + "' header name cannot be empty"@)
        } else {
            None
        },
    }
}

/// The error of a copy-header node.
pub open spec fn copy_header_error(node: RawRuleGraphNode) -> Option<Seq<char>> {
    match node.copy_header {
        None => Some("rule_graph node '"@ + node.id@ + "' missing copy_header config"@),
        Some(c) => if is_blank(c.from@) || is_blank(c.to@) {
            Some("rule_graph node '"@ + node.id@ + "' copy header fields cannot be empty"@)
        } else {
            None
        },
    }
}

/// The check of the `i`-th rule of a router node.
pub open spec fn router_rule_check(g: RawRuleGraphConfig, node_id: Seq<char>, c: RawRouterNodeConfig) -> spec_fn(
    int,
) -> Option<Seq<char>> {
    |i: int|
        {
            let rule = c.rules@[i];
            if is_blank(rule.id@) {
                Some("rule_graph node '"@ + node_id + "' contains a router rule with empty id"@)
            } else if exists|j: int| 0 <= j < i && #[trigger] c.rules@[j].id@ == rule.id@ {
                Some(
                    "rule_graph node '"@ + node_id + "' has duplicate router rule id '"@ + rule.id@
                        + "'"@,
                )
            } else if rule.clauses@.len() == 0 {
                Some(
                    "rule_graph node '"@ + node_id + "' router rule '"@ + rule.id@
                        + "' must contain at least one clause"@,
                )
            } else if !is_target(g, rule.target_node_id@) {
                Some(
                    "rule_graph node '"@ + node_id + "' router rule '"@ + rule.id@
                        + "' references missing target '"@ + rule.target_node_id@ + "'"@,
                )
            } else if exists|k: int|
                0 <= k < rule.clauses@.len() && clause_incomplete(#[trigger] rule.clauses@[k]) {
                Some(
                    "rule_graph node '"@ + node_id + "' router rule '"@ + rule.id@
                        + "' contains an incomplete clause"@,
                )
            } else {
                None
            }
        }
}

/// A router clause with a blank source, operator or value.
pub open spec fn clause_incomplete(cl: RawRouterClause) -> bool {
    is_blank(cl.source@) || is_blank(cl.operator@) || is_blank(cl.value@)
}

/// The error of a router node.
pub open spec fn router_error(g: RawRuleGraphConfig, node_id: Seq<char>, c: Option<RawRouterNodeConfig>) -> Option<
    Seq<char>,
> {
    match c {
        None => Some("rule_graph node '"@ + node_id + "' missing router config"@),
        Some(c) => if c.rules@.len() == 0 {
            Some("rule_graph node '"@ + node_id + "' must define at least one router rule"@)
        } else {
            or_else(
                first_error(c.rules@.len(), router_rule_check(g, node_id, c)),
                fallback_error(g, node_id, c.fallback_node_id),
            )
        },
    }
}

/// The check of the `i`-th branch of a match node.
pub open spec fn match_branch_check(g: RawRuleGraphConfig, node_id: Seq<char>, c: RawMatchNodeConfig) -> spec_fn(
    int,
) -> Option<Seq<char>> {
    |i: int|
        {
            let b = c.branches@[i];
            if is_blank(b.id@) {
                Some("rule_graph node '"@ + node_id + "' contains a match branch with empty id"@)
            } else if exists|j: int| 0 <= j < i && #[trigger] c.branches@[j].id@ == b.id@ {
                Some(
                    "rule_graph node '"@ + node_id + "' has duplicate match branch id '"@ + b.id@
                        + "'"@,
                )
            } else if is_blank(b.expr@) {
                Some(
                    "rule_graph node '"@ + node_id + "' match branch '"@ + b.id@ + "' has empty expr"@,
                )
            } else if !is_target(g, b.target_node_id@) {
                Some(
                    "rule_graph node '"@ + node_id + "' match branch '"@ + b.id@
                        + "' references missing target '"@ + b.target_node_id@ + "'"@,
                )
            } else {
                None
            }
        }
}

/// The error of a match node.
pub open spec fn match_error(g: RawRuleGraphConfig, node_id: Seq<char>, c: Option<RawMatchNodeConfig>) -> Option<
    Seq<char>,
> {
    match c {
        None => Some("rule_graph node '"@ + node_id + "' missing match config"@),
        Some(c) => or_else(
            wasm_plugin_error(node_id, c.plugin),
            if c.branches@.len() == 0 {
                Some("rule_graph node '"@ + node_id + "' must define at least one match branch"@)
            } else {
                or_else(
                    first_error(c.branches@.len(), match_branch_check(g, node_id, c)),
                    fallback_error(g, node_id, c.fallback_node_id),
                )
            },
        ),
    }
}

/// The error of a code-runner node.
pub open spec fn code_runner_error(node_id: Seq<char>, c: Option<RawCodeRunnerNodeConfig>) -> Option<
    Seq<char>,
> {
    match c {
        None => Some("rule_graph node '"@ + node_id + "' missing code_runner config"@),
        Some(c) => if c.timeout_ms == 0 {
            Some("rule_graph node '"@ + node_id + "' timeout_ms must be greater than zero"@)
        } else if c.max_memory_bytes == 0 {
            Some("rule_graph node '"@ + node_id + "' max_memory_bytes must be greater than zero"@)
        } else if is_blank(c.code@) {
            Some("rule_graph node '"@ + node_id + "' code cannot be empty"@)
        } else {
            None
        },
    }
}

/// The error of one node, by its type; start nodes and other kinds carry no
/// configuration to check.
pub open spec fn node_error(raw: RawGatewayConfig, g: RawRuleGraphConfig, node: RawRuleGraphNode) -> Option<
    Seq<char>,
> {
    match node.node_type {
        RawRuleGraphNodeType::Condition => condition_error(g, node.id@, node.condition),
        RawRuleGraphNodeType::SelectModel => select_model_error(raw, node),
        RawRuleGraphNodeType::Log => log_error(node),
        RawRuleGraphNodeType::SetHeader => set_header_error(node),
        RawRuleGraphNodeType::SetHeaderIfAbsent => set_header_error(node),
        RawRuleGraphNodeType::RemoveHeader => remove_header_error(node),
        RawRuleGraphNodeType::CopyHeader => copy_header_error(node),
        RawRuleGraphNodeType::Router => router_error(g, node.id@, node.router),
        RawRuleGraphNodeType::WasmPlugin => match node.wasm_plugin {
            None => Some("rule_graph node '"@ + node.id@ + "' missing wasm_plugin config"@),
            Some(c) => wasm_plugin_error(node.id@, c),
        },
        RawRuleGraphNodeType::Match => match_error(g, node.id@, node.match_node),
        RawRuleGraphNodeType::CodeRunner => code_runner_error(node.id@, node.code_runner),
        _ => None,
    }
}

/// The check of the `i`-th node of the graph.
pub open spec fn node_check(raw: RawGatewayConfig, g: RawRuleGraphConfig) -> spec_fn(int) -> Option<
    Seq<char>,
> {
    |i: int| node_error(raw, g, g.nodes@[i])
}

/// The first error of the rule graph `g` of `raw`, if any.
pub open spec fn rule_graph_error(raw: RawGatewayConfig, g: RawRuleGraphConfig) -> Option<Seq<char>> {
    or_else(graph_structure_error(g), first_error(g.nodes@.len(), node_check(raw, g)))
}

fn count_start_nodes(ns: &Vec<RawRuleGraphNode>) -> (n: usize)
    ensures
        n == start_node_count(ns@),
{
    let mut n: usize = 0;
    let mut i: usize = 0;
    while i < ns.len()
        invariant
            i <= ns@.len(),
            n == start_node_count(ns@.subrange(0, i as int)),
            n <= i,
        decreases ns@.len() - i,
    {
        assert(ns@.subrange(0, i + 1).drop_last() =~= ns@.subrange(0, i as int));
        if let RawRuleGraphNodeType::Start = ns[i].node_type {
            n = n + 1;
        }
        i = i + 1;
    }
    assert(ns@.subrange(0, i as int) =~= ns@);
    n
}

fn count_outgoing(es: &Vec<RawRuleGraphEdge>, id: &str) -> (n: usize)
    ensures
        n == outgoing_count(es@, id@),
{
    let mut n: usize = 0;
    let mut i: usize = 0;
    while i < es.len()
        invariant
            i <= es@.len(),
            n == outgoing_count(es@.subrange(0, i as int), id@),
            n <= i,
        decreases es@.len() - i,
    {
        assert(es@.subrange(0, i + 1).drop_last() =~= es@.subrange(0, i as int));
        if str_eq(es[i].source.as_str(), id) {
            n = n + 1;
        }
        i = i + 1;
    }
    assert(es@.subrange(0, i as int) =~= es@);
    n
}

/// Checks a code-runner node: its configuration must be present, with
/// non-zero time and memory limits and code that is not blank.
pub fn validate_code_runner_node(node_id: &str, c: &Option<RawCodeRunnerNodeConfig>) -> (r: Result<
    (),
    InfrastructureAclError,
>)
    ensures
        acl_outcome(r, code_runner_error(node_id@, *c)),
{
    match c {
        None => validation_error(
            cat3("rule_graph node '", node_id, "' missing code_runner config"),
        ),
        Some(c) => if c.timeout_ms == 0 {
            validation_error(
                cat3("rule_graph node '", node_id, "' timeout_ms must be greater than zero"),
            )
        } else if c.max_memory_bytes == 0 {
            validation_error(
                cat3(
                    "rule_graph node '",
                    node_id,
                    "' max_memory_bytes must be greater than zero",
                ),
            )
        } else if is_blank_str(c.code.as_str()) {
            validation_error(cat3("rule_graph node '", node_id, "' code cannot be empty"))
        } else {
            Ok(())
        },
    }
}

/// A rule graph together with the identifier lists its checks consult.
struct GraphIndex<'a> {
    raw: &'a RawGatewayConfig,
    graph: &'a RawRuleGraphConfig,
    nodes: Vec<&'a str>,
    providers: Vec<&'a str>,
    models: Vec<&'a str>,
}

impl<'a> GraphIndex<'a> {
    spec fn wf(&self) -> bool {
        &&& strs_view(self.nodes@) == node_ids_view(self.graph.nodes@)
        &&& strs_view(self.providers@) == provider_ids_view(self.raw.providers@)
        &&& strs_view(self.models@) == model_ids_view(self.raw.models@)
    }

    fn has_target(&self, id: &str) -> (r: bool)
        requires
            self.wf(),
        ensures
            r == is_target(*self.graph, id@),
    {
        !is_blank_str(id) && contains_str(&self.nodes, id)
    }

    fn validate_optional_target(
        &self,
        node_id: &str,
        fallback: &Option<String>,
    ) -> (r: Result<(), InfrastructureAclError>)
        requires
            self.wf(),
        ensures
            acl_outcome(r, fallback_error(*self.graph, node_id@, *fallback)),
    {
        match fallback {
            Some(f) => {
                if self.has_target(f.as_str()) {
                    Ok(())
                } else {
                    validation_error(
                        cat5(
                            "rule_graph node '",
                            node_id,
                            "' references missing fallback target '",
                            f.as_str(),
                            "'",
                        ),
                    )
                }
            },
            None => Ok(()),
        }
    }

    fn validate_condition_node(
        &self,
        node_id: &str,
        c: &Option<RawConditionNodeConfig>,
    ) -> (r: Result<(), InfrastructureAclError>)
        requires
            self.wf(),
        ensures
            acl_outcome(r, condition_error(*self.graph, node_id@, *c)),
    {
        let c = match c {
            None => {
                return validation_error(
                    cat3("rule_graph node '", node_id, "' missing condition config"),
                );
            },
            Some(c) => c,
        };
        match c.mode {
            RawConditionMode::Expression => {
                let blank = match &c.expression {
                    Some(e) => is_blank_str(e.as_str()),
                    None => true,
                };
                if blank {
                    return validation_error(
                        cat3("rule_graph condition node '", node_id, "' requires expression"),
                    );
                }
            },
            RawConditionMode::Builder => {
                match &c.builder {
                    None => {
                        return validation_error(
                            cat3("rule_graph condition node '", node_id, "' requires builder config"),
                        );
                    },
                    Some(b) => {
                        if is_blank_str(b.field.as_str()) || is_blank_str(b.operator.as_str())
                            || is_blank_str(b.value.as_str()) {
                            return validation_error(
                                cat3(
                                    "rule_graph condition node '",
                                    node_id,
                                    "' builder fields cannot be empty",
                                ),
                            );
                        }
                    },
                }
            },
        }
        if count_outgoing(&self.graph.edges, node_id) > 2 {
            return validation_error(
                cat3("rule_graph condition node '", node_id, "' supports at most 2 outgoing edges"),
            );
        }
        Ok(())
    }

    fn first_model_provider_differs(
        models: &Vec<RawModel>,
        model_id: &str,
        provider_id: &str,
    ) -> (r: bool)
        requires
            model_ids_view(models@).contains(model_id@),
        ensures
            r == first_model_has_other_provider(models@, model_id@, provider_id@),
    {
        let mut i: usize = 0;
        while i < models.len()
            invariant
                i <= models@.len(),
                model_ids_view(models@).contains(model_id@),
                forall|j: int| 0 <= j < i ==> #[trigger] models@[j].id@ != model_id@,
            decreases models@.len() - i,
        {
            if str_eq(models[i].id.as_str(), model_id) {
                let differs = !str_eq(models[i].provider_id.as_str(), provider_id);
                proof {
                    if !differs {
                        if first_model_has_other_provider(models@, model_id@, provider_id@) {
                            let k = choose|k: int|
                                0 <= k < models@.len() && #[trigger] models@[k].id@ == model_id@
                                    && models@[k].provider_id@ != provider_id@ && forall|j: int|
                                    0 <= j < k ==> #[trigger] models@[j].id@ != model_id@;
                            assert(k == i);
                        }
                    }
                }
                return differs;
            }
            i = i + 1;
        }
        proof {
            let k = choose|k: int| 0 <= k < models@.len() && model_ids_view(models@)[k] == model_id@;
            assert(models@[k].id@ == model_id@);
        }
        false
    }

    fn validate_select_model_node(&self, node: &RawRuleGraphNode) -> (r:
        Result<(), InfrastructureAclError>)
        requires
            self.wf(),
        ensures
            acl_outcome(r, select_model_error(*self.raw, *node)),
    {
        let c = match &node.select_model {
            None => {
                return validation_error(
                    cat3("rule_graph node '", node.id.as_str(), "' missing select_model config"),
                );
            },
            Some(c) => c,
        };
        if !contains_str(&self.providers, c.provider_id.as_str()) {
            return validation_error(
                cat5(
                    "rule_graph node '",
                    node.id.as_str(),
                    "' references missing provider '",
                    c.provider_id.as_str(),
                    "'",
                ),
            );
        }
        if !contains_str(&self.models, c.model_id.as_str()) {
            return validation_error(
                cat5(
                    "rule_graph node '",
                    node.id.as_str(),
                    "' references missing model '",
                    c.model_id.as_str(),
                    "'",
                ),
            );
        }
        if Self::first_model_provider_differs(
            &self.raw.models,
            c.model_id.as_str(),
            c.provider_id.as_str(),
        ) {
            return validation_error(
                cat7(
                    "rule_graph node '",
                    node.id.as_str(),
                    "' model '",
                    c.model_id.as_str(),
                    "' does not belong to provider '",
                    c.provider_id.as_str(),
                    "'",
                ),
            );
        }
        Ok(())
    }

    fn validate_log_node(node: &RawRuleGraphNode) -> (r: Result<(), InfrastructureAclError>)
        ensures
            acl_outcome(r, log_error(*node)),
    {
        match &node.log {
            None => validation_error(
                cat3("rule_graph node '", node.id.as_str(), "' missing log config"),
            ),
            Some(c) => if is_blank_str(c.message.as_str()) {
                validation_error(
                    cat3("rule_graph node '", node.id.as_str(), "' log message cannot be empty"),
                )
            } else {
                Ok(())
            },
        }
    }

    fn validate_set_header_node(node: &RawRuleGraphNode) -> (r: Result<(), InfrastructureAclError>)
        ensures
            acl_outcome(r, set_header_error(*node)),
    {
        match &node.set_header {
            None => validation_error(
                cat3("rule_graph node '", node.id.as_str(), "' missing header config"),
            ),
            Some(c) => if is_blank_str(c.name.as_str()) || is_blank_str(c.value.as_str()) {
                validation_error(
                    cat3(
                        "rule_graph node '",
                        node.id.as_str(),
                        "' header name/value cannot be empty",
                    ),
                )
            } else {
                Ok(())
            },
        }
    }

    fn validate_remove_header_node(node: &RawRuleGraphNode) -> (r: Result<(), InfrastructureAclError>)
        ensures
            acl_outcome(r, remove_header_error(*node)),
    {
        match &node.remove_header {
            None => validation_error(
                cat3("rule_graph node '", node.id.as_str(), "' missing remove_header config"),
            ),
            Some(c) => if is_blank_str(c.name.as_str()) {
                validation_error(
                    cat3("rule_graph node '", node.id.as_str(), "' header name cannot be empty"),
                )
            } else {
                Ok(())
            },
        }
    }

    fn validate_copy_header_node(node: &RawRuleGraphNode) -> (r: Result<(), InfrastructureAclError>)
        ensures
            acl_outcome(r, copy_header_error(*node)),
    {
        match &node.copy_header {
            None => validation_error(
                cat3("rule_graph node '", node.id.as_str(), "' missing copy_header config"),
            ),
            Some(c) => if is_blank_str(c.from.as_str()) || is_blank_str(c.to.as_str()) {
                validation_error(
                    cat3(
                        "rule_graph node '",
                        node.id.as_str(),
                        "' copy header fields cannot be empty",
                    ),
                )
            } else {
                Ok(())
            },
        }
    }

    fn validate_code_runner_node(node_id: &str, c: &Option<RawCodeRunnerNodeConfig>) -> (r: Result<
        (),
        InfrastructureAclError,
    >)
        ensures
            acl_outcome(r, code_runner_error(node_id@, *c)),
    {
        validate_code_runner_node(node_id, c)
    }

    fn clauses_complete(rule: &crate::config_acl::raw_model::RawRouterRule) -> (r: bool)
        ensures
            r == !exists|k: int| 0 <= k < rule.clauses@.len() && clause_incomplete(#[trigger] rule.clauses@[k]),
    {
        let mut k: usize = 0;
        while k < rule.clauses.len()
            invariant
                k <= rule.clauses@.len(),
                forall|j: int| 0 <= j < k ==> !clause_incomplete(#[trigger] rule.clauses@[j]),
            decreases rule.clauses@.len() - k,
        {
            let cl = &rule.clauses[k];
            if is_blank_str(cl.source.as_str()) || is_blank_str(cl.operator.as_str())
                || is_blank_str(cl.value.as_str()) {
                return false;
            }
            assert(!clause_incomplete(rule.clauses@[k as int]));
            k = k + 1;
        }
        true
    }

    fn validate_router_node(&self, node_id: &str, c: &Option<RawRouterNodeConfig>) -> (r: Result<
        (),
        InfrastructureAclError,
    >)
        requires
            self.wf(),
        ensures
            acl_outcome(r, router_error(*self.graph, node_id@, *c)),
    {
        let cfg = match c {
            None => {
                return validation_error(cat3("rule_graph node '", node_id, "' missing router config"));
            },
            Some(cfg) => cfg,
        };
        if cfg.rules.len() == 0 {
            return validation_error(
                cat3("rule_graph node '", node_id, "' must define at least one router rule"),
            );
        }
        let ghost check = router_rule_check(*self.graph, node_id@, *cfg);
        let mut seen: Vec<&str> = Vec::new();
        let mut i: usize = 0;
        while i < cfg.rules.len()
            invariant
                self.wf(),
                *c == Some(*cfg),
                check == router_rule_check(*self.graph, node_id@, *cfg),
                i <= cfg.rules@.len(),
                first_error(i as nat, check) is None,
                seen@.len() == i,
                forall|j: int| 0 <= j < i ==> #[trigger] seen@[j]@ == cfg.rules@[j].id@,
            decreases cfg.rules@.len() - i,
        {
            proof {
                lemma_first_error_step(i as nat, check);
                lemma_first_error_prefix((i + 1) as nat, cfg.rules@.len(), check);
            }
            let rule = &cfg.rules[i];
            let rid = rule.id.as_str();
            if is_blank_str(rid) {
                return validation_error(
                    cat3("rule_graph node '", node_id, "' contains a router rule with empty id"),
                );
            }
            if contains_str_before(&seen, i, rid) {
                proof {
                    let j = choose|j: int| 0 <= j < i && seen@[j]@ == rid@;
                    assert(cfg.rules@[j].id@ == rid@);
                }
                return validation_error(
                    cat5("rule_graph node '", node_id, "' has duplicate router rule id '", rid, "'"),
                );
            }
            proof {
                assert forall|j: int| 0 <= j < i implies #[trigger] cfg.rules@[j].id@ != rid@ by {
                    assert(seen@[j]@ != rid@);
                }
            }
            if rule.clauses.len() == 0 {
                return validation_error(
                    cat5(
                        "rule_graph node '",
                        node_id,
                        "' router rule '",
                        rid,
                        "' must contain at least one clause",
                    ),
                );
            }
            if !self.has_target(rule.target_node_id.as_str()) {
                return validation_error(
                    cat7(
                        "rule_graph node '",
                        node_id,
                        "' router rule '",
                        rid,
                        "' references missing target '",
                        rule.target_node_id.as_str(),
                        "'",
                    ),
                );
            }
            if !Self::clauses_complete(rule) {
                return validation_error(
                    cat5(
                        "rule_graph node '",
                        node_id,
                        "' router rule '",
                        rid,
                        "' contains an incomplete clause",
                    ),
                );
            }
            seen.push(rid);
            i = i + 1;
        }
        self.validate_optional_target(node_id, &cfg.fallback_node_id)
    }

    fn validate_match_node(&self, node_id: &str, c: &Option<RawMatchNodeConfig>) -> (r: Result<
        (),
        InfrastructureAclError,
    >)
        requires
            self.wf(),
        ensures
            acl_outcome(r, match_error(*self.graph, node_id@, *c)),
    {
        let cfg = match c {
            None => {
                return validation_error(cat3("rule_graph node '", node_id, "' missing match config"));
            },
            Some(cfg) => cfg,
        };
        let w = validate_wasm_plugin_config(node_id, &cfg.plugin);
        if w.is_err() {
            return w;
        }
        if cfg.branches.len() == 0 {
            return validation_error(
                cat3("rule_graph node '", node_id, "' must define at least one match branch"),
            );
        }
        let ghost check = match_branch_check(*self.graph, node_id@, *cfg);
        let mut seen: Vec<&str> = Vec::new();
        let mut i: usize = 0;
        while i < cfg.branches.len()
            invariant
                self.wf(),
                *c == Some(*cfg),
                wasm_plugin_error(node_id@, cfg.plugin) is None,
                check == match_branch_check(*self.graph, node_id@, *cfg),
                i <= cfg.branches@.len(),
                first_error(i as nat, check) is None,
                seen@.len() == i,
                forall|j: int| 0 <= j < i ==> #[trigger] seen@[j]@ == cfg.branches@[j].id@,
            decreases cfg.branches@.len() - i,
        {
            proof {
                lemma_first_error_step(i as nat, check);
                lemma_first_error_prefix((i + 1) as nat, cfg.branches@.len(), check);
            }
            let b = &cfg.branches[i];
            let bid = b.id.as_str();
            if is_blank_str(bid) {
                return validation_error(
                    cat3("rule_graph node '", node_id, "' contains a match branch with empty id"),
                );
            }
            if contains_str_before(&seen, i, bid) {
                proof {
                    let j = choose|j: int| 0 <= j < i && seen@[j]@ == bid@;
                    assert(cfg.branches@[j].id@ == bid@);
                }
                return validation_error(
                    cat5("rule_graph node '", node_id, "' has duplicate match branch id '", bid, "'"),
                );
            }
            proof {
                assert forall|j: int| 0 <= j < i implies #[trigger] cfg.branches@[j].id@ != bid@ by {
                    assert(seen@[j]@ != bid@);
                }
            }
            if is_blank_str(b.expr.as_str()) {
                return validation_error(
                    cat5("rule_graph node '", node_id, "' match branch '", bid, "' has empty expr"),
                );
            }
            if !self.has_target(b.target_node_id.as_str()) {
                return validation_error(
                    cat7(
                        "rule_graph node '",
                        node_id,
                        "' match branch '",
                        bid,
                        "' references missing target '",
                        b.target_node_id.as_str(),
                        "'",
                    ),
                );
            }
            seen.push(bid);
            i = i + 1;
        }
        self.validate_optional_target(node_id, &cfg.fallback_node_id)
    }

    fn validate_node(&self, node: &RawRuleGraphNode) -> (r: Result<(), InfrastructureAclError>)
        requires
            self.wf(),
        ensures
            acl_outcome(r, node_error(*self.raw, *self.graph, *node)),
    {
        let id = node.id.as_str();
        match node.node_type {
            RawRuleGraphNodeType::Condition => self.validate_condition_node(id, &node.condition),
            RawRuleGraphNodeType::SelectModel => self.validate_select_model_node(node),
            RawRuleGraphNodeType::Log => Self::validate_log_node(node),
            RawRuleGraphNodeType::SetHeader => Self::validate_set_header_node(node),
            RawRuleGraphNodeType::SetHeaderIfAbsent => Self::validate_set_header_node(node),
            RawRuleGraphNodeType::RemoveHeader => Self::validate_remove_header_node(node),
            RawRuleGraphNodeType::CopyHeader => Self::validate_copy_header_node(node),
            RawRuleGraphNodeType::Router => self.validate_router_node(id, &node.router),
            RawRuleGraphNodeType::WasmPlugin => match &node.wasm_plugin {
                None => validation_error(
                    cat3("rule_graph node '", id, "' missing wasm_plugin config"),
                ),
                Some(c) => validate_wasm_plugin_config(id, c),
            },
            RawRuleGraphNodeType::Match => self.validate_match_node(id, &node.match_node),
            RawRuleGraphNodeType::CodeRunner => Self::validate_code_runner_node(id, &node.code_runner),
            _ => Ok(()),
        }
    }

    fn validate_nodes(&self) -> (r: Result<(), InfrastructureAclError>)
        requires
            self.wf(),
        ensures
            acl_outcome(r, first_error(self.graph.nodes@.len(), node_check(*self.raw, *self.graph))),
    {
        let ghost check = node_check(*self.raw, *self.graph);
        let mut i: usize = 0;
        while i < self.graph.nodes.len()
            invariant
                self.wf(),
                check == node_check(*self.raw, *self.graph),
                i <= self.graph.nodes@.len(),
                first_error(i as nat, check) is None,
            decreases self.graph.nodes@.len() - i,
        {
            proof {
                lemma_first_error_step(i as nat, check);
                lemma_first_error_prefix((i + 1) as nat, self.graph.nodes@.len(), check);
            }
            let n = self.validate_node(&self.graph.nodes[i]);
            if n.is_err() {
                return n;
            }
            i = i + 1;
        }
        Ok(())
    }
}

fn validate_start_node(g: &RawRuleGraphConfig, nodes: &Vec<&str>) -> (r: Result<
    (),
    InfrastructureAclError,
>)
    requires
        strs_view(nodes@) == node_ids_view(g.nodes@),
    ensures
        acl_outcome(r, start_node_error(*g)),
{
    if is_blank_str(g.start_node_id.as_str()) {
        return validation_error(String::from_str("rule_graph start_node_id cannot be empty"));
    }
    if !contains_str(nodes, g.start_node_id.as_str()) {
        return validation_error(
            cat3("rule_graph start node '", g.start_node_id.as_str(), "' does not exist"),
        );
    }
    let count = count_start_nodes(&g.nodes);
    if count != 1 {
        let n = usize_to_decimal(count);
        return validation_error(
            cat2("rule_graph requires exactly one start node, found ", n.as_str()),
        );
    }
    Ok(())
}

fn validate_edges(g: &RawRuleGraphConfig, nodes: &Vec<&str>) -> (r: Result<
    (),
    InfrastructureAclError,
>)
    requires
        strs_view(nodes@) == node_ids_view(g.nodes@),
    ensures
        acl_outcome(r, first_error(g.edges@.len(), edge_check(*g))),
{
    let ghost check = edge_check(*g);
    let mut i: usize = 0;
    while i < g.edges.len()
        invariant
            strs_view(nodes@) == node_ids_view(g.nodes@),
            check == edge_check(*g),
            i <= g.edges@.len(),
            first_error(i as nat, check) is None,
        decreases g.edges@.len() - i,
    {
        proof {
            lemma_first_error_step(i as nat, check);
            lemma_first_error_prefix((i + 1) as nat, g.edges@.len(), check);
        }
        let e = &g.edges[i];
        if !contains_str(nodes, e.source.as_str()) {
            return validation_error(
                cat5("rule_graph edge '", e.id.as_str(), "' missing source '", e.source.as_str(), "'"),
            );
        }
        if !contains_str(nodes, e.target.as_str()) {
            return validation_error(
                cat5("rule_graph edge '", e.id.as_str(), "' missing target '", e.target.as_str(), "'"),
            );
        }
        i = i + 1;
    }
    Ok(())
}

/// Checks the rule graph `graph` of `raw`: unique node and edge identifiers,
/// a single existing start node, edges between existing nodes, then each
/// node's configuration in order.
pub fn validate_rule_graph_subset(graph: &RawRuleGraphConfig, raw: &RawGatewayConfig) -> (r: Result<
    (),
    InfrastructureAclError,
>)
    ensures
        acl_outcome(r, rule_graph_error(*raw, *graph)),
        r is Ok <==> rule_graph_error(*raw, *graph) is None,
        r matches Err(e) ==> e is Validation,
{
    let nodes = node_ids(&graph.nodes);
    if let Err(e) = unique_ids(&nodes, "rule_graph node") {
        return Err(e);
    }
    let edges = edge_ids(&graph.edges);
    if let Err(e) = unique_ids(&edges, "rule_graph edge") {
        return Err(e);
    }
    let st = validate_start_node(graph, &nodes);
    if st.is_err() {
        return st;
    }
    let ed = validate_edges(graph, &nodes);
    if ed.is_err() {
        return ed;
    }
    let index = GraphIndex {
        raw,
        graph,
        nodes,
        providers: provider_ids(&raw.providers),
        models: model_ids(&raw.models),
    };
    index.validate_nodes()
}

} // verus!
