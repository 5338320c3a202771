//! Checks of a raw gateway configuration: the workflow index, routes and
//! header rules, and the rule graph.
pub mod error;
pub mod raw_model;
pub mod util;

pub use error::InfrastructureAclError;
pub use raw_model::{
    RawCodeRunnerNodeConfig, RawConditionBuilderConfig, RawConditionMode, RawConditionNodeConfig,
    RawCopyHeaderNodeConfig, RawGatewayConfig, RawHeaderMutationNodeConfig,
    RawHeaderNameNodeConfig, RawHeaderRule, RawLogNodeConfig, RawMatchBranchConfig,
    RawMatchNodeConfig, RawModel, RawProvider, RawRoute, RawRouterClause, RawRouterNodeConfig,
    RawRouterRule, RawRuleGraphConfig, RawRuleGraphEdge, RawRuleGraphNode, RawRuleGraphNodeType,
    RawRuleScope, RawSelectModelNodeConfig, RawWasmCapability, RawWasmPluginNodeConfig,
    RawWorkflowIndex, RawWorkflowIndexEntry,
};
pub mod workflow_acl;
pub mod ids;
pub mod route_acl;
pub mod wasm_plugin_acl;
pub mod graph_acl;

use vstd::prelude::*;

use crate::checks::or_else;
use error::acl_outcome;
use graph_acl::{rule_graph_error, validate_rule_graph_subset};
use route_acl::{route_and_header_rule_error, validate_route_and_header_rule_subset};
use workflow_acl::{validate_workflow_index_subset, workflow_index_error};

verus! {

/// The first error of the raw configuration `raw`, if any: the workflow
/// index, then routes and header rules, then the rule graph when present.
pub open spec fn gateway_config_error(raw: RawGatewayConfig) -> Option<Seq<char>> {
    or_else(
        workflow_index_error(raw),
        or_else(
            route_and_header_rule_error(raw),
            match raw.rule_graph {
                Some(g) => rule_graph_error(raw, g),
                None => None,
            },
        ),
    )
}

/// Checks the raw configuration `raw` against the gateway's rules and reports
/// the first rule it breaks.
pub fn map_gateway_config(raw: &RawGatewayConfig) -> (r: Result<(), InfrastructureAclError>)
    ensures
        acl_outcome(r, gateway_config_error(*raw)),
{
    let w = validate_workflow_index_subset(raw);
    if w.is_err() {
        return w;
    }
    let h = validate_route_and_header_rule_subset(raw);
    if h.is_err() {
        return h;
    }
    match &raw.rule_graph {
        Some(g) => validate_rule_graph_subset(g, raw),
        None => Ok(()),
    }
}

} // verus!
pub mod laws;
