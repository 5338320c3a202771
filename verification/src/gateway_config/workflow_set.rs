//! The workflows loaded for a gateway configuration, and the runtime state
//! built from both.
use vstd::prelude::*;
use crate::gateway_config::model::{GatewayConfig, RuleGraphConfig, WorkflowFileConfig, WorkflowIndexEntry};
use crate::text::str_eq;

verus! {

/// The workflows of a configuration: the index entries, each loaded
/// workflow file by workflow id (ids in increasing order, each once), the
/// active workflow's id, and the rule graph of a configuration written
/// before workflows had files of their own.
#[derive(Debug, Clone)]
pub struct LoadedWorkflowSet {
    pub summaries: Vec<WorkflowIndexEntry>,
    pub by_id: Vec<(String, WorkflowFileConfig)>,
    pub active_workflow_id: Option<String>,
    pub legacy_rule_graph: Option<RuleGraphConfig>,
}

/// A loaded configuration with its workflows.
#[derive(Debug, Clone)]
pub struct RuntimeState {
    pub config: GatewayConfig,
    pub workflow_set: LoadedWorkflowSet,
}

/// The workflow file loaded under `id`.
pub open spec fn workflow_for(by_id: Seq<(String, WorkflowFileConfig)>, id: Seq<char>) -> Option<
    WorkflowFileConfig,
>
    decreases by_id.len(),
{
    if by_id.len() == 0 {
        None
    } else if by_id[0].0@ == id {
        Some(by_id[0].1)
    } else {
        workflow_for(by_id.drop_first(), id)
    }
}

/// The graph that runs: the active workflow's, when it is loaded, else the
/// legacy rule graph, if any.
pub open spec fn active_graph_of(set: LoadedWorkflowSet) -> Option<RuleGraphConfig> {
    let active = match set.active_workflow_id {
        Some(id) => workflow_for(set.by_id@, id@),
        None => None,
    };
    match active {
        Some(wf) => Some(wf.workflow),
        None => set.legacy_rule_graph,
    }
}

impl LoadedWorkflowSet {
    /// The graph that runs (see `active_graph_of`).
    pub fn active_graph(&self) -> (r: Option<&RuleGraphConfig>)
        ensures
            match active_graph_of(*self) {
                Some(g) => r matches Some(h) && *h == g,
                None => r is None,
            },
    {
        if let Some(id) = &self.active_workflow_id {
            let n = self.by_id.len();
            let mut i: usize = 0;
            proof {
                assert(self.by_id@.skip(0) =~= self.by_id@);
            }
            while i < n
                invariant
                    n == self.by_id.len(),
                    i <= n,
                    workflow_for(self.by_id@, id@) == workflow_for(self.by_id@.skip(i as int), id@),
                    self.active_workflow_id == Some(*id),
                decreases n - i,
            {
                proof {
                    assert(self.by_id@.skip(i as int)[0] == self.by_id@[i as int]);
                    assert(self.by_id@.skip(i as int).drop_first() =~= self.by_id@.skip(i + 1));
                }
                if str_eq(self.by_id[i].0.as_str(), id.as_str()) {
                    return Some(&self.by_id[i].1.workflow);
                }
                i = i + 1;
            }
        }
        self.legacy_rule_graph.as_ref()
    }
}

} // verus!
