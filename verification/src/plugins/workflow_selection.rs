//! The workflow selection step: records a provider and/or a model in the
//! workflow context.
use vstd::prelude::*;
use crate::plugin_runtime_contract::{
    RuntimeContextPatchOp, RuntimeExecuteInput, RuntimeExecuteOutput, RuntimeLogLevel,
};
use crate::plugins::node::{info_log, set_context, NodeExecuteError};
use crate::plugins::select_model::{trimmed_or_empty, trimmed_setting_text};
use crate::text::{cat2, cat3};

verus! {

/// The step's configuration.
#[derive(Debug, Clone, PartialEq, Eq)]
pub struct SelectionConfig {
    pub provider_id: Option<String>,
    pub model_id: Option<String>,
    pub log_message: Option<String>,
}

/// The log line used when none is configured.
pub open spec fn default_selection_message(p: Seq<char>, m: Seq<char>) -> Seq<char> {
    if p.len() > 0 && m.len() > 0 {
        "selected provider="@ + p + " model="@ + m
    } else if p.len() > 0 {
        "selected provider="@ + p
    } else {
        "selected model="@ + m
    }
}

/// Whether a context operation sets `key` to `value`.
pub open spec fn sets(op: RuntimeContextPatchOp, key: Seq<char>, value: Seq<char>) -> bool {
    op matches RuntimeContextPatchOp::SetValue { key: k, value: v } && k@ == key && v@ == value
}

/// Runs the selection step: at least one of the (trimmed) ids is required;
/// each non-empty one is set (`selection.provider_id`, then
/// `selection.model_id`), and the configured message, or one naming the
/// selection, is logged.
pub fn execute(input: &RuntimeExecuteInput, config: &SelectionConfig) -> (r: Result<
    RuntimeExecuteOutput,
    NodeExecuteError,
>)
    ensures
        ({
            let p = trimmed_or_empty(config.provider_id);
            let m = trimmed_or_empty(config.model_id);
            if p.len() == 0 && m.len() == 0 {
                r matches Err(e) && e.spec_message()
                    == "selection step requires provider_id or model_id"@
            } else {
                r matches Ok(out) && {
                    &&& out.context_ops@.len() == (if p.len() > 0 { 1int } else { 0 }) + (if m.len()
                        > 0 { 1int } else { 0 })
                    &&& p.len() > 0 ==> sets(out.context_ops@[0], "selection.provider_id"@, p)
                    &&& m.len() > 0 ==> sets(
                        out.context_ops@.last(),
                        "selection.model_id"@,
                        m,
                    )
                    &&& out.header_ops@.len() == 0
                    &&& out.path_rewrite is None
                    &&& out.next_port is None
                    &&& out.logs@.len() == 1
                    &&& out.logs@[0].level == RuntimeLogLevel::Info
                    &&& out.logs@[0].message@ == match config.log_message {
                        Some(t) => t@,
                        None => default_selection_message(p, m),
                    }
                }
            }
        }),
{
    let provider_id = trimmed_setting_text(&config.provider_id);
    let model_id = trimmed_setting_text(&config.model_id);
    let has_provider = provider_id.unicode_len() > 0;
    let has_model = model_id.unicode_len() > 0;
    if !has_provider && !has_model {
        return Err(
            NodeExecuteError::InvalidInput(
                String::from_str("selection step requires provider_id or model_id"),
            ),
        );
    }
    let message: String = match &config.log_message {
        Some(t) => t.clone(),
        None => if has_provider && has_model {
            let a = cat3("selected provider=", provider_id.as_str(), " model=");
            cat2(a.as_str(), model_id.as_str())
        } else if has_provider {
            cat2("selected provider=", provider_id.as_str())
        } else {
            cat2("selected model=", model_id.as_str())
        },
    };
    let mut ops = Vec::new();
    if has_provider {
        ops.push(set_context("selection.provider_id", provider_id));
    }
    if has_model {
        ops.push(set_context("selection.model_id", model_id));
    }
    let mut logs = Vec::new();
    logs.push(info_log(message));
    Ok(
        RuntimeExecuteOutput {
            context_ops: ops,
            header_ops: Vec::new(),
            path_rewrite: None,
            next_port: None,
            logs,
        },
    )
}

} // verus!
