//! The select-model node: records a provider and a model in the workflow
//! context and logs the choice.
use vstd::prelude::*;
use crate::plugin_runtime_contract::{
    RuntimeContextPatchOp, RuntimeExecuteInput, RuntimeExecuteOutput, RuntimeLogLevel,
};
use crate::plugins::node::{
    context_map, header_map, info_log, render_template, rendered, set_context,
    NodeExecuteError,
};
use crate::text::{trim, trim_seq};

verus! {

/// The node's configuration.
#[derive(Debug, Clone, PartialEq, Eq)]
pub struct SelectModelConfig {
    pub provider_id: Option<String>,
    pub model_id: Option<String>,
    pub log_message: Option<String>,
}

/// An optional setting, trimmed; empty when unset.
pub open spec fn trimmed_or_empty(v: Option<String>) -> Seq<char> {
    match v {
        Some(s) => trim_seq(s@),
        None => Seq::empty(),
    }
}

/// The message template used when none is configured.
pub open spec fn default_selection_template() -> Seq<char> {
    "selected provider=${ctx.selection.provider_id} model=${ctx.selection.model_id}"@
}

pub(crate) fn trimmed_setting_text(v: &Option<String>) -> (r: String)
    ensures
        r@ == trimmed_or_empty(*v),
{
    match v {
        Some(s) => String::from_str(trim(s.as_str())),
        None => String::new(),
    }
}

/// Runs the select-model node: both ids (trimmed) are required; they are
/// set as `selection.provider_id` and `selection.model_id`, and the log
/// message (by default naming the selection held in the context before this
/// node) is rendered and logged.
pub fn execute(input: &RuntimeExecuteInput, config: &SelectModelConfig) -> (r: Result<
    RuntimeExecuteOutput,
    NodeExecuteError,
>)
    ensures
        ({
            let p = trimmed_or_empty(config.provider_id);
            let m = trimmed_or_empty(config.model_id);
            if p.len() == 0 || m.len() == 0 {
                r matches Err(e) && e.spec_message()
                    == "select-model requires non-empty provider_id and model_id"@
            } else {
                r matches Ok(out) && {
                    &&& out.context_ops@.len() == 2
                    &&& out.context_ops@[0] matches RuntimeContextPatchOp::SetValue { key, value }
                        && key@ == "selection.provider_id"@ && value@ == p
                    &&& out.context_ops@[1] matches RuntimeContextPatchOp::SetValue { key, value }
                        && key@ == "selection.model_id"@ && value@ == m
                    &&& out.header_ops@.len() == 0
                    &&& out.path_rewrite is None
                    &&& out.next_port is None
                    &&& out.logs@.len() == 1
                    &&& out.logs@[0].level == RuntimeLogLevel::Info
                    &&& out.logs@[0].message@ == rendered(
                        match config.log_message {
                            Some(t) => t@,
                            None => default_selection_template(),
                        },
                        *input,
                    )
                }
            }
        }),
{
    let provider_id = trimmed_setting_text(&config.provider_id);
    let model_id = trimmed_setting_text(&config.model_id);
    if provider_id.unicode_len() == 0 || model_id.unicode_len() == 0 {
        return Err(
            NodeExecuteError::InvalidInput(
                String::from_str("select-model requires non-empty provider_id and model_id"),
            ),
        );
    }
    let headers = header_map(input);
    let context = context_map(input);
    let template: String = match &config.log_message {
        Some(t) => t.clone(),
        None => String::from_str(
            "selected provider=${ctx.selection.provider_id} model=${ctx.selection.model_id}",
        ),
    };
    let message = render_template(template.as_str(), input, &headers, &context);
    let mut context_ops = Vec::new();
    context_ops.push(set_context("selection.provider_id", provider_id));
    context_ops.push(set_context("selection.model_id", model_id));
    let mut logs = Vec::new();
    logs.push(info_log(message));
    Ok(
        RuntimeExecuteOutput {
            context_ops,
            header_ops: Vec::new(),
            path_rewrite: None,
            next_port: None,
            logs,
        },
    )
}

} // verus!
