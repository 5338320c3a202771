//! The rewrite-path node: renders a new request path from a template.
use vstd::prelude::*;
use crate::plugin_runtime_contract::{RuntimeExecuteInput, RuntimeExecuteOutput, RuntimeLogLevel};
use crate::plugins::node::{context_map, header_map, info_log, render_template, rendered};
use crate::plugins::set_header::optional_log;
use crate::text::{is_blank_str, trim, trim_seq};

verus! {

/// The node's configuration.
#[derive(Debug, Clone, PartialEq, Eq)]
pub struct RewritePathConfig {
    pub path_rewrite: Option<String>,
    pub log_message: Option<String>,
}

/// The rewritten path: the configured template, trimmed, rendered, unless
/// it is blank.
pub open spec fn rewritten_path(config: RewritePathConfig, input: RuntimeExecuteInput) -> Option<
    Seq<char>,
> {
    match config.path_rewrite {
        Some(p) => if trim_seq(p@).len() > 0 {
            Some(rendered(trim_seq(p@), input))
        } else {
            None
        },
        None => None,
    }
}

/// Runs the rewrite-path node: the rendered path (if any) and the rendered
/// log message (if configured and not blank).
pub fn execute(input: &RuntimeExecuteInput, config: &RewritePathConfig) -> (r: RuntimeExecuteOutput)
    ensures
        r.context_ops@.len() == 0,
        r.header_ops@.len() == 0,
        r.next_port is None,
        match rewritten_path(*config, *input) {
            Some(p) => r.path_rewrite matches Some(q) && q@ == p,
            None => r.path_rewrite is None,
        },
        match optional_log(config.log_message, *input) {
            Some(m) => r.logs@.len() == 1 && r.logs@[0].level == RuntimeLogLevel::Info
                && r.logs@[0].message@ == m,
            None => r.logs@.len() == 0,
        },
{
    let headers = header_map(input);
    let context = context_map(input);
    let mut path_rewrite: Option<String> = None;
    if let Some(p) = &config.path_rewrite {
        let t = trim(p.as_str());
        if t.unicode_len() > 0 {
            path_rewrite = Some(render_template(t, input, &headers, &context));
        }
    }
    let mut logs = Vec::new();
    if let Some(message) = &config.log_message {
        if !is_blank_str(message.as_str()) {
            logs.push(info_log(render_template(message.as_str(), input, &headers, &context)));
        }
    }
    RuntimeExecuteOutput {
        context_ops: Vec::new(),
        header_ops: Vec::new(),
        path_rewrite,
        next_port: None,
        logs,
    }
}

} // verus!
