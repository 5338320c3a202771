//! The log step: renders a message template against the request and logs it
//! at the configured level.
use vstd::prelude::*;
use crate::plugin_runtime_contract::{
    RuntimeExecuteInput, RuntimeExecuteOutput, RuntimeLogEntry, RuntimeLogLevel,
};
use crate::plugins::node::{context_map, header_map, render_template, rendered};
use crate::text::{str_eq, trim, trim_seq};

verus! {

/// The step's configuration.
#[derive(Debug, Clone, PartialEq, Eq)]
pub struct LogStepConfig {
    pub log_message: Option<String>,
    pub level: Option<String>,
}

/// The level a setting names once trimmed: `debug`, `warn` or `error`;
/// anything else, and no setting, is `info`.
pub open spec fn level_named(level: Option<Seq<char>>) -> RuntimeLogLevel {
    match level {
        Some(l) => {
            let t = trim_seq(l);
            if t == "debug"@ {
                RuntimeLogLevel::Debug
            } else if t == "warn"@ {
                RuntimeLogLevel::Warn
            } else if t == "error"@ {
                RuntimeLogLevel::Error
            } else {
                RuntimeLogLevel::Info
            }
        },
        None => RuntimeLogLevel::Info,
    }
}

/// The log level a setting names (see `level_named`).
pub fn parse_level(level: Option<&str>) -> (r: RuntimeLogLevel)
    ensures
        r == level_named(
            match level {
                Some(l) => Some(l@),
                None => None,
            },
        ),
{
    match level {
        Some(l) => {
            let t = trim(l);
            if str_eq(t, "debug") {
                RuntimeLogLevel::Debug
            } else if str_eq(t, "warn") {
                RuntimeLogLevel::Warn
            } else if str_eq(t, "error") {
                RuntimeLogLevel::Error
            } else {
                RuntimeLogLevel::Info
            }
        },
        None => RuntimeLogLevel::Info,
    }
}

/// The message template used when none is configured.
pub open spec fn default_log_template() -> Seq<char> {
    "log-step method=${method} path=${path}"@
}

/// Runs the log step: one log line, the configured template (or the
/// default one) rendered against the request, at the configured level.
pub fn execute(input: &RuntimeExecuteInput, config: &LogStepConfig) -> (r: RuntimeExecuteOutput)
    ensures
        r.context_ops@.len() == 0,
        r.header_ops@.len() == 0,
        r.path_rewrite is None,
        r.next_port is None,
        r.logs@.len() == 1,
        r.logs@[0].level == level_named(
            match config.level {
                Some(l) => Some(l@),
                None => None,
            },
        ),
        r.logs@[0].message@ == rendered(
            match config.log_message {
                Some(t) => t@,
                None => default_log_template(),
            },
            *input,
        ),
{
    let headers = header_map(input);
    let context = context_map(input);
    let template: String = match &config.log_message {
        Some(t) => t.clone(),
        None => String::from_str("log-step method=${method} path=${path}"),
    };
    let level = match &config.level {
        Some(l) => parse_level(Some(l.as_str())),
        None => parse_level(None),
    };
    let message = render_template(template.as_str(), input, &headers, &context);
    let mut logs = Vec::new();
    logs.push(RuntimeLogEntry { level, message });
    RuntimeExecuteOutput {
        context_ops: Vec::new(),
        header_ops: Vec::new(),
        path_rewrite: None,
        next_port: None,
        logs,
    }
}

} // verus!
