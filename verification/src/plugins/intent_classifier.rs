//! The intent classifier node: `chat` when the request says so in its
//! `x-intent` header or its path, `default` otherwise.
use vstd::prelude::*;
use crate::plugin_runtime_contract::{
    RuntimeContextPatchOp, RuntimeExecuteInput, RuntimeExecuteOutput, RuntimeLogLevel,
};
use crate::plugins::node::{find_header, header_lookup, info_log, set_context};
use crate::text::{cat5, contains_seq, str_contains, str_eq};

verus! {

/// The intent of a request: `chat` when its first `x-intent` header (ASCII
/// case ignored) is exactly `chat` or its path contains `/chat`.
pub open spec fn intent_of(input: RuntimeExecuteInput) -> Seq<char> {
    if header_lookup(input.request_headers@, "x-intent"@) == Some("chat"@) || contains_seq(
        input.current_path@,
        "/chat"@,
    ) {
        "chat"@
    } else {
        "default"@
    }
}

/// Runs the intent classifier: records the intent under `intent`, logs the
/// decision and routes to the port named after it.
pub fn execute(input: &RuntimeExecuteInput) -> (r: RuntimeExecuteOutput)
    ensures
        r.context_ops@.len() == 1,
        r.context_ops@[0] matches RuntimeContextPatchOp::SetValue { key, value } && key@
            == "intent"@ && value@ == intent_of(*input),
        r.header_ops@.len() == 0,
        r.path_rewrite is None,
        r.next_port matches Some(p) && p@ == intent_of(*input),
        r.logs@.len() == 1,
        r.logs@[0].level == RuntimeLogLevel::Info,
        r.logs@[0].message@ == "intent-classifier routed path '"@ + input.current_path@
            + "' to port '"@ + intent_of(*input) + "'"@,
{
    let header_intent = find_header(&input.request_headers, "x-intent");
    let header_says_chat = match header_intent {
        Some(v) => str_eq(v, "chat"),
        None => false,
    };
    let intent: &str = if header_says_chat || str_contains(input.current_path.as_str(), "/chat") {
        "chat"
    } else {
        "default"
    };
    let message = cat5(
        "intent-classifier routed path '",
        input.current_path.as_str(),
        "' to port '",
        intent,
        "'",
    );
    let mut context_ops = Vec::new();
    context_ops.push(set_context("intent", String::from_str(intent)));
    let mut logs = Vec::new();
    logs.push(info_log(message));
    RuntimeExecuteOutput {
        context_ops,
        header_ops: Vec::new(),
        path_rewrite: None,
        next_port: Some(String::from_str(intent)),
        logs,
    }
}

} // verus!
