//! The set-header node: turns configured header mutations (`set`, `append`,
//! `remove`, `copy`, `set_if_absent`) into header operations, rendering
//! values as templates.
use vstd::prelude::*;
use crate::checks::{first_error, lemma_first_error_prefix, lemma_first_error_step};
use crate::plugin_runtime_contract::{RuntimeExecuteInput, RuntimeExecuteOutput, RuntimeHeaderOp, RuntimeLogLevel};
use crate::plugins::node::{context_map, context_map_of, header_map, header_map_of, info_log, render_template, render_with, rendered, NodeExecuteError};
use crate::sorted_pairs::{lookup, lookup_exec, pairs_view};
use crate::text::{ascii_lower_seq, cat3, is_blank, is_blank_str, lowercase_ascii, str_eq, trim, trim_seq};

verus! {

/// One configured header mutation.
#[derive(Debug, Clone, PartialEq, Eq)]
pub struct HeaderMutation {
    pub op: String,
    pub name: Option<String>,
    pub value: Option<String>,
    pub from: Option<String>,
}

/// The node's configuration.
#[derive(Debug, Clone, PartialEq, Eq)]
pub struct SetHeaderConfig {
    pub set_headers: Vec<HeaderMutation>,
    pub log_message: Option<String>,
}

/// A header operation as plain text.
pub enum HeaderOpView {
    SetTo(Seq<char>, Seq<char>),
    Append(Seq<char>, Seq<char>),
    Remove(Seq<char>),
}

/// The text of a header operation.
pub open spec fn header_op_view(op: RuntimeHeaderOp) -> HeaderOpView {
    match op {
        RuntimeHeaderOp::SetValue { name, value } => HeaderOpView::SetTo(name@, value@),
        RuntimeHeaderOp::Append { name, value } => HeaderOpView::Append(name@, value@),
        RuntimeHeaderOp::Remove { name } => HeaderOpView::Remove(name@),
    }
}

/// An optional setting, trimmed, when it is not blank.
pub open spec fn trimmed_setting(v: Option<String>) -> Option<Seq<char>> {
    match v {
        Some(s) => if trim_seq(s@).len() > 0 {
            Some(trim_seq(s@))
        } else {
            None
        },
        None => None,
    }
}

/// The header operation a mutation gives, or why it is refused. The
/// operation name is trimmed; `name` and `value` must be non-blank where
/// they are used and are trimmed; values are rendered as templates; `copy`
/// copies the value of the header named `from` (ASCII case ignored; empty
/// when absent); `set_if_absent` keeps an existing header's value.
pub open spec fn header_op_outcome(
    m: HeaderMutation,
    input: RuntimeExecuteInput,
    headers: Seq<(Seq<char>, Seq<char>)>,
    context: Seq<(Seq<char>, Seq<char>)>,
) -> Result<HeaderOpView, Seq<char>> {
    let op = trim_seq(m.op@);
    let no_name = "header op requires 'name'"@;
    let no_value = "header op requires 'value'"@;
    let name = trimmed_setting(m.name);
    let value = trimmed_setting(m.value);
    if op == "set"@ || op == "append"@ {
        match name {
            None => Err(no_name),
            Some(n) => match value {
                None => Err(no_value),
                Some(v) => {
                    let text = render_with(v, input, headers, context);
                    if op == "set"@ {
                        Ok(HeaderOpView::SetTo(n, text))
                    } else {
                        Ok(HeaderOpView::Append(n, text))
                    }
                },
            },
        }
    } else if op == "remove"@ {
        match name {
            None => Err(no_name),
            Some(n) => Ok(HeaderOpView::Remove(n)),
        }
    } else if op == "copy"@ {
        match trimmed_setting(m.from) {
            None => Err("copy op requires 'from'"@),
            Some(f) => match name {
                None => Err(no_name),
                Some(n) => Ok(
                    HeaderOpView::SetTo(
                        n,
                        match lookup(headers, ascii_lower_seq(f)) {
                            Some(x) => x,
                            None => Seq::empty(),
                        },
                    ),
                ),
            },
        }
    } else if op == "set_if_absent"@ {
        match name {
            None => Err(no_name),
            Some(n) => match lookup(headers, ascii_lower_seq(n)) {
                Some(x) => Ok(HeaderOpView::SetTo(n, x)),
                None => match value {
                    None => Err(no_value),
                    Some(v) => Ok(HeaderOpView::SetTo(n, render_with(v, input, headers, context))),
                },
            },
        }
    } else {
        Err("unsupported set-header op '"@ + op + "'"@)
    }
}

/// The trimmed, non-blank `name` of a mutation.
pub fn required_name(mutation: &HeaderMutation) -> (r: Result<String, NodeExecuteError>)
    ensures
        match trimmed_setting(mutation.name) {
            Some(n) => r matches Ok(s) && s@ == n,
            None => r matches Err(e) && e.spec_message() == "header op requires 'name'"@,
        },
{
    if let Some(name) = &mutation.name {
        let t = trim(name.as_str());
        if t.unicode_len() > 0 {
            return Ok(String::from_str(t));
        }
    }
    Err(NodeExecuteError::InvalidInput(String::from_str("header op requires 'name'")))
}

/// The trimmed, non-blank `value` of a mutation.
pub fn required_value(mutation: &HeaderMutation) -> (r: Result<&str, NodeExecuteError>)
    ensures
        match trimmed_setting(mutation.value) {
            Some(v) => r matches Ok(s) && s@ == v,
            None => r matches Err(e) && e.spec_message() == "header op requires 'value'"@,
        },
{
    if let Some(value) = &mutation.value {
        let t = trim(value.as_str());
        if t.unicode_len() > 0 {
            return Ok(t);
        }
    }
    Err(NodeExecuteError::InvalidInput(String::from_str("header op requires 'value'")))
}

/// The header operation for one mutation (see `header_op_outcome`).
pub fn build_header_op(
    mutation: &HeaderMutation,
    input: &RuntimeExecuteInput,
    headers: &Vec<(String, String)>,
    context: &Vec<(String, String)>,
) -> (r: Result<RuntimeHeaderOp, NodeExecuteError>)
    ensures
        match header_op_outcome(*mutation, *input, pairs_view(headers@), pairs_view(context@)) {
            Ok(v) => r matches Ok(op) && header_op_view(op) == v,
            Err(m) => r matches Err(e) && e.spec_message() == m,
        },
{
    let op = trim(mutation.op.as_str());
    if str_eq(op, "set") || str_eq(op, "append") {
        let name = match required_name(mutation) {
            Ok(n) => n,
            Err(e) => return Err(e),
        };
        let value = match required_value(mutation) {
            Ok(v) => v,
            Err(e) => return Err(e),
        };
        let text = render_template(value, input, headers, context);
        if str_eq(op, "set") {
            Ok(RuntimeHeaderOp::SetValue { name, value: text })
        } else {
            Ok(RuntimeHeaderOp::Append { name, value: text })
        }
    } else if str_eq(op, "remove") {
        let name = match required_name(mutation) {
            Ok(n) => n,
            Err(e) => return Err(e),
        };
        Ok(RuntimeHeaderOp::Remove { name })
    } else if str_eq(op, "copy") {
        let mut from: Option<&str> = None;
        if let Some(f) = &mutation.from {
            let t = trim(f.as_str());
            if t.unicode_len() > 0 {
                from = Some(t);
            }
        }
        let from = match from {
            Some(f) => f,
            None => {
                return Err(
                    NodeExecuteError::InvalidInput(String::from_str("copy op requires 'from'")),
                )
            },
        };
        let target = match required_name(mutation) {
            Ok(n) => n,
            Err(e) => return Err(e),
        };
        let key = lowercase_ascii(from);
        let copied = match lookup_exec(headers, key.as_str()) {
            Some(v) => v.clone(),
            None => String::new(),
        };
        Ok(RuntimeHeaderOp::SetValue { name: target, value: copied })
    } else if str_eq(op, "set_if_absent") {
        let name = match required_name(mutation) {
            Ok(n) => n,
            Err(e) => return Err(e),
        };
        let key = lowercase_ascii(name.as_str());
        match lookup_exec(headers, key.as_str()) {
            Some(existing) => Ok(RuntimeHeaderOp::SetValue { name, value: existing.clone() }),
            None => {
                let value = match required_value(mutation) {
                    Ok(v) => v,
                    Err(e) => return Err(e),
                };
                let text = render_template(value, input, headers, context);
                Ok(RuntimeHeaderOp::SetValue { name, value: text })
            },
        }
    } else {
        Err(NodeExecuteError::InvalidInput(cat3("unsupported set-header op '", op, "'")))
    }
}

/// The error of the mutation at index `k`, if it is refused.
pub open spec fn mutation_error(
    ms: Seq<HeaderMutation>,
    input: RuntimeExecuteInput,
    k: int,
) -> Option<Seq<char>> {
    match header_op_outcome(ms[k], input, header_map_of(input), context_map_of(input)) {
        Ok(_) => None,
        Err(e) => Some(e),
    }
}

/// The operation of the mutation at index `k`, when it is accepted.
pub open spec fn mutation_op(ms: Seq<HeaderMutation>, input: RuntimeExecuteInput, k: int) -> HeaderOpView {
    header_op_outcome(ms[k], input, header_map_of(input), context_map_of(input))->Ok_0
}

/// The optional log line: the configured message, rendered, unless blank.
pub open spec fn optional_log(message: Option<String>, input: RuntimeExecuteInput) -> Option<Seq<char>> {
    match message {
        Some(m) => if is_blank(m@) {
            None
        } else {
            Some(rendered(m@, input))
        },
        None => None,
    }
}

/// Runs the set-header node: each mutation, in order, becomes a header
/// operation; the first refused mutation refuses the whole input. A
/// configured, non-blank log message is rendered and logged.
pub fn execute(input: &RuntimeExecuteInput, config: &SetHeaderConfig) -> (r: Result<
    RuntimeExecuteOutput,
    NodeExecuteError,
>)
    ensures
        ({
            let ms = config.set_headers@;
            let check = |k: int| mutation_error(ms, *input, k);
            match first_error(ms.len(), check) {
                Some(e) => r matches Err(err) && err.spec_message() == e,
                None => r matches Ok(out) && {
                    &&& out.header_ops@.len() == ms.len()
                    &&& forall|k: int|
                        0 <= k < ms.len() ==> header_op_view(#[trigger] out.header_ops@[k])
                            == mutation_op(ms, *input, k)
                    &&& out.context_ops@.len() == 0
                    &&& out.path_rewrite is None
                    &&& out.next_port is None
                    &&& match optional_log(config.log_message, *input) {
                        Some(m) => out.logs@.len() == 1 && out.logs@[0].level
                            == RuntimeLogLevel::Info && out.logs@[0].message@ == m,
                        None => out.logs@.len() == 0,
                    }
                },
            }
        }),
{
    let headers = header_map(input);
    let context = context_map(input);
    let ms = &config.set_headers;
    let n = ms.len();
    let ghost check = |k: int| mutation_error(ms@, *input, k);
    let mut header_ops: Vec<RuntimeHeaderOp> = Vec::new();
    let mut i: usize = 0;
    while i < n
        invariant
            n == ms.len(),
            ms == &config.set_headers,
            i <= n,
            pairs_view(headers@) == header_map_of(*input),
            pairs_view(context@) == context_map_of(*input),
            check == (|k: int| mutation_error(ms@, *input, k)),
            first_error(i as nat, check) is None,
            header_ops@.len() == i,
            forall|k: int|
                0 <= k < i ==> header_op_view(#[trigger] header_ops@[k]) == mutation_op(
                    ms@,
                    *input,
                    k,
                ),
        decreases n - i,
    {
        match build_header_op(&ms[i], input, &headers, &context) {
            Ok(op) => {
                proof {
                    lemma_first_error_step(i as nat, check);
                }
                header_ops.push(op);
            },
            Err(e) => {
                proof {
                    lemma_first_error_step(i as nat, check);
                    lemma_first_error_prefix((i + 1) as nat, n as nat, check);
                }
                return Err(e);
            },
        }
        i = i + 1;
    }
    let mut logs = Vec::new();
    if let Some(message) = &config.log_message {
        if !is_blank_str(message.as_str()) {
            logs.push(info_log(render_template(message.as_str(), input, &headers, &context)));
        }
    }
    Ok(
        RuntimeExecuteOutput {
            context_ops: Vec::new(),
            header_ops,
            path_rewrite: None,
            next_port: None,
            logs,
        },
    )
}

} // verus!
