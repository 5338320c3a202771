//! The condition node: evaluates a small `&&`-joined expression over the
//! request's method, path and headers and routes to port `true` or `false`.
use vstd::prelude::*;
use crate::plugin_runtime_contract::{RuntimeContextPatchOp, RuntimeExecuteInput, RuntimeExecuteOutput, RuntimeLogLevel};
use crate::plugins::node::{find_header, header_lookup, info_log, set_context};
use crate::rewrite::split_all_exec;
use crate::text::{cat2, cat3, contains_seq, ends_with, is_blank, is_blank_str, split_all, split_once, split_once_exec, starts_with, str_contains, str_eq, strip_prefix_exec, strip_suffix_exec, trim, trim_seq};

verus! {

/// The node's configuration: the expression to evaluate.
#[derive(Debug, Clone, PartialEq, Eq)]
pub struct ConditionConfig {
    pub expr: Option<String>,
}

/// The text between matching `"` or `'` quotes that enclose all of `value`.
pub open spec fn quoted_inner(value: Seq<char>) -> Option<Seq<char>> {
    if value.len() < 2 {
        None
    } else if (value[0] == '"' && value.last() == '"') || (value[0] == '\'' && value.last()
        == '\'') {
        Some(value.subrange(1, value.len() - 1))
    } else {
        None
    }
}

/// The quoted value of `<field> == "<value>"`.
pub open spec fn eq_value(clause: Seq<char>, field: Seq<char>) -> Option<Seq<char>> {
    match split_once(clause, "=="@) {
        Some((lhs, rhs)) => if trim_seq(lhs) == field {
            quoted_inner(trim_seq(rhs))
        } else {
            None
        },
        None => None,
    }
}

/// The header name and quoted value of `ctx.header.<name> == "<value>"`.
pub open spec fn header_eq_value(clause: Seq<char>) -> Option<(Seq<char>, Seq<char>)> {
    match split_once(clause, "=="@) {
        Some((lhs, rhs)) => {
            let l = trim_seq(lhs);
            let p = "ctx.header."@;
            if starts_with(l, p) {
                match quoted_inner(trim_seq(rhs)) {
                    Some(v) => Some((trim_seq(l.subrange(p.len() as int, l.len() as int)), v)),
                    None => None,
                }
            } else {
                None
            }
        },
        None => None,
    }
}

/// The quoted argument of `<field>.contains("<value>")`.
pub open spec fn contains_value(clause: Seq<char>, field: Seq<char>) -> Option<Seq<char>> {
    let c = trim_seq(clause);
    let p = field + ".contains("@;
    let s = ")"@;
    if starts_with(c, p) {
        let rest = c.subrange(p.len() as int, c.len() as int);
        if ends_with(rest, s) {
            quoted_inner(trim_seq(rest.subrange(0, rest.len() - s.len())))
        } else {
            None
        }
    } else {
        None
    }
}

/// What one clause says of the request: `method == ".."`, `path == ".."`,
/// `ctx.header.<name> == ".."` (first header of that name, ASCII case
/// ignored) or `path.contains("..")`, tried in that order; `None` when the
/// clause is none of these.
pub open spec fn clause_result(clause: Seq<char>, input: RuntimeExecuteInput) -> Option<bool> {
    if let Some(expected) = eq_value(clause, "method"@) {
        Some(input.request_method@ == expected)
    } else if let Some(expected) = eq_value(clause, "path"@) {
        Some(input.current_path@ == expected)
    } else if let Some((name, expected)) = header_eq_value(clause) {
        Some(header_lookup(input.request_headers@, name) == Some(expected))
    } else if let Some(expected) = contains_value(clause, "path"@) {
        Some(contains_seq(input.current_path@, expected))
    } else {
        None
    }
}

/// An expression holds when it is not blank and every `&&`-separated clause
/// (trimmed) holds; a clause that cannot be read does not hold.
pub open spec fn expression_holds(expr: Seq<char>, input: RuntimeExecuteInput) -> bool {
    !is_blank(expr) && forall|k: int|
        0 <= k < split_all(expr, "&&"@).len() ==> clause_result(
            trim_seq(#[trigger] split_all(expr, "&&"@)[k]),
            input,
        ) == Some(true)
}

/// The inner text of a string quoted with `"` or `'` at both ends.
pub fn parse_quoted(value: &str) -> (r: Option<String>)
    ensures
        match r {
            Some(v) => quoted_inner(value@) == Some(v@),
            None => quoted_inner(value@) is None,
        },
{
    let n = value.unicode_len();
    if n < 2 {
        return None;
    }
    let first = value.get_char(0);
    let last = value.get_char(n - 1);
    if (first == '"' && last == '"') || (first == '\'' && last == '\'') {
        Some(String::from_str(value.substring_char(1, n - 1)))
    } else {
        None
    }
}

/// The quoted value of a clause `<field> == "<value>"`.
pub fn parse_eq(clause: &str, field: &str) -> (r: Option<String>)
    ensures
        match r {
            Some(v) => eq_value(clause@, field@) == Some(v@),
            None => eq_value(clause@, field@) is None,
        },
{
    let (lhs, rhs) = match split_once_exec(clause, "==") {
        Some(parts) => parts,
        None => return None,
    };
    if !str_eq(trim(lhs), field) {
        return None;
    }
    parse_quoted(trim(rhs))
}

/// The header name and quoted value of a clause `ctx.header.<name> == "<value>"`.
pub fn parse_header_eq(clause: &str) -> (r: Option<(String, String)>)
    ensures
        match r {
            Some((n, v)) => header_eq_value(clause@) == Some((n@, v@)),
            None => header_eq_value(clause@) is None,
        },
{
    let (lhs, rhs) = match split_once_exec(clause, "==") {
        Some(parts) => parts,
        None => return None,
    };
    let lhs = trim(lhs);
    let name = match strip_prefix_exec(lhs, "ctx.header.") {
        Some(rest) => String::from_str(trim(rest)),
        None => return None,
    };
    match parse_quoted(trim(rhs)) {
        Some(v) => Some((name, v)),
        None => None,
    }
}

/// The quoted argument of a clause `<field>.contains("<value>")`.
pub fn parse_contains(clause: &str, field: &str) -> (r: Option<String>)
    ensures
        match r {
            Some(v) => contains_value(clause@, field@) == Some(v@),
            None => contains_value(clause@, field@) is None,
        },
{
    let prefix = cat2(field, ".contains(");
    let c = trim(clause);
    let rest = match strip_prefix_exec(c, prefix.as_str()) {
        Some(rest) => rest,
        None => return None,
    };
    let inner = match strip_suffix_exec(rest, ")") {
        Some(inner) => inner,
        None => return None,
    };
    parse_quoted(trim(inner))
}

/// What one clause says of the request (see `clause_result`).
pub fn evaluate_clause(clause: &str, input: &RuntimeExecuteInput) -> (r: Option<bool>)
    ensures
        r == clause_result(clause@, *input),
{
    if let Some(expected) = parse_eq(clause, "method") {
        return Some(str_eq(input.request_method.as_str(), expected.as_str()));
    }
    if let Some(expected) = parse_eq(clause, "path") {
        return Some(str_eq(input.current_path.as_str(), expected.as_str()));
    }
    if let Some((header_name, expected)) = parse_header_eq(clause) {
        let actual = find_header(&input.request_headers, header_name.as_str());
        return Some(
            match actual {
                Some(v) => str_eq(v, expected.as_str()),
                None => false,
            },
        );
    }
    if let Some(expected) = parse_contains(clause, "path") {
        return Some(str_contains(input.current_path.as_str(), expected.as_str()));
    }
    None
}

/// Whether the expression holds of the request (see `expression_holds`).
pub fn evaluate_expression(expr: &str, input: &RuntimeExecuteInput) -> (r: bool)
    ensures
        r == expression_holds(expr@, *input),
{
    if is_blank_str(expr) {
        return false;
    }
    proof {
        reveal_strlit("&&");
    }
    let parts = split_all_exec(expr, "&&");
    let n = parts.len();
    let mut i: usize = 0;
    while i < n
        invariant
            n == parts.len(),
            i <= n,
            n == split_all(expr@, "&&"@).len(),
            forall|k: int| 0 <= k < n ==> #[trigger] parts@[k]@ == split_all(expr@, "&&"@)[k],
            forall|k: int|
                0 <= k < i ==> clause_result(
                    trim_seq(#[trigger] split_all(expr@, "&&"@)[k]),
                    *input,
                ) == Some(true),
        decreases n - i,
    {
        let r = evaluate_clause(trim(parts[i]), input);
        match r {
            Some(true) => {},
            _ => {
                proof {
                    assert(parts@[i as int]@ == split_all(expr@, "&&"@)[i as int]);
                }
                return false;
            },
        }
        i = i + 1;
    }
    true
}

/// The output of the condition node for an expression and its outcome.
pub open spec fn condition_output(expr: Seq<char>, matched: bool, out: RuntimeExecuteOutput) -> bool {
    let word = if matched { "true"@ } else { "false"@ };
    &&& out.context_ops@.len() == 1
    &&& out.context_ops@[0] matches RuntimeContextPatchOp::SetValue { key, value } && key@
        == "condition.last_result"@ && value@ == word
    &&& out.header_ops@.len() == 0
    &&& out.path_rewrite is None
    &&& out.next_port matches Some(p) && p@ == word
    &&& out.logs@.len() == 1
    &&& out.logs@[0].level == RuntimeLogLevel::Info
    &&& out.logs@[0].message@ == "condition-evaluator evaluated expr '"@ + expr + "' => "@ + word
}

/// Runs the condition node: the configured expression (empty when unset) is
/// evaluated, recorded under `condition.last_result`, logged, and chooses
/// port `true` or `false`.
pub fn execute(input: &RuntimeExecuteInput, config: &ConditionConfig) -> (r: RuntimeExecuteOutput)
    ensures
        ({
            let expr = match config.expr {
                Some(e) => e@,
                None => Seq::<char>::empty(),
            };
            condition_output(expr, expression_holds(expr, *input), r)
        }),
{
    let expr: String = match &config.expr {
        Some(e) => e.clone(),
        None => String::new(),
    };
    let matched = evaluate_expression(expr.as_str(), input);
    let word: &str = if matched {
        "true"
    } else {
        "false"
    };
    let op = set_context("condition.last_result", String::from_str(word));
    let message = cat3("condition-evaluator evaluated expr '", expr.as_str(), "' => ");
    let message = cat2(message.as_str(), word);
    let mut context_ops = Vec::new();
    context_ops.push(op);
    let mut logs = Vec::new();
    logs.push(info_log(message));
    RuntimeExecuteOutput {
        context_ops,
        header_ops: Vec::new(),
        path_rewrite: None,
        next_port: Some(String::from_str(word)),
        logs,
    }
}

} // verus!
