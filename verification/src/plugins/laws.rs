//! What template rendering, header mutations and source preparation
//! guarantee.
use vstd::prelude::*;
use crate::plugin_runtime_contract::{RuntimeExecuteInput, RuntimeLogLevel, RuntimeRequestHeader};
use crate::plugins::log_step::level_named;
use crate::plugins::condition_evaluator::clause_result;
use crate::plugins::rewrite_path::{rewritten_path, RewritePathConfig};
use crate::plugins::http_fetch::{url_authority, url_host, url_path, url_port, url_port_text, url_rest};
use crate::plugins::intent_classifier::intent_of;
use crate::plugins::code_runner::{normalized_source, trim_start_seq};
use crate::plugins::node::{context_map_of, header_lookup, header_map_of, render_with, replace_entries};
use crate::plugins::set_header::{header_op_outcome, HeaderMutation, HeaderOpView};
use crate::sorted_pairs::lookup;
use crate::text::{
    ascii_lower_seq, contains_seq, eq_ignore_ascii_case, find_first, is_blank,
    ends_with, is_whitespace_char, lemma_find_from, lemma_trim_padded, lemma_trim_unchanged,
    split_once, starts_with, lemma_trim_idempotent, occurs_at, replace_all,
    trim_seq,
};

verus! {

proof fn lemma_absent_pattern_unchanged(s: Seq<char>, from: Seq<char>, to: Seq<char>)
    requires
        !contains_seq(s, from),
    ensures
        replace_all(s, from, to) == s,
{
    lemma_find_from(s, from, 0);
    if let Some(i) = find_first(s, from) {
        assert(occurs_at(s, from, i));
    }
}

proof fn lemma_prefix_absent(s: Seq<char>, p: Seq<char>, q: Seq<char>)
    requires
        !contains_seq(s, p),
    ensures
        !contains_seq(s, p + q),
{
    if contains_seq(s, p + q) {
        let i = choose|i: int| occurs_at(s, p + q, i);
        assert(s.subrange(i, i + p.len()) =~= (p + q).subrange(0, p.len() as int));
        assert((p + q).subrange(0, p.len() as int) =~= p);
        assert(occurs_at(s, p, i));
    }
}

proof fn lemma_entries_leave_plain_text(
    s: Seq<char>,
    rest: Seq<char>,
    entries: Seq<(Seq<char>, Seq<char>)>,
)
    requires
        !contains_seq(s, "${"@),
    ensures
        replace_entries(s, "${"@ + rest, entries) == s,
    decreases entries.len(),
{
    if entries.len() > 0 {
        let token = "${"@ + rest + entries[0].0 + "}"@;
        assert(token =~= "${"@ + (rest + entries[0].0 + "}"@));
        lemma_prefix_absent(s, "${"@, rest + entries[0].0 + "}"@);
        lemma_absent_pattern_unchanged(s, token, entries[0].1);
        lemma_entries_leave_plain_text(s, rest, entries.drop_first());
    }
}

/// A template without `${` renders as itself, whatever the request.
pub proof fn lemma_plain_template_renders_unchanged(
    template: Seq<char>,
    input: RuntimeExecuteInput,
    headers: Seq<(Seq<char>, Seq<char>)>,
    context: Seq<(Seq<char>, Seq<char>)>,
)
    requires
        !contains_seq(template, "${"@),
    ensures
        render_with(template, input, headers, context) == template,
{
    reveal_strlit("${");
    reveal_strlit("${path}");
    reveal_strlit("${method}");
    reveal_strlit("${provider.id}");
    reveal_strlit("${model.id}");
    reveal_strlit("${header.");
    reveal_strlit("${ctx.");
    reveal_strlit("header.");
    reveal_strlit("ctx.");
    reveal_strlit("path}");
    reveal_strlit("method}");
    reveal_strlit("provider.id}");
    reveal_strlit("model.id}");
    assert("${path}"@ =~= "${"@ + "path}"@);
    assert("${method}"@ =~= "${"@ + "method}"@);
    assert("${provider.id}"@ =~= "${"@ + "provider.id}"@);
    assert("${model.id}"@ =~= "${"@ + "model.id}"@);
    assert("${header."@ =~= "${"@ + "header."@);
    assert("${ctx."@ =~= "${"@ + "ctx."@);
    lemma_prefix_absent(template, "${"@, "path}"@);
    lemma_absent_pattern_unchanged(template, "${path}"@, input.current_path@);
    lemma_prefix_absent(template, "${"@, "method}"@);
    lemma_absent_pattern_unchanged(template, "${method}"@, input.request_method@);
    lemma_prefix_absent(template, "${"@, "provider.id}"@);
    lemma_absent_pattern_unchanged(template, "${provider.id}"@, input.selected_provider_id@);
    lemma_prefix_absent(template, "${"@, "model.id}"@);
    lemma_absent_pattern_unchanged(template, "${model.id}"@, input.selected_model_id@);
    lemma_entries_leave_plain_text(template, "header."@, headers);
    lemma_entries_leave_plain_text(template, "ctx."@, context);
}

/// The header that an operation names.
pub open spec fn op_header_name(op: HeaderOpView) -> Seq<char> {
    match op {
        HeaderOpView::SetTo(n, _) => n,
        HeaderOpView::Append(n, _) => n,
        HeaderOpView::Remove(n) => n,
    }
}

/// Every header operation that a mutation gives names a header that is not
/// empty and has no surrounding whitespace.
pub proof fn lemma_header_ops_name_trimmed_headers(
    m: HeaderMutation,
    input: RuntimeExecuteInput,
    headers: Seq<(Seq<char>, Seq<char>)>,
    context: Seq<(Seq<char>, Seq<char>)>,
)
    requires
        header_op_outcome(m, input, headers, context) is Ok,
    ensures
        ({
            let n = op_header_name(header_op_outcome(m, input, headers, context)->Ok_0);
            n.len() > 0 && trim_seq(n) == n
        }),
{
    let name = m.name->0@;
    if m.name is Some && trim_seq(name).len() > 0 {
        lemma_trim_idempotent(name);
    }
}

/// A script that, after its leading whitespace `ws`, starts with
/// `export function run` is evaluated as that whitespace, `function run`
/// and the rest of the script.
pub proof fn lemma_exported_run_is_unexported(ws: Seq<char>, rest: Seq<char>)
    requires
        forall|i: int| 0 <= i < ws.len() ==> is_whitespace_char(#[trigger] ws[i]),
    ensures
        normalized_source(ws + "export function run"@ + rest) == ws + "function run"@ + rest,
{
    reveal_strlit("export function run");
    reveal_strlit("function run");
    let p = "export function run"@;
    let s = ws + p + rest;
    let a = ws.len() as int;
    assert(s[a] == 'e');
    assert(!is_whitespace_char('e'));
    assert forall|j: int| 0 <= j < a implies is_whitespace_char(#[trigger] s[j]) by {
        assert(s[j] == ws[j]);
    }
    let a0 = choose|x: int|
        0 <= x < s.len() && !is_whitespace_char(s[x]) && forall|j: int|
            0 <= j < x ==> is_whitespace_char(#[trigger] s[j]);
    assert(!is_whitespace_char(s[a]));
    if a0 < a {
        assert(is_whitespace_char(s[a0]));
    }
    if a < a0 {
        assert(is_whitespace_char(s[a]));
    }
    assert(trim_start_seq(s) == s.subrange(a, s.len() as int));
    assert(s.subrange(a, s.len() as int).subrange(0, p.len() as int) =~= p);
    assert(starts_with(trim_start_seq(s), p));
    assert(s.subrange(a, a + p.len()) =~= p);
    assert(occurs_at(s, p, a));
    lemma_find_from(s, p, 0);
    let i = find_first(s, p)->0;
    if i < a {
        assert(s.subrange(i, i + p.len())[0] == p[0]);
        assert(s[i] == 'e');
    }
    assert(i == a);
    assert(s.subrange(0, a) =~= ws);
    assert(s.subrange(a + p.len(), s.len() as int) =~= rest);
}

/// `k` is the first header named `name` (ASCII case ignored).
pub open spec fn first_header_named(hs: Seq<RuntimeRequestHeader>, name: Seq<char>, k: int) -> bool {
    &&& 0 <= k < hs.len()
    &&& eq_ignore_ascii_case(hs[k].name@, name)
    &&& forall|j: int| 0 <= j < k ==> !eq_ignore_ascii_case((#[trigger] hs[j]).name@, name)
}

/// The value looked up for a header name is that of the first header of
/// that name.
pub proof fn lemma_header_lookup_first(hs: Seq<RuntimeRequestHeader>, name: Seq<char>, k: int)
    requires
        first_header_named(hs, name, k),
    ensures
        header_lookup(hs, name) == Some(hs[k].value@),
    decreases k,
{
    if k > 0 {
        assert(!eq_ignore_ascii_case(hs[0].name@, name));
        assert forall|j: int| 0 <= j < k - 1 implies !eq_ignore_ascii_case(
            (#[trigger] hs.drop_first()[j]).name@,
            name,
        ) by {
            assert(hs.drop_first()[j] == hs[j + 1]);
        }
        assert(hs.drop_first()[k - 1] == hs[k]);
        lemma_header_lookup_first(hs.drop_first(), name, k - 1);
    }
}

/// A request without a header of a name has no value for it.
pub proof fn lemma_header_lookup_absent(hs: Seq<RuntimeRequestHeader>, name: Seq<char>)
    requires
        forall|j: int| 0 <= j < hs.len() ==> !eq_ignore_ascii_case((#[trigger] hs[j]).name@, name),
    ensures
        header_lookup(hs, name) is None,
    decreases hs.len(),
{
    if hs.len() > 0 {
        assert(!eq_ignore_ascii_case(hs[0].name@, name));
        assert forall|j: int| 0 <= j < hs.drop_first().len() implies !eq_ignore_ascii_case(
            (#[trigger] hs.drop_first()[j]).name@,
            name,
        ) by {
            assert(hs.drop_first()[j] == hs[j + 1]);
        }
        lemma_header_lookup_absent(hs.drop_first(), name);
    }
}

/// A header name that can stand in a header clause: not empty, no
/// surrounding whitespace, and no `=`.
pub open spec fn clause_header_name(name: Seq<char>) -> bool {
    &&& name.len() > 0
    &&& !is_whitespace_char(name[0])
    &&& !is_whitespace_char(name.last())
    &&& forall|i: int| 0 <= i < name.len() ==> name[i] != '='
}

/// The clause `ctx.header.<name> == <q><v><q>`, with whitespace `w1` before
/// and `w2` after the `==`, and `q` a single or double quote.
pub open spec fn header_clause(name: Seq<char>, w1: Seq<char>, w2: Seq<char>, q: char, v: Seq<char>) -> Seq<
    char,
> {
    "ctx.header."@ + name + w1 + "=="@ + w2 + seq![q] + v + seq![q]
}

proof fn lemma_header_clause_reads(
    name: Seq<char>,
    w1: Seq<char>,
    w2: Seq<char>,
    q: char,
    v: Seq<char>,
    input: RuntimeExecuteInput,
)
    requires
        clause_header_name(name),
        is_blank(w1),
        is_blank(w2),
        q == '\'' || q == '"',
    ensures
        clause_result(header_clause(name, w1, w2, q, v), input) == Some(
            header_lookup(input.request_headers@, name) == Some(v),
        ),
{
    reveal_strlit("ctx.header.");
    reveal_strlit("==");
    reveal_strlit("method");
    reveal_strlit("path");
    let p = "ctx.header."@;
    let eq = "=="@;
    let l = p + name;
    let lhs = l + w1;
    let quoted = seq![q] + v + seq![q];
    let rhs = w2 + quoted;
    let clause = header_clause(name, w1, w2, q, v);
    assert(clause =~= lhs + eq + rhs);
    // The first `==` is the one after the name.
    assert forall|j: int| 0 <= j < lhs.len() implies #[trigger] lhs[j] != '=' by {
        if j < p.len() {
            assert(lhs[j] == p[j]);
        } else if j < l.len() {
            assert(lhs[j] == name[j - p.len()]);
        } else {
            assert(lhs[j] == w1[j - l.len()]);
            assert(is_whitespace_char(w1[j - l.len()]));
        }
    }
    let n = lhs.len() as int;
    assert(clause.subrange(n, n + 2) =~= eq);
    assert(occurs_at(clause, eq, n));
    lemma_find_from(clause, eq, 0);
    let i = find_first(clause, eq)->0;
    if i < n {
        assert(clause.subrange(i, i + 2)[0] == eq[0]);
        assert(clause[i] == lhs[i]);
    }
    assert(i == n);
    assert(clause.subrange(0, n) =~= lhs);
    assert(clause.subrange(n + 2, clause.len() as int) =~= rhs);
    // Both sides trim to their text.
    assert(l[0] == 'c');
    assert(l.last() == name.last());
    lemma_trim_padded(Seq::empty(), l, w1);
    assert(Seq::<char>::empty() + l + w1 =~= lhs);
    assert(quoted[0] == q);
    assert(quoted.last() == q);
    assert(!is_whitespace_char('\''));
    assert(!is_whitespace_char('"'));
    lemma_trim_padded(w2, quoted, Seq::empty());
    assert(w2 + quoted + Seq::<char>::empty() =~= rhs);
    assert(trim_seq(lhs) == l);
    assert(trim_seq(rhs) == quoted);
    assert(l != "method"@) by {
        assert(l[0] != "method"@[0]);
    }
    assert(l != "path"@) by {
        assert(l[0] != "path"@[0]);
    }
    assert(l.subrange(0, p.len() as int) =~= p);
    assert(quoted.subrange(1, quoted.len() - 1) =~= v);
    assert(l.subrange(p.len() as int, l.len() as int) =~= name);
    lemma_trim_unchanged(name);
}

/// A header clause holds exactly when the first header of that name (ASCII
/// case ignored) has the quoted value: the clause is read, and it is false
/// when that header's value differs.
pub proof fn lemma_header_clause_compares_value(
    name: Seq<char>,
    w1: Seq<char>,
    w2: Seq<char>,
    q: char,
    v: Seq<char>,
    input: RuntimeExecuteInput,
    k: int,
)
    requires
        clause_header_name(name),
        is_blank(w1),
        is_blank(w2),
        q == '\'' || q == '"',
        first_header_named(input.request_headers@, name, k),
    ensures
        clause_result(header_clause(name, w1, w2, q, v), input) == Some(
            input.request_headers@[k].value@ == v,
        ),
{
    lemma_header_clause_reads(name, w1, w2, q, v, input);
    lemma_header_lookup_first(input.request_headers@, name, k);
}

/// A header clause on a header that the request does not carry is false.
pub proof fn lemma_header_clause_without_header(
    name: Seq<char>,
    w1: Seq<char>,
    w2: Seq<char>,
    q: char,
    v: Seq<char>,
    input: RuntimeExecuteInput,
)
    requires
        clause_header_name(name),
        is_blank(w1),
        is_blank(w2),
        q == '\'' || q == '"',
        forall|j: int|
            0 <= j < input.request_headers@.len() ==> !eq_ignore_ascii_case(
                (#[trigger] input.request_headers@[j]).name@,
                name,
            ),
    ensures
        clause_result(header_clause(name, w1, w2, q, v), input) == Some(false),
{
    lemma_header_clause_reads(name, w1, w2, q, v, input);
    lemma_header_lookup_absent(input.request_headers@, name);
}

/// A request whose path contains `/chat` has intent `chat`, whatever its
/// headers say.
pub proof fn lemma_chat_path_means_chat(input: RuntimeExecuteInput, i: int)
    requires
        occurs_at(input.current_path@, "/chat"@, i),
    ensures
        intent_of(input) == "chat"@,
{
}

/// A request whose first `x-intent` header (ASCII case ignored) is `chat`
/// has intent `chat`, whatever its path.
pub proof fn lemma_chat_header_means_chat(input: RuntimeExecuteInput, k: int)
    requires
        first_header_named(input.request_headers@, "x-intent"@, k),
        input.request_headers@[k].value@ == "chat"@,
    ensures
        intent_of(input) == "chat"@,
{
    lemma_header_lookup_first(input.request_headers@, "x-intent"@, k);
}

/// A request whose path does not contain `/chat` and which carries no
/// `x-intent` header has intent `default`.
pub proof fn lemma_plain_request_is_default(input: RuntimeExecuteInput)
    requires
        forall|i: int| !occurs_at(input.current_path@, "/chat"@, i),
        forall|j: int|
            0 <= j < input.request_headers@.len() ==> !eq_ignore_ascii_case(
                (#[trigger] input.request_headers@[j]).name@,
                "x-intent"@,
            ),
    ensures
        intent_of(input) == "default"@,
{
    lemma_header_lookup_absent(input.request_headers@, "x-intent"@);
}

/// A request whose path does not contain `/chat` and whose first `x-intent`
/// header is something other than `chat` has intent `default`.
pub proof fn lemma_other_header_intent_is_default(input: RuntimeExecuteInput, k: int)
    requires
        forall|i: int| !occurs_at(input.current_path@, "/chat"@, i),
        first_header_named(input.request_headers@, "x-intent"@, k),
        input.request_headers@[k].value@ != "chat"@,
    ensures
        intent_of(input) == "default"@,
{
    lemma_header_lookup_first(input.request_headers@, "x-intent"@, k);
}

/// The name under which a log step's configuration sets each level.
pub open spec fn level_label(l: RuntimeLogLevel) -> Seq<char> {
    match l {
        RuntimeLogLevel::Debug => "debug"@,
        RuntimeLogLevel::Info => "info"@,
        RuntimeLogLevel::Warn => "warn"@,
        RuntimeLogLevel::Error => "error"@,
    }
}

/// A configured level names the level of that name, whitespace around it
/// aside; no setting means `info`.
pub proof fn lemma_level_names_read_back(l: RuntimeLogLevel, w1: Seq<char>, w2: Seq<char>)
    requires
        is_blank(w1),
        is_blank(w2),
    ensures
        level_named(Some(w1 + level_label(l) + w2)) == l,
        level_named(None) == RuntimeLogLevel::Info,
{
    reveal_strlit("debug");
    reveal_strlit("info");
    reveal_strlit("warn");
    reveal_strlit("error");
    let x = level_label(l);
    assert(x.len() > 0);
    assert(!is_whitespace_char(x[0]));
    assert(!is_whitespace_char(x.last()));
    lemma_trim_padded(w1, x, w2);
    assert("warn"@[0] != "debug"@[0]);
    assert("error"@[0] != "debug"@[0]);
    assert("error"@[0] != "warn"@[0]);
    assert("info"@[0] != "debug"@[0]);
    assert("info"@[0] != "warn"@[0]);
    assert("info"@[0] != "error"@[0]);
}

/// A clause `<l> == <q><v><q>` (whitespace `w1`, `w2` around `==`) splits
/// at the `==` after `l` when `l` has no `=`, and its two sides trim to `l`
/// and the quoted value.
proof fn lemma_eq_clause_sides(l: Seq<char>, w1: Seq<char>, w2: Seq<char>, q: char, v: Seq<char>)
    requires
        l.len() > 0,
        !is_whitespace_char(l[0]),
        !is_whitespace_char(l.last()),
        forall|i: int| 0 <= i < l.len() ==> l[i] != '=',
        is_blank(w1),
        is_blank(w2),
        q == '\'' || q == '"',
    ensures
        split_once(l + w1 + "=="@ + w2 + seq![q] + v + seq![q], "=="@) == Some(
            (l + w1, w2 + (seq![q] + v + seq![q])),
        ),
        trim_seq(l + w1) == l,
        trim_seq(w2 + (seq![q] + v + seq![q])) == seq![q] + v + seq![q],
{
    reveal_strlit("==");
    let eq = "=="@;
    let lhs = l + w1;
    let quoted = seq![q] + v + seq![q];
    let rhs = w2 + quoted;
    let clause = l + w1 + eq + w2 + seq![q] + v + seq![q];
    assert(clause =~= lhs + eq + rhs);
    assert forall|j: int| 0 <= j < lhs.len() implies #[trigger] lhs[j] != '=' by {
        if j < l.len() {
            assert(lhs[j] == l[j]);
        } else {
            assert(lhs[j] == w1[j - l.len()]);
            assert(is_whitespace_char(w1[j - l.len()]));
        }
    }
    let n = lhs.len() as int;
    assert(clause.subrange(n, n + 2) =~= eq);
    assert(occurs_at(clause, eq, n));
    lemma_find_from(clause, eq, 0);
    let i = find_first(clause, eq)->0;
    if i < n {
        assert(clause.subrange(i, i + 2)[0] == eq[0]);
        assert(clause[i] == lhs[i]);
    }
    assert(i == n);
    assert(clause.subrange(0, n) =~= lhs);
    assert(clause.subrange(n + 2, clause.len() as int) =~= rhs);
    lemma_trim_padded(Seq::empty(), l, w1);
    assert(Seq::<char>::empty() + l + w1 =~= lhs);
    assert(!is_whitespace_char('\''));
    assert(!is_whitespace_char('"'));
    lemma_trim_padded(w2, quoted, Seq::empty());
    assert(w2 + quoted + Seq::<char>::empty() =~= rhs);
}

/// A clause `method == <q><v><q>` holds exactly when the request's method
/// is `v`.
pub proof fn lemma_method_clause_compares_method(
    w1: Seq<char>,
    w2: Seq<char>,
    q: char,
    v: Seq<char>,
    input: RuntimeExecuteInput,
)
    requires
        is_blank(w1),
        is_blank(w2),
        q == '\'' || q == '"',
    ensures
        clause_result("method"@ + w1 + "=="@ + w2 + seq![q] + v + seq![q], input) == Some(
            input.request_method@ == v,
        ),
{
    reveal_strlit("method");
    lemma_eq_clause_sides("method"@, w1, w2, q, v);
    let quoted = seq![q] + v + seq![q];
    assert(quoted.subrange(1, quoted.len() - 1) =~= v);
}

/// A clause `path == <q><v><q>` holds exactly when the request's path is
/// `v`.
pub proof fn lemma_path_clause_compares_path(
    w1: Seq<char>,
    w2: Seq<char>,
    q: char,
    v: Seq<char>,
    input: RuntimeExecuteInput,
)
    requires
        is_blank(w1),
        is_blank(w2),
        q == '\'' || q == '"',
    ensures
        clause_result("path"@ + w1 + "=="@ + w2 + seq![q] + v + seq![q], input) == Some(
            input.current_path@ == v,
        ),
{
    reveal_strlit("method");
    reveal_strlit("path");
    lemma_eq_clause_sides("path"@, w1, w2, q, v);
    assert("path"@ != "method"@) by {
        assert("path"@[0] != "method"@[0]);
    }
    let quoted = seq![q] + v + seq![q];
    assert(quoted.subrange(1, quoted.len() - 1) =~= v);
}

/// A clause `path.contains(<q><v><q>)` holds exactly when the request's
/// path contains `v`, for a `v` without `=`.
pub proof fn lemma_contains_clause_searches_path(
    w1: Seq<char>,
    w2: Seq<char>,
    q: char,
    v: Seq<char>,
    input: RuntimeExecuteInput,
)
    requires
        is_blank(w1),
        is_blank(w2),
        q == '\'' || q == '"',
        forall|i: int| 0 <= i < v.len() ==> v[i] != '=',
    ensures
        clause_result(
            "path.contains("@ + w1 + seq![q] + v + seq![q] + w2 + ")"@,
            input,
        ) == Some(contains_seq(input.current_path@, v)),
{
    reveal_strlit("path.contains(");
    reveal_strlit("path");
    reveal_strlit(".contains(");
    reveal_strlit(")");
    reveal_strlit("==");
    let p = "path.contains("@;
    assert("path"@ + ".contains("@ =~= p);
    let quoted = seq![q] + v + seq![q];
    let inner = w1 + quoted + w2;
    let clause = "path.contains("@ + w1 + seq![q] + v + seq![q] + w2 + ")"@;
    assert(clause =~= p + inner + ")"@);
    // The clause has no `==`, so it is neither an equality nor a header clause.
    assert forall|j: int| 0 <= j < clause.len() implies #[trigger] clause[j] != '=' by {
        if j < p.len() {
            assert(clause[j] == p[j]);
        } else if j < p.len() + w1.len() {
            assert(clause[j] == w1[j - p.len()]);
            assert(is_whitespace_char(w1[j - p.len()]));
        } else if j == p.len() + w1.len() || j == p.len() + w1.len() + v.len() + 1 {
            assert(clause[j] == q);
        } else if j < p.len() + w1.len() + v.len() + 1 {
            assert(clause[j] == v[j - p.len() - w1.len() - 1]);
        } else if j < clause.len() - 1 {
            assert(clause[j] == w2[j - p.len() - w1.len() - v.len() - 2]);
            assert(is_whitespace_char(w2[j - p.len() - w1.len() - v.len() - 2]));
        } else {
            assert(clause[j] == ')');
        }
    }
    lemma_find_from(clause, "=="@, 0);
    if let Some(i) = find_first(clause, "=="@) {
        assert(occurs_at(clause, "=="@, i));
        assert(clause.subrange(i, i + 2)[0] == '=');
        assert(clause[i] == '=');
    }
    assert(split_once(clause, "=="@) is None);
    // It reads as a `path.contains(..)` clause.
    assert(clause[0] == 'p');
    assert(clause.last() == ')');
    lemma_trim_unchanged(clause);
    assert(clause.subrange(0, p.len() as int) =~= p);
    let rest = clause.subrange(p.len() as int, clause.len() as int);
    assert(rest =~= inner + ")"@);
    assert(rest.subrange(rest.len() - 1, rest.len() as int) =~= ")"@);
    assert(ends_with(rest, ")"@));
    assert(rest.subrange(0, rest.len() - 1) =~= inner);
    assert(!is_whitespace_char('\''));
    assert(!is_whitespace_char('"'));
    lemma_trim_padded(w1, quoted, w2);
    assert(quoted.subrange(1, quoted.len() - 1) =~= v);
}

/// The text of an optional setting, when it is present and not blank.
pub open spec fn given(v: Option<String>) -> bool {
    v matches Some(s) && trim_seq(s@).len() > 0
}

/// The trimmed text of a present setting.
pub open spec fn given_text(v: Option<String>) -> Seq<char> {
    trim_seq(v->0@)
}

/// What each header mutation does: `set` and `append` set or append the
/// rendered value, `remove` removes, `copy` sets the value of the header
/// named `from` (empty when there is none), and `set_if_absent` keeps an
/// existing header's value and otherwise sets the rendered value; every op
/// but an unknown one needs a name.
pub proof fn lemma_header_mutation_ops(
    m: HeaderMutation,
    input: RuntimeExecuteInput,
    headers: Seq<(Seq<char>, Seq<char>)>,
    context: Seq<(Seq<char>, Seq<char>)>,
)
    ensures
        ({
            let op = trim_seq(m.op@);
            let out = header_op_outcome(m, input, headers, context);
            let n = given_text(m.name);
            let v = render_with(given_text(m.value), input, headers, context);
            &&& op == "set"@ && given(m.name) && given(m.value) ==> out == Ok::<
                HeaderOpView,
                Seq<char>,
            >(HeaderOpView::SetTo(n, v))
            &&& op == "append"@ && given(m.name) && given(m.value) ==> out == Ok::<
                HeaderOpView,
                Seq<char>,
            >(HeaderOpView::Append(n, v))
            &&& op == "remove"@ && given(m.name) ==> out == Ok::<HeaderOpView, Seq<char>>(
                HeaderOpView::Remove(n),
            )
            &&& op == "copy"@ && given(m.name) && given(m.from) ==> out == Ok::<
                HeaderOpView,
                Seq<char>,
            >(
                HeaderOpView::SetTo(
                    n,
                    match lookup(headers, ascii_lower_seq(given_text(m.from))) {
                        Some(x) => x,
                        None => Seq::empty(),
                    },
                ),
            )
            &&& op == "set_if_absent"@ && given(m.name) && lookup(headers, ascii_lower_seq(n))
                is Some ==> out == Ok::<HeaderOpView, Seq<char>>(
                HeaderOpView::SetTo(n, lookup(headers, ascii_lower_seq(n))->0),
            )
            &&& op == "set_if_absent"@ && given(m.name) && lookup(headers, ascii_lower_seq(n))
                is None && given(m.value) ==> out == Ok::<HeaderOpView, Seq<char>>(
                HeaderOpView::SetTo(n, v),
            )
            &&& (op == "set"@ || op == "append"@ || op == "remove"@ || op == "set_if_absent"@)
                && !given(m.name) ==> out == Err::<HeaderOpView, Seq<char>>(
                "header op requires 'name'"@,
            )
            &&& op != "set"@ && op != "append"@ && op != "remove"@ && op != "copy"@ && op
                != "set_if_absent"@ ==> out == Err::<HeaderOpView, Seq<char>>(
                "unsupported set-header op '"@ + op + "'"@,
            )
        }),
{
    reveal_strlit("set");
    reveal_strlit("append");
    reveal_strlit("remove");
    reveal_strlit("copy");
    reveal_strlit("set_if_absent");
    assert("append"@[0] != "set"@[0]);
    assert("remove"@[0] != "set"@[0]);
    assert("remove"@[0] != "append"@[0]);
    assert("copy"@[0] != "set"@[0]);
    assert("copy"@[0] != "append"@[0]);
    assert("copy"@[0] != "remove"@[0]);
    assert("set_if_absent"@.len() != "set"@.len());
    assert("set_if_absent"@[0] != "append"@[0]);
    assert("set_if_absent"@[0] != "remove"@[0]);
    assert("set_if_absent"@[0] != "copy"@[0]);
}

/// Text without the character `c` splits at the `c` that follows it.
proof fn lemma_split_at_char(a: Seq<char>, c: char, b: Seq<char>)
    requires
        forall|i: int| 0 <= i < a.len() ==> a[i] != c,
    ensures
        split_once(a + seq![c] + b, seq![c]) == Some((a, b)),
{
    let s = a + seq![c] + b;
    let sep = seq![c];
    let n = a.len() as int;
    assert(s.subrange(n, n + 1) =~= sep);
    assert(occurs_at(s, sep, n));
    lemma_find_from(s, sep, 0);
    let i = find_first(s, sep)->0;
    if i < n {
        assert(s.subrange(i, i + 1)[0] == c);
        assert(s[i] == a[i]);
    }
    assert(i == n);
    assert(s.subrange(0, n) =~= a);
    assert(s.subrange(n + 1, s.len() as int) =~= b);
}

/// Text without the character `c` does not split at it.
proof fn lemma_split_without_char(a: Seq<char>, c: char)
    requires
        forall|i: int| 0 <= i < a.len() ==> a[i] != c,
    ensures
        split_once(a, seq![c]) is None,
{
    lemma_find_from(a, seq![c], 0);
    if let Some(i) = find_first(a, seq![c]) {
        assert(a.subrange(i, i + 1)[0] == c);
        assert(a[i] == c);
    }
}

/// A URL `http://<host>:<port>/<rest>` reads as that host, that port text
/// and the path `/<rest>`, for a host and port without `:` or `/`.
pub proof fn lemma_http_url_with_port(h: Seq<char>, p: Seq<char>, rest: Seq<char>)
    requires
        forall|i: int| 0 <= i < h.len() ==> h[i] != ':' && h[i] != '/',
        forall|i: int| 0 <= i < p.len() ==> p[i] != '/',
    ensures
        ({
            let r = url_rest("http://"@ + h + ":"@ + p + "/"@ + rest);
            &&& url_host(url_authority(r)) == h
            &&& url_port_text(url_authority(r)) == Some(p)
            &&& url_path(r) == "/"@ + rest
        }),
{
    reveal_strlit("http://");
    reveal_strlit(":");
    reveal_strlit("/");
    assert(":"@ =~= seq![':']);
    assert("/"@ =~= seq!['/']);
    let auth = h + seq![':'] + p;
    let raw = "http://"@ + h + ":"@ + p + "/"@ + rest;
    assert(url_rest(raw) =~= auth + seq!['/'] + rest);
    assert forall|i: int| 0 <= i < auth.len() implies auth[i] != '/' by {
        if i < h.len() {
            assert(auth[i] == h[i]);
        } else if i > h.len() {
            assert(auth[i] == p[i - h.len() - 1]);
        }
    }
    lemma_split_at_char(auth, '/', rest);
    lemma_split_at_char(h, ':', p);
}

/// A URL `http://<host>/<rest>` reads as that host, no port text (so port
/// 80) and the path `/<rest>`, for a host without `:` or `/`.
pub proof fn lemma_http_url_without_port(h: Seq<char>, rest: Seq<char>)
    requires
        forall|i: int| 0 <= i < h.len() ==> h[i] != ':' && h[i] != '/',
    ensures
        ({
            let r = url_rest("http://"@ + h + "/"@ + rest);
            &&& url_host(url_authority(r)) == h
            &&& url_port_text(url_authority(r)) is None
            &&& url_port(url_authority(r)) == 80
            &&& url_path(r) == "/"@ + rest
        }),
{
    reveal_strlit("http://");
    reveal_strlit(":");
    reveal_strlit("/");
    assert(":"@ =~= seq![':']);
    assert("/"@ =~= seq!['/']);
    let raw = "http://"@ + h + "/"@ + rest;
    assert(url_rest(raw) =~= h + seq!['/'] + rest);
    assert forall|i: int| 0 <= i < h.len() implies h[i] != '/' by {}
    lemma_split_at_char(h, '/', rest);
    assert forall|i: int| 0 <= i < h.len() implies h[i] != ':' by {}
    lemma_split_without_char(h, ':');
}

/// A URL `http://<authority>` without a path reads with the path `/`.
pub proof fn lemma_http_url_without_path(a: Seq<char>)
    requires
        forall|i: int| 0 <= i < a.len() ==> a[i] != '/',
    ensures
        url_authority(url_rest("http://"@ + a)) == a,
        url_path(url_rest("http://"@ + a)) == "/"@,
{
    reveal_strlit("http://");
    reveal_strlit("/");
    assert("/"@ =~= seq!['/']);
    assert(url_rest("http://"@ + a) =~= a);
    lemma_split_without_char(a, '/');
}

/// A configured rewrite without placeholders sets the path to the
/// configured text, whitespace around it aside; a blank or missing one
/// leaves the path alone.
pub proof fn lemma_plain_rewrite_sets_the_path(
    config: RewritePathConfig,
    input: RuntimeExecuteInput,
    w1: Seq<char>,
    x: Seq<char>,
    w2: Seq<char>,
)
    requires
        is_blank(w1),
        is_blank(w2),
    ensures
        config.path_rewrite matches Some(p) && p@ == w1 + x + w2 && x.len() > 0
            && !is_whitespace_char(x[0]) && !is_whitespace_char(x.last()) && !contains_seq(
            x,
            "${"@,
        ) ==> rewritten_path(config, input) == Some(x),
        config.path_rewrite is None ==> rewritten_path(config, input) is None,
        config.path_rewrite matches Some(p) && is_blank(p@) ==> rewritten_path(config, input)
            is None,
{
    if let Some(p) = config.path_rewrite {
        if p@ == w1 + x + w2 && x.len() > 0 && !is_whitespace_char(x[0]) && !is_whitespace_char(
            x.last(),
        ) && !contains_seq(x, "${"@) {
            lemma_trim_padded(w1, x, w2);
            lemma_plain_template_renders_unchanged(
                x,
                input,
                header_map_of(input),
                context_map_of(input),
            );
        }
        if is_blank(p@) {
            assert(trim_seq(p@) =~= Seq::<char>::empty());
        }
    }
}

} // verus!
