//! What the node plugins share: their error, the request's headers and
//! workflow context as ordered maps, and `${..}` template rendering.
use vstd::prelude::*;
use crate::plugin_runtime_contract::{
    RuntimeContextPatchOp, RuntimeExecuteInput, RuntimeLogEntry, RuntimeLogLevel,
    RuntimeNodeConfig, RuntimePluginManifest, RuntimeRequestHeader,
};
use crate::rewrite::replace_all_exec;
use crate::sorted_pairs::{collect_pairs, collected, pairs_view};
use crate::text::{
    ascii_lower_seq, cat3, eq_ignore_ascii_case, lowercase_ascii, replace_all,
    str_eq_ignore_ascii_case,
};

verus! {

/// Why a node plugin refused its input.
#[derive(Debug, Clone, PartialEq, Eq)]
pub enum NodeExecuteError {
    InvalidInput(String),
}

impl NodeExecuteError {
    pub open spec fn spec_message(&self) -> Seq<char> {
        match self {
            NodeExecuteError::InvalidInput(m) => m@,
        }
    }
}

/// Each request header as (lower-cased name, value), in request order.
pub open spec fn header_pairs(hs: Seq<RuntimeRequestHeader>) -> Seq<(Seq<char>, Seq<char>)> {
    hs.map_values(|h: RuntimeRequestHeader| (ascii_lower_seq(h.name@), h.value@))
}

/// Each workflow context entry as (key, value), in order.
pub open spec fn context_pairs(ctx: Seq<(String, String)>) -> Seq<(Seq<char>, Seq<char>)> {
    pairs_view(ctx)
}

/// The request headers as an ordered map from lower-cased name to the value
/// of the last header of that name.
pub open spec fn header_map_of(input: RuntimeExecuteInput) -> Seq<(Seq<char>, Seq<char>)> {
    collected(header_pairs(input.request_headers@))
}

/// The workflow context as an ordered map (a later entry overwrites an
/// earlier one with the same key).
pub open spec fn context_map_of(input: RuntimeExecuteInput) -> Seq<(Seq<char>, Seq<char>)> {
    collected(context_pairs(input.workflow_context@))
}

/// `s` with each `${<prefix><key>}` replaced by its value, one entry after
/// the other in the order listed.
pub open spec fn replace_entries(
    s: Seq<char>,
    prefix: Seq<char>,
    entries: Seq<(Seq<char>, Seq<char>)>,
) -> Seq<char>
    decreases entries.len(),
{
    if entries.len() == 0 {
        s
    } else {
        replace_entries(
            replace_all(s, prefix + entries[0].0 + "}"@, entries[0].1),
            prefix,
            entries.drop_first(),
        )
    }
}

/// A template rendered against a request: `${path}`, `${method}`,
/// `${provider.id}` and `${model.id}` are replaced in that order, then
/// `${header.<name>}` for each header and `${ctx.<key>}` for each context
/// entry, in key order.
pub open spec fn render_with(
    template: Seq<char>,
    input: RuntimeExecuteInput,
    headers: Seq<(Seq<char>, Seq<char>)>,
    context: Seq<(Seq<char>, Seq<char>)>,
) -> Seq<char> {
    let a = replace_all(template, "${path}"@, input.current_path@);
    let b = replace_all(a, "${method}"@, input.request_method@);
    let c = replace_all(b, "${provider.id}"@, input.selected_provider_id@);
    let d = replace_all(c, "${model.id}"@, input.selected_model_id@);
    replace_entries(replace_entries(d, "${header."@, headers), "${ctx."@, context)
}

/// A template rendered against a request, with its own headers and context.
pub open spec fn rendered(template: Seq<char>, input: RuntimeExecuteInput) -> Seq<char> {
    render_with(template, input, header_map_of(input), context_map_of(input))
}

/// The request headers keyed by lower-cased name; the last header of a name
/// wins, and the names come out in increasing order.
pub fn header_map(input: &RuntimeExecuteInput) -> (r: Vec<(String, String)>)
    ensures
        pairs_view(r@) == header_map_of(*input),
{
    let hs = &input.request_headers;
    let n = hs.len();
    let mut pairs: Vec<(String, String)> = Vec::new();
    let mut i: usize = 0;
    while i < n
        invariant
            n == hs.len(),
            hs == &input.request_headers,
            i <= n,
            pairs_view(pairs@) == header_pairs(hs@).take(i as int),
        decreases n - i,
    {
        let name = lowercase_ascii(hs[i].name.as_str());
        let value = hs[i].value.clone();
        let ghost before = pairs@;
        pairs.push((name, value));
        proof {
            assert(pairs@ == before.push((name, value)));
            assert(pairs_view(before).len() == i);
            assert(pairs_view(pairs@).len() == i + 1);
            assert(header_pairs(hs@)[i as int] == (name@, value@));
            assert forall|k: int| 0 <= k < i + 1 implies #[trigger] pairs_view(pairs@)[k]
                == header_pairs(hs@).take(i + 1)[k] by {
                if k < i {
                    assert(pairs_view(pairs@)[k] == pairs_view(before)[k]);
                }
            }
            assert(pairs_view(pairs@) =~= header_pairs(hs@).take(i + 1));
        }
        i = i + 1;
    }
    proof {
        assert(header_pairs(hs@).take(n as int) =~= header_pairs(hs@));
    }
    collect_pairs(pairs)
}

/// The workflow context as an ordered map; a later entry overwrites an
/// earlier one with the same key.
pub fn context_map(input: &RuntimeExecuteInput) -> (r: Vec<(String, String)>)
    ensures
        pairs_view(r@) == context_map_of(*input),
{
    let ctx = &input.workflow_context;
    let n = ctx.len();
    let mut pairs: Vec<(String, String)> = Vec::new();
    let mut i: usize = 0;
    while i < n
        invariant
            n == ctx.len(),
            ctx == &input.workflow_context,
            i <= n,
            pairs_view(pairs@) == pairs_view(ctx@).take(i as int),
        decreases n - i,
    {
        let k = ctx[i].0.clone();
        let v = ctx[i].1.clone();
        let ghost before = pairs@;
        pairs.push((k, v));
        proof {
            assert(pairs@ == before.push((k, v)));
            assert(pairs_view(before).len() == i);
            assert(pairs_view(pairs@).len() == i + 1);
            assert(pairs_view(ctx@)[i as int] == (k@, v@));
            assert forall|j: int| 0 <= j < i + 1 implies #[trigger] pairs_view(pairs@)[j]
                == pairs_view(ctx@).take(i + 1)[j] by {
                if j < i {
                    assert(pairs_view(pairs@)[j] == pairs_view(before)[j]);
                }
            }
            assert(pairs_view(pairs@) =~= pairs_view(ctx@).take(i + 1));
        }
        i = i + 1;
    }
    proof {
        assert(pairs_view(ctx@).take(n as int) =~= pairs_view(ctx@));
    }
    collect_pairs(pairs)
}

fn replace_each(s: String, prefix: &str, entries: &Vec<(String, String)>) -> (r: String)
    ensures
        r@ == replace_entries(s@, prefix@, pairs_view(entries@)),
{
    let n = entries.len();
    let mut out = s;
    let mut i: usize = 0;
    proof {
        assert(pairs_view(entries@).skip(0) =~= pairs_view(entries@));
    }
    while i < n
        invariant
            n == entries.len(),
            i <= n,
            replace_entries(out@, prefix@, pairs_view(entries@).skip(i as int)) == replace_entries(
                s@,
                prefix@,
                pairs_view(entries@),
            ),
        decreases n - i,
    {
        let token = cat3(prefix, entries[i].0.as_str(), "}");
        proof {
            let rest = pairs_view(entries@).skip(i as int);
            assert(rest[0] == (entries@[i as int].0@, entries@[i as int].1@));
            assert(rest.drop_first() =~= pairs_view(entries@).skip(i + 1));
        }
        out = replace_all_exec(out.as_str(), token.as_str(), entries[i].1.as_str());
        i = i + 1;
    }
    proof {
        assert(pairs_view(entries@).skip(n as int) =~= Seq::<(Seq<char>, Seq<char>)>::empty());
    }
    out
}

/// `template` rendered against the request, its ordered header map and its
/// ordered context map (see `render_with`).
pub fn render_template(
    template: &str,
    input: &RuntimeExecuteInput,
    headers: &Vec<(String, String)>,
    context: &Vec<(String, String)>,
) -> (r: String)
    ensures
        r@ == render_with(template@, *input, pairs_view(headers@), pairs_view(context@)),
{
    let a = replace_all_exec(template, "${path}", input.current_path.as_str());
    let b = replace_all_exec(a.as_str(), "${method}", input.request_method.as_str());
    let c = replace_all_exec(b.as_str(), "${provider.id}", input.selected_provider_id.as_str());
    let d = replace_all_exec(c.as_str(), "${model.id}", input.selected_model_id.as_str());
    let e = replace_each(d, "${header.", headers);
    replace_each(e, "${ctx.", context)
}

/// A context operation setting `key` to `value`.
pub fn set_context(key: &str, value: String) -> (r: RuntimeContextPatchOp)
    ensures
        r matches RuntimeContextPatchOp::SetValue { key: k, value: v } && k@ == key@ && v
            == value,
{
    RuntimeContextPatchOp::SetValue { key: String::from_str(key), value }
}

/// An info-level log entry.
pub fn info_log(message: String) -> (r: RuntimeLogEntry)
    ensures
        r.level == RuntimeLogLevel::Info,
        r.message == message,
{
    RuntimeLogEntry { level: RuntimeLogLevel::Info, message }
}

/// The value of the first header whose name equals `name` up to ASCII case.
pub open spec fn header_lookup(hs: Seq<RuntimeRequestHeader>, name: Seq<char>) -> Option<
    Seq<char>,
>
    decreases hs.len(),
{
    if hs.len() == 0 {
        None
    } else if eq_ignore_ascii_case(hs[0].name@, name) {
        Some(hs[0].value@)
    } else {
        header_lookup(hs.drop_first(), name)
    }
}

/// The value of the first request header named `name` (ASCII case ignored).
pub fn find_header<'a>(hs: &'a Vec<RuntimeRequestHeader>, name: &str) -> (r: Option<&'a str>)
    ensures
        match r {
            Some(v) => header_lookup(hs@, name@) == Some(v@),
            None => header_lookup(hs@, name@) is None,
        },
{
    let n = hs.len();
    let mut i: usize = 0;
    proof {
        assert(hs@.skip(0) =~= hs@);
    }
    while i < n
        invariant
            n == hs.len(),
            i <= n,
            header_lookup(hs@, name@) == header_lookup(hs@.skip(i as int), name@),
        decreases n - i,
    {
        proof {
            assert(hs@.skip(i as int)[0] == hs@[i as int]);
            assert(hs@.skip(i as int).drop_first() =~= hs@.skip(i + 1));
        }
        if str_eq_ignore_ascii_case(hs[i].name.as_str(), name) {
            return Some(hs[i].value.as_str());
        }
        i = i + 1;
    }
    None
}

/// A request with nothing in it: no method, path, headers, context or
/// selection, and a node configuration with an empty manifest, no grants
/// and no settings.
pub fn empty_input() -> (r: RuntimeExecuteInput)
    ensures
        r.request_method@.len() == 0,
        r.current_path@.len() == 0,
        r.request_headers@.len() == 0,
        r.workflow_context@.len() == 0,
        r.selected_provider_id@.len() == 0,
        r.selected_model_id@.len() == 0,
        r.node_config.manifest.id@.len() == 0,
        r.node_config.manifest.name@.len() == 0,
        r.node_config.manifest.version@.len() == 0,
        r.node_config.manifest.description@.len() == 0,
        r.node_config.manifest.supported_output_ports@.len() == 0,
        r.node_config.manifest.default_config_schema_hints_json is None,
        r.node_config.manifest.capabilities@.len() == 0,
        r.node_config.grants@.len() == 0,
        r.node_config.config_json is None,
{
    RuntimeExecuteInput {
        request_method: String::new(),
        current_path: String::new(),
        request_headers: Vec::new(),
        workflow_context: Vec::new(),
        selected_provider_id: String::new(),
        selected_model_id: String::new(),
        node_config: RuntimeNodeConfig {
            manifest: RuntimePluginManifest {
                id: String::new(),
                name: String::new(),
                version: String::new(),
                description: String::new(),
                supported_output_ports: Vec::new(),
                default_config_schema_hints_json: None,
                capabilities: Vec::new(),
            },
            grants: Vec::new(),
            config_json: None,
        },
    }
}

} // verus!
