//! The remote policy router node: picks an output port from a routing policy
//! read from a local file and/or fetched over plain HTTP, by a routing
//! header, then by path prefix, then by the policy's default port.
use vstd::prelude::*;
use crate::plugin_runtime_contract::{RuntimeContextPatchOp, RuntimeExecuteInput, RuntimeExecuteOutput, RuntimeHeaderOp, RuntimeLogEntry, RuntimeLogLevel};
use crate::plugins::node::{find_header, header_lookup, info_log, set_context};
use crate::text::{cat5, cat7, owned, starts_with, str_eq, str_starts_with};

verus! {

/// The node's configuration.
#[derive(Debug, Clone, PartialEq, Eq)]
pub struct RouterConfig {
    pub policy_file: Option<String>,
    pub policy_url: Option<String>,
    pub match_header: Option<String>,
    pub fallback_port: Option<String>,
}

/// A route taken when the request path starts with `prefix`.
#[derive(Debug, Clone, PartialEq, Eq)]
pub struct PathPrefixRoute {
    pub prefix: String,
    pub port: String,
}

/// A routing policy. `header_routes` maps a routing-header value to a port;
/// it comes from a JSON object, so each key occurs once.
#[derive(Debug, Clone, PartialEq, Eq)]
pub struct PolicyDocument {
    pub header_routes: Vec<(String, String)>,
    pub path_prefix_routes: Vec<PathPrefixRoute>,
    pub default_port: Option<String>,
}

/// A parsed `http://host[:port][/path]` URL.
#[derive(Debug, Clone, PartialEq, Eq)]
pub struct SimpleHttpUrl {
    pub host: String,
    pub port: u16,
    pub path: String,
}

/// The chosen port, the key that chose it and where the rule came from.
#[derive(Debug, Clone, PartialEq, Eq)]
pub struct Decision {
    pub port: String,
    pub route_key: String,
    pub policy_source: String,
}

/// How reading or fetching a policy went.
#[derive(Debug, Clone, PartialEq, Eq)]
pub enum PolicyFetch {
    /// Read and parsed.
    Loaded(PolicyDocument),
    /// Could not be read (or fetched); the error's text.
    Unavailable(String),
    /// Read, but not a valid policy document; the parser's error text.
    Invalid(String),
}

/// The port that `routes` gives `key`.
pub open spec fn route_for(routes: Seq<(String, String)>, key: Seq<char>) -> Option<Seq<char>>
    decreases routes.len(),
{
    if routes.len() == 0 {
        None
    } else if routes[0].0@ == key {
        Some(routes[0].1@)
    } else {
        route_for(routes.drop_first(), key)
    }
}

/// The first path-prefix route whose prefix starts `path`.
pub open spec fn prefix_route_for(routes: Seq<PathPrefixRoute>, path: Seq<char>) -> Option<
    PathPrefixRoute,
>
    decreases routes.len(),
{
    if routes.len() == 0 {
        None
    } else if starts_with(path, routes[0].prefix@) {
        Some(routes[0])
    } else {
        prefix_route_for(routes.drop_first(), path)
    }
}

/// The header route of an optional policy.
pub open spec fn policy_header_route(p: Option<PolicyDocument>, key: Seq<char>) -> Option<Seq<char>> {
    match p {
        Some(doc) => route_for(doc.header_routes@, key),
        None => None,
    }
}

/// The path-prefix route of an optional policy.
pub open spec fn policy_prefix_route(p: Option<PolicyDocument>, path: Seq<char>) -> Option<
    PathPrefixRoute,
> {
    match p {
        Some(doc) => prefix_route_for(doc.path_prefix_routes@, path),
        None => None,
    }
}

/// The default port of an optional policy.
pub open spec fn policy_default(p: Option<PolicyDocument>) -> Option<Seq<char>> {
    match p {
        Some(doc) => match doc.default_port {
            Some(d) => Some(d@),
            None => None,
        },
        None => None,
    }
}

/// The routing decision as (port, route key, policy source): the routing
/// header's value (first header named `match_header`, ASCII case ignored)
/// looked up in the remote then the local header routes; else the first
/// matching path prefix of the remote then the local policy; else the
/// remote then the local default port; else the fallback port.
pub open spec fn decision_of(
    input: RuntimeExecuteInput,
    match_header: Seq<char>,
    local: Option<PolicyDocument>,
    remote: Option<PolicyDocument>,
    fallback: Seq<char>,
) -> (Seq<char>, Seq<char>, Seq<char>) {
    let hv = header_lookup(input.request_headers@, match_header);
    let path = input.current_path@;
    if hv is Some && policy_header_route(remote, hv->0) is Some {
        (policy_header_route(remote, hv->0)->0, hv->0, "remote"@)
    } else if hv is Some && policy_header_route(local, hv->0) is Some {
        (policy_header_route(local, hv->0)->0, hv->0, "local"@)
    } else if let Some(route) = policy_prefix_route(remote, path) {
        (route.port@, route.prefix@, "remote"@)
    } else if let Some(route) = policy_prefix_route(local, path) {
        (route.port@, route.prefix@, "local"@)
    } else if let Some(p) = policy_default(remote) {
        (p, "default"@, "remote"@)
    } else if let Some(p) = policy_default(local) {
        (p, "default"@, "local"@)
    } else {
        (fallback, "fallback"@, "fallback"@)
    }
}

/// The policy a borrowed optional policy points to.
pub open spec fn owned_policy(p: Option<&PolicyDocument>) -> Option<PolicyDocument> {
    match p {
        Some(d) => Some(*d),
        None => None,
    }
}

fn header_route<'a>(policy: Option<&'a PolicyDocument>, key: &str) -> (r: Option<&'a String>)
    ensures
        match r {
            Some(p) => policy_header_route(owned_policy(policy), key@) == Some(p@),
            None => policy_header_route(owned_policy(policy), key@) is None,
        },
{
    let doc = match policy {
        Some(d) => d,
        None => return None,
    };
    let routes = &doc.header_routes;
    let n = routes.len();
    let mut i: usize = 0;
    proof {
        assert(routes@.skip(0) =~= routes@);
    }
    while i < n
        invariant
            n == routes.len(),
            i <= n,
            route_for(routes@, key@) == route_for(routes@.skip(i as int), key@),
            owned_policy(policy) == Some(*doc),
            routes@ == doc.header_routes@,
        decreases n - i,
    {
        proof {
            assert(routes@.skip(i as int)[0] == routes@[i as int]);
            assert(routes@.skip(i as int).drop_first() =~= routes@.skip(i + 1));
        }
        if str_eq(routes[i].0.as_str(), key) {
            return Some(&routes[i].1);
        }
        i = i + 1;
    }
    None
}

/// The first path-prefix route of `policy` whose prefix starts `path`.
pub fn match_path_prefix<'a>(policy: &'a PolicyDocument, path: &str) -> (r: Option<
    &'a PathPrefixRoute,
>)
    ensures
        match r {
            Some(route) => prefix_route_for(policy.path_prefix_routes@, path@) == Some(*route),
            None => prefix_route_for(policy.path_prefix_routes@, path@) is None,
        },
{
    let routes = &policy.path_prefix_routes;
    let n = routes.len();
    let mut i: usize = 0;
    proof {
        assert(routes@.skip(0) =~= routes@);
    }
    while i < n
        invariant
            n == routes.len(),
            i <= n,
            prefix_route_for(routes@, path@) == prefix_route_for(routes@.skip(i as int), path@),
            routes@ == policy.path_prefix_routes@,
        decreases n - i,
    {
        proof {
            assert(routes@.skip(i as int)[0] == routes@[i as int]);
            assert(routes@.skip(i as int).drop_first() =~= routes@.skip(i + 1));
        }
        if str_starts_with(path, routes[i].prefix.as_str()) {
            return Some(&routes[i]);
        }
        i = i + 1;
    }
    None
}

fn decision(port: &str, route_key: &str, source: &str) -> (r: Decision)
    ensures
        r.port@ == port@,
        r.route_key@ == route_key@,
        r.policy_source@ == source@,
{
    Decision { port: owned(port), route_key: owned(route_key), policy_source: owned(source) }
}

/// Chooses the output port for a request (see `decision_of`).
pub fn choose_port(
    input: &RuntimeExecuteInput,
    match_header: &str,
    local_policy: Option<&PolicyDocument>,
    remote_policy: Option<&PolicyDocument>,
    fallback_port: &str,
) -> (r: Decision)
    ensures
        (r.port@, r.route_key@, r.policy_source@) == decision_of(
            *input,
            match_header@,
            owned_policy(local_policy),
            owned_policy(remote_policy),
            fallback_port@,
        ),
{
    let header_value = find_header(&input.request_headers, match_header);
    if let Some(route_key) = header_value {
        if let Some(port) = header_route(remote_policy, route_key) {
            return decision(port.as_str(), route_key, "remote");
        }
        if let Some(port) = header_route(local_policy, route_key) {
            return decision(port.as_str(), route_key, "local");
        }
    }
    let path = input.current_path.as_str();
    if let Some(policy) = remote_policy {
        if let Some(route) = match_path_prefix(policy, path) {
            return decision(route.port.as_str(), route.prefix.as_str(), "remote");
        }
    }
    if let Some(policy) = local_policy {
        if let Some(route) = match_path_prefix(policy, path) {
            return decision(route.port.as_str(), route.prefix.as_str(), "local");
        }
    }
    if let Some(policy) = remote_policy {
        if let Some(port) = &policy.default_port {
            return decision(port.as_str(), "default", "remote");
        }
    }
    if let Some(policy) = local_policy {
        if let Some(port) = &policy.default_port {
            return decision(port.as_str(), "default", "local");
        }
    }
    decision(fallback_port, "fallback", "fallback")
}

/// The log line and policy that a policy read gives: `what` names the
/// policy (`local` or `remote`), `verb` the failed access (`read` or
/// `fetch`), `place` the file or URL.
pub open spec fn policy_load_log(
    what: Seq<char>,
    verb: Seq<char>,
    place: Seq<char>,
    fetched: PolicyFetch,
) -> (RuntimeLogLevel, Seq<char>) {
    match fetched {
        PolicyFetch::Loaded(_) => (
            RuntimeLogLevel::Info,
            "loaded "@ + what + " policy from '"@ + place + "'"@,
        ),
        PolicyFetch::Invalid(e) => (
            RuntimeLogLevel::Warn,
            "failed to parse "@ + what + " policy '"@ + place + "': "@ + e@,
        ),
        PolicyFetch::Unavailable(e) => (
            RuntimeLogLevel::Warn,
            "failed to "@ + verb + " "@ + what + " policy '"@ + place + "': "@ + e@,
        ),
    }
}

fn record_policy(
    what: &str,
    verb: &str,
    place: &str,
    fetched: PolicyFetch,
    logs: &mut Vec<RuntimeLogEntry>,
) -> (r: Option<PolicyDocument>)
    ensures
        final(logs)@.len() == old(logs)@.len() + 1,
        final(logs)@.take(old(logs)@.len() as int) == old(logs)@,
        (final(logs)@.last().level, final(logs)@.last().message@) == policy_load_log(
            what@,
            verb@,
            place@,
            fetched,
        ),
        r == (match fetched {
            PolicyFetch::Loaded(doc) => Some(doc),
            _ => None,
        }),
{
    let ghost before = logs@;
    let ghost f = fetched;
    let r = match fetched {
        PolicyFetch::Loaded(doc) => {
            let m = cat5("loaded ", what, " policy from '", place, "'");
            logs.push(RuntimeLogEntry { level: RuntimeLogLevel::Info, message: m });
            Some(doc)
        },
        PolicyFetch::Invalid(e) => {
            let m = cat7("failed to parse ", what, " policy '", place, "': ", e.as_str(), "");
            logs.push(RuntimeLogEntry { level: RuntimeLogLevel::Warn, message: m });
            proof {
                reveal_strlit("");
                assert(m@ =~= "failed to parse "@ + what@ + " policy '"@ + place@ + "': "@ + e@);
            }
            None
        },
        PolicyFetch::Unavailable(e) => {
            let a = cat5("failed to ", verb, " ", what, " policy '");
            let m = cat5(a.as_str(), place, "': ", e.as_str(), "");
            logs.push(RuntimeLogEntry { level: RuntimeLogLevel::Warn, message: m });
            proof {
                reveal_strlit("");
                assert(m@ =~= "failed to "@ + verb@ + " "@ + what@ + " policy '"@ + place@ + "': "@
                    + e@);
            }
            None
        },
    };
    proof {
        assert(logs@.take(before.len() as int) =~= before);
    }
    r
}

/// The local policy after reading the file at `path`, with the log line
/// that reports it.
pub fn load_local_policy(path: &str, fetched: PolicyFetch, logs: &mut Vec<RuntimeLogEntry>) -> (r:
    Option<PolicyDocument>)
    ensures
        final(logs)@.len() == old(logs)@.len() + 1,
        final(logs)@.take(old(logs)@.len() as int) == old(logs)@,
        (final(logs)@.last().level, final(logs)@.last().message@) == policy_load_log(
            "local"@,
            "read"@,
            path@,
            fetched,
        ),
        r == (match fetched {
            PolicyFetch::Loaded(doc) => Some(doc),
            _ => None,
        }),
{
    record_policy("local", "read", path, fetched, logs)
}

/// The remote policy after fetching `url`, with the log line that reports it.
pub fn load_remote_policy(url: &str, fetched: PolicyFetch, logs: &mut Vec<RuntimeLogEntry>) -> (r:
    Option<PolicyDocument>)
    ensures
        final(logs)@.len() == old(logs)@.len() + 1,
        final(logs)@.take(old(logs)@.len() as int) == old(logs)@,
        (final(logs)@.last().level, final(logs)@.last().message@) == policy_load_log(
            "remote"@,
            "fetch"@,
            url@,
            fetched,
        ),
        r == (match fetched {
            PolicyFetch::Loaded(doc) => Some(doc),
            _ => None,
        }),
{
    record_policy("remote", "fetch", url, fetched, logs)
}

/// The value of an optional setting, or `default` when it is unset.
pub open spec fn setting_or(v: Option<String>, default: Seq<char>) -> Seq<char> {
    match v {
        Some(s) => s@,
        None => default,
    }
}

/// Runs the router with the policies that were loaded (and the log lines of
/// loading them): the decision is recorded in the context (`route_key`,
/// `policy_source`) and in the `x-policy-source` and `x-route-key` headers,
/// logged, and its port taken. The routing header defaults to `x-tenant`,
/// the fallback port to `default`.
pub fn execute(
    input: &RuntimeExecuteInput,
    config: &RouterConfig,
    local_policy: Option<PolicyDocument>,
    remote_policy: Option<PolicyDocument>,
    logs: Vec<RuntimeLogEntry>,
) -> (r: RuntimeExecuteOutput)
    ensures
        ({
            let d = decision_of(
                *input,
                setting_or(config.match_header, "x-tenant"@),
                local_policy,
                remote_policy,
                setting_or(config.fallback_port, "default"@),
            );
            &&& r.context_ops@.len() == 2
            &&& r.context_ops@[0] matches RuntimeContextPatchOp::SetValue { key, value } && key@
                == "route_key"@ && value@ == d.1
            &&& r.context_ops@[1] matches RuntimeContextPatchOp::SetValue { key, value } && key@
                == "policy_source"@ && value@ == d.2
            &&& r.header_ops@.len() == 2
            &&& r.header_ops@[0] matches RuntimeHeaderOp::SetValue { name, value } && name@
                == "x-policy-source"@ && value@ == d.2
            &&& r.header_ops@[1] matches RuntimeHeaderOp::SetValue { name, value } && name@
                == "x-route-key"@ && value@ == d.1
            &&& r.path_rewrite is None
            &&& r.next_port matches Some(p) && p@ == d.0
            &&& r.logs@.len() == logs@.len() + 1
            &&& r.logs@.take(logs@.len() as int) == logs@
            &&& r.logs@.last().level == RuntimeLogLevel::Info
            &&& r.logs@.last().message@ == "remote-policy-router chose port '"@ + d.0
                + "' using route key '"@ + d.1 + "' from "@ + d.2
        }),
{
    let fallback_port = match &config.fallback_port {
        Some(p) => p.clone(),
        None => String::from_str("default"),
    };
    let match_header = match &config.match_header {
        Some(h) => h.clone(),
        None => String::from_str("x-tenant"),
    };
    let d = choose_port(
        input,
        match_header.as_str(),
        local_policy.as_ref(),
        remote_policy.as_ref(),
        fallback_port.as_str(),
    );
    let message = cat7(
        "remote-policy-router chose port '",
        d.port.as_str(),
        "' using route key '",
        d.route_key.as_str(),
        "' from ",
        d.policy_source.as_str(),
        "",
    );
    proof {
        reveal_strlit("");
        assert(message@ =~= "remote-policy-router chose port '"@ + d.port@
            + "' using route key '"@ + d.route_key@ + "' from "@ + d.policy_source@);
    }
    let mut logs = logs;
    let ghost before = logs@;
    logs.push(info_log(message));
    proof {
        assert(logs@.take(before.len() as int) =~= before);
    }
    let mut context_ops = Vec::new();
    context_ops.push(set_context("route_key", d.route_key.clone()));
    context_ops.push(set_context("policy_source", d.policy_source.clone()));
    let mut header_ops = Vec::new();
    header_ops.push(
        RuntimeHeaderOp::SetValue {
            name: String::from_str("x-policy-source"),
            value: d.policy_source.clone(),
        },
    );
    header_ops.push(
        RuntimeHeaderOp::SetValue {
            name: String::from_str("x-route-key"),
            value: d.route_key.clone(),
        },
    );
    RuntimeExecuteOutput {
        context_ops,
        header_ops,
        path_rewrite: None,
        next_port: Some(d.port),
        logs,
    }
}

/// Without any policy, every request goes to the fallback port, under the
/// route key and source `fallback`.
pub proof fn lemma_no_policy_falls_back(
    input: RuntimeExecuteInput,
    match_header: Seq<char>,
    fallback: Seq<char>,
)
    ensures
        decision_of(input, match_header, None, None, fallback) == (
            fallback,
            "fallback"@,
            "fallback"@,
        ),
{
}

/// A header route of the remote policy wins over every other rule.
pub proof fn lemma_remote_header_route_wins(
    input: RuntimeExecuteInput,
    match_header: Seq<char>,
    local: Option<PolicyDocument>,
    remote: Option<PolicyDocument>,
    fallback: Seq<char>,
    key: Seq<char>,
    port: Seq<char>,
)
    requires
        header_lookup(input.request_headers@, match_header) == Some(key),
        policy_header_route(remote, key) == Some(port),
    ensures
        decision_of(input, match_header, local, remote, fallback) == (port, key, "remote"@),
{
}

/// A list of header routes with no route for `key` gives it no port.
proof fn lemma_route_for_absent(routes: Seq<(String, String)>, key: Seq<char>)
    requires
        forall|i: int| 0 <= i < routes.len() ==> (#[trigger] routes[i]).0@ != key,
    ensures
        route_for(routes, key) is None,
    decreases routes.len(),
{
    if routes.len() > 0 {
        assert(routes[0].0@ != key);
        assert forall|i: int| 0 <= i < routes.drop_first().len() implies (
        #[trigger] routes.drop_first()[i]).0@ != key by {
            assert(routes.drop_first()[i] == routes[i + 1]);
        }
        lemma_route_for_absent(routes.drop_first(), key);
    }
}

/// The first header route for `key` gives its port.
proof fn lemma_route_for_first(routes: Seq<(String, String)>, key: Seq<char>, k: int)
    requires
        0 <= k < routes.len(),
        routes[k].0@ == key,
        forall|j: int| 0 <= j < k ==> (#[trigger] routes[j]).0@ != key,
    ensures
        route_for(routes, key) == Some(routes[k].1@),
    decreases k,
{
    if k > 0 {
        assert(routes[0].0@ != key);
        assert forall|j: int| 0 <= j < k - 1 implies (#[trigger] routes.drop_first()[j]).0@
            != key by {
            assert(routes.drop_first()[j] == routes[j + 1]);
        }
        assert(routes.drop_first()[k - 1] == routes[k]);
        lemma_route_for_first(routes.drop_first(), key, k - 1);
    }
}

/// A list of path-prefix routes none of whose prefixes starts `path` gives
/// it no route.
proof fn lemma_prefix_route_absent(routes: Seq<PathPrefixRoute>, path: Seq<char>)
    requires
        forall|i: int| 0 <= i < routes.len() ==> !starts_with(path, (#[trigger] routes[i]).prefix@),
    ensures
        prefix_route_for(routes, path) is None,
    decreases routes.len(),
{
    if routes.len() > 0 {
        assert(!starts_with(path, routes[0].prefix@));
        assert forall|i: int| 0 <= i < routes.drop_first().len() implies !starts_with(
            path,
            (#[trigger] routes.drop_first()[i]).prefix@,
        ) by {
            assert(routes.drop_first()[i] == routes[i + 1]);
        }
        lemma_prefix_route_absent(routes.drop_first(), path);
    }
}

/// The first path-prefix route whose prefix starts `path` is the one taken.
proof fn lemma_prefix_route_first(routes: Seq<PathPrefixRoute>, path: Seq<char>, k: int)
    requires
        0 <= k < routes.len(),
        starts_with(path, routes[k].prefix@),
        forall|j: int| 0 <= j < k ==> !starts_with(path, (#[trigger] routes[j]).prefix@),
    ensures
        prefix_route_for(routes, path) == Some(routes[k]),
    decreases k,
{
    if k > 0 {
        assert(!starts_with(path, routes[0].prefix@));
        assert forall|j: int| 0 <= j < k - 1 implies !starts_with(
            path,
            (#[trigger] routes.drop_first()[j]).prefix@,
        ) by {
            assert(routes.drop_first()[j] == routes[j + 1]);
        }
        assert(routes.drop_first()[k - 1] == routes[k]);
        lemma_prefix_route_first(routes.drop_first(), path, k - 1);
    }
}

/// No header route of `p` is keyed by `key`.
pub open spec fn no_header_route_for(p: Option<PolicyDocument>, key: Seq<char>) -> bool {
    match p {
        Some(doc) => forall|i: int|
            0 <= i < doc.header_routes@.len() ==> (#[trigger] doc.header_routes@[i]).0@ != key,
        None => true,
    }
}

/// No header route applies to the request: it has no routing header, or
/// neither policy has a route for the header's value.
pub open spec fn no_header_route_applies(
    input: RuntimeExecuteInput,
    match_header: Seq<char>,
    local: Option<PolicyDocument>,
    remote: Option<PolicyDocument>,
) -> bool {
    match header_lookup(input.request_headers@, match_header) {
        None => true,
        Some(v) => no_header_route_for(remote, v) && no_header_route_for(local, v),
    }
}

proof fn lemma_no_header_route(p: Option<PolicyDocument>, key: Seq<char>)
    requires
        no_header_route_for(p, key),
    ensures
        policy_header_route(p, key) is None,
{
    if let Some(doc) = p {
        lemma_route_for_absent(doc.header_routes@, key);
    }
}

/// When no header route applies and a path-prefix route of the remote
/// policy matches the path, the first such remote route decides, with
/// source `remote`, whatever the local policy holds: a remote prefix match
/// wins over a local one.
pub proof fn lemma_remote_prefix_route_beats_local(
    input: RuntimeExecuteInput,
    match_header: Seq<char>,
    local: Option<PolicyDocument>,
    remote: PolicyDocument,
    fallback: Seq<char>,
    k: int,
)
    requires
        no_header_route_applies(input, match_header, local, Some(remote)),
        0 <= k < remote.path_prefix_routes@.len(),
        starts_with(input.current_path@, remote.path_prefix_routes@[k].prefix@),
        forall|j: int|
            0 <= j < k ==> !starts_with(
                input.current_path@,
                (#[trigger] remote.path_prefix_routes@[j]).prefix@,
            ),
    ensures
        decision_of(input, match_header, local, Some(remote), fallback) == (
            remote.path_prefix_routes@[k].port@,
            remote.path_prefix_routes@[k].prefix@,
            "remote"@,
        ),
{
    if let Some(v) = header_lookup(input.request_headers@, match_header) {
        lemma_no_header_route(Some(remote), v);
        lemma_no_header_route(local, v);
    }
    lemma_prefix_route_first(remote.path_prefix_routes@, input.current_path@, k);
}

/// When no header route applies and no path-prefix route of the remote
/// policy matches the path, the first matching local path-prefix route
/// decides, with source `local`.
pub proof fn lemma_local_prefix_route_when_remote_has_none(
    input: RuntimeExecuteInput,
    match_header: Seq<char>,
    local: PolicyDocument,
    remote: Option<PolicyDocument>,
    fallback: Seq<char>,
    k: int,
)
    requires
        no_header_route_applies(input, match_header, Some(local), remote),
        remote matches Some(r) ==> forall|i: int|
            0 <= i < r.path_prefix_routes@.len() ==> !starts_with(
                input.current_path@,
                (#[trigger] r.path_prefix_routes@[i]).prefix@,
            ),
        0 <= k < local.path_prefix_routes@.len(),
        starts_with(input.current_path@, local.path_prefix_routes@[k].prefix@),
        forall|j: int|
            0 <= j < k ==> !starts_with(
                input.current_path@,
                (#[trigger] local.path_prefix_routes@[j]).prefix@,
            ),
    ensures
        decision_of(input, match_header, Some(local), remote, fallback) == (
            local.path_prefix_routes@[k].port@,
            local.path_prefix_routes@[k].prefix@,
            "local"@,
        ),
{
    if let Some(v) = header_lookup(input.request_headers@, match_header) {
        lemma_no_header_route(remote, v);
        lemma_no_header_route(Some(local), v);
    }
    if let Some(r) = remote {
        lemma_prefix_route_absent(r.path_prefix_routes@, input.current_path@);
    }
    lemma_prefix_route_first(local.path_prefix_routes@, input.current_path@, k);
}

/// When the routing header's value is the key of a header route of the
/// remote policy, the first such route decides, under that value as route
/// key and with source `remote`, whatever else either policy holds.
pub proof fn lemma_remote_header_key_decides(
    input: RuntimeExecuteInput,
    match_header: Seq<char>,
    local: Option<PolicyDocument>,
    remote: PolicyDocument,
    fallback: Seq<char>,
    k: int,
)
    requires
        header_lookup(input.request_headers@, match_header) == Some(remote.header_routes@[k].0@),
        0 <= k < remote.header_routes@.len(),
        forall|j: int|
            0 <= j < k ==> (#[trigger] remote.header_routes@[j]).0@ != remote.header_routes@[k].0@,
    ensures
        decision_of(input, match_header, local, Some(remote), fallback) == (
            remote.header_routes@[k].1@,
            remote.header_routes@[k].0@,
            "remote"@,
        ),
{
    lemma_route_for_first(remote.header_routes@, remote.header_routes@[k].0@, k);
}

/// When the routing header's value has no route in the remote policy but
/// one in the local policy, the first such local route decides, with
/// source `local`.
pub proof fn lemma_local_header_key_decides(
    input: RuntimeExecuteInput,
    match_header: Seq<char>,
    local: PolicyDocument,
    remote: Option<PolicyDocument>,
    fallback: Seq<char>,
    k: int,
)
    requires
        header_lookup(input.request_headers@, match_header) == Some(local.header_routes@[k].0@),
        no_header_route_for(remote, local.header_routes@[k].0@),
        0 <= k < local.header_routes@.len(),
        forall|j: int|
            0 <= j < k ==> (#[trigger] local.header_routes@[j]).0@ != local.header_routes@[k].0@,
    ensures
        decision_of(input, match_header, Some(local), remote, fallback) == (
            local.header_routes@[k].1@,
            local.header_routes@[k].0@,
            "local"@,
        ),
{
    lemma_no_header_route(remote, local.header_routes@[k].0@);
    lemma_route_for_first(local.header_routes@, local.header_routes@[k].0@, k);
}

/// When no header or path-prefix route applies, the remote policy's default
/// port decides if it has one, else the local policy's, else the fallback.
pub proof fn lemma_default_ports_decide_last(
    input: RuntimeExecuteInput,
    match_header: Seq<char>,
    local: Option<PolicyDocument>,
    remote: Option<PolicyDocument>,
    fallback: Seq<char>,
)
    requires
        no_header_route_applies(input, match_header, local, remote),
        remote matches Some(r) ==> forall|i: int|
            0 <= i < r.path_prefix_routes@.len() ==> !starts_with(
                input.current_path@,
                (#[trigger] r.path_prefix_routes@[i]).prefix@,
            ),
        local matches Some(l) ==> forall|i: int|
            0 <= i < l.path_prefix_routes@.len() ==> !starts_with(
                input.current_path@,
                (#[trigger] l.path_prefix_routes@[i]).prefix@,
            ),
    ensures
        decision_of(input, match_header, local, remote, fallback) == if remote matches Some(r)
            && r.default_port is Some {
            (remote->0.default_port->0@, "default"@, "remote"@)
        } else if local matches Some(l) && l.default_port is Some {
            (local->0.default_port->0@, "default"@, "local"@)
        } else {
            (fallback, "fallback"@, "fallback"@)
        },
{
    if let Some(v) = header_lookup(input.request_headers@, match_header) {
        lemma_no_header_route(remote, v);
        lemma_no_header_route(local, v);
    }
    if let Some(r) = remote {
        lemma_prefix_route_absent(r.path_prefix_routes@, input.current_path@);
    }
    if let Some(l) = local {
        lemma_prefix_route_absent(l.path_prefix_routes@, input.current_path@);
    }
}

} // verus!
