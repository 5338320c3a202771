//! The values the gateway configuration takes when a field is left out.
use vstd::prelude::*;

verus! {

/// The proxy's listen address when none is configured.
pub fn default_listen() -> (r: String)
    ensures
        r@ == "127.0.0.1:9001"@,
{
    String::from_str("127.0.0.1:9001")
}

/// The admin panel's listen address when none is configured.
pub fn default_admin_listen() -> (r: String)
    ensures
        r@ == "127.0.0.1:9002"@,
{
    String::from_str("127.0.0.1:9002")
}

/// The rule graph format version when none is given.
pub fn default_rule_graph_version() -> (r: u32)
    ensures
        r == 1,
{
    1
}

/// The time limit of a WebAssembly plugin node, in milliseconds, when none
/// is given.
pub fn default_wasm_plugin_timeout_ms() -> (r: u64)
    ensures
        r == 20,
{
    20
}

/// Whether a rule is enabled when the field is left out.
pub fn default_enabled() -> (r: bool)
    ensures
        r,
{
    true
}

} // verus!
