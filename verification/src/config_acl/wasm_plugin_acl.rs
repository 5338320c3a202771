//! Checks of a wasm plugin node's limits, capability grants, directories and hosts.
use vstd::prelude::*;

use crate::checks::{first_error, lemma_first_error_prefix, lemma_first_error_step, or_else};
use crate::config_acl::error::{acl_outcome, validation_error, InfrastructureAclError};
use crate::config_acl::raw_model::{RawWasmCapability, RawWasmPluginNodeConfig};
use crate::config_acl::util::{has_parent_segment, path_has_parent_segment};
use crate::text::{cat3, cat5, is_blank, is_blank_str};

verus! {

/// The error of the limits: a plugin id, a positive timeout, a positive fuel
/// budget when one is set, and a positive memory limit.
pub open spec fn wasm_limits_error(node_id: Seq<char>, c: RawWasmPluginNodeConfig) -> Option<Seq<char>> {
    if is_blank(c.plugin_id@) {
        Some("rule_graph node '"@ + node_id + "' plugin_id cannot be empty"@)
    } else if c.timeout_ms == 0 {
        Some("rule_graph node '"@ + node_id + "' timeout_ms must be greater than zero"@)
    } else if c.fuel == Some(0u64) {
        Some("rule_graph node '"@ + node_id + "' fuel must be greater than zero when set"@)
    } else if c.max_memory_bytes == 0 {
        Some("rule_graph node '"@ + node_id + "' max_memory_bytes must be greater than zero"@)
    } else {
        None
    }
}

/// The check of the `i`-th directory of the list `field`: non-blank, relative,
/// and without a `..` segment.
pub open spec fn wasm_path_check(node_id: Seq<char>, field: Seq<char>, paths: Seq<String>) -> spec_fn(
    int,
) -> Option<Seq<char>> {
    |i: int|
        if is_blank(paths[i]@) {
            Some("rule_graph node '"@ + node_id + "' "@ + field + " cannot contain empty paths"@)
        } else if paths[i]@.len() > 0 && paths[i]@[0] == '/' {
            Some("rule_graph node '"@ + node_id + "' "@ + field + " must use relative paths"@)
        } else if has_parent_segment(paths[i]@) {
            Some(
                "rule_graph node '"@ + node_id + "' "@ + field + " must not contain parent traversal"@,
            )
        } else {
            None
        }
}

/// The first error of the directory list `paths` named `field`.
pub open spec fn wasm_paths_error(node_id: Seq<char>, field: Seq<char>, paths: Seq<String>) -> Option<
    Seq<char>,
> {
    first_error(paths.len(), wasm_path_check(node_id, field, paths))
}

/// The error of the capability grants: directories exactly when `fs` is
/// granted, hosts exactly when `network` is granted, and usable directories.
pub open spec fn wasm_scopes_error(node_id: Seq<char>, c: RawWasmPluginNodeConfig) -> Option<Seq<char>> {
    let has_fs = c.granted_capabilities@.contains(RawWasmCapability::Fs);
    let has_network = c.granted_capabilities@.contains(RawWasmCapability::Network);
    let fs_error = if has_fs {
        if c.read_dirs@.len() == 0 && c.write_dirs@.len() == 0 {
            Some("rule_graph node '"@ + node_id + "' fs capability requires read_dirs or write_dirs"@)
        } else {
            None
        }
    } else if c.read_dirs@.len() != 0 || c.write_dirs@.len() != 0 {
        Some("rule_graph node '"@ + node_id + "' fs directories require an fs capability grant"@)
    } else {
        None
    };
    let network_error = if has_network {
        if c.allowed_hosts@.len() == 0 {
            Some("rule_graph node '"@ + node_id + "' network capability requires allowed_hosts"@)
        } else {
            None
        }
    } else if c.allowed_hosts@.len() != 0 {
        Some(
            "rule_graph node '"@ + node_id + "' allowed_hosts require a network capability grant"@,
        )
    } else {
        None
    };
    or_else(
        fs_error,
        or_else(
            wasm_paths_error(node_id, "read_dirs"@, c.read_dirs@),
            or_else(wasm_paths_error(node_id, "write_dirs"@, c.write_dirs@), network_error),
        ),
    )
}

/// The error of the allowed hosts: none may be blank.
pub open spec fn wasm_hosts_error(node_id: Seq<char>, c: RawWasmPluginNodeConfig) -> Option<Seq<char>> {
    if exists|i: int| 0 <= i < c.allowed_hosts@.len() && is_blank(#[trigger] c.allowed_hosts@[i]@) {
        Some("rule_graph node '"@ + node_id + "' allowed_hosts cannot contain empty hosts"@)
    } else {
        None
    }
}

/// The first error of a wasm plugin configuration of node `node_id`.
pub open spec fn wasm_plugin_error(node_id: Seq<char>, c: RawWasmPluginNodeConfig) -> Option<Seq<char>> {
    or_else(
        wasm_limits_error(node_id, c),
        or_else(wasm_scopes_error(node_id, c), wasm_hosts_error(node_id, c)),
    )
}

fn validate_limits(node_id: &str, c: &RawWasmPluginNodeConfig) -> (r: Result<(), InfrastructureAclError>)
    ensures
        acl_outcome(r, wasm_limits_error(node_id@, *c)),
{
    if is_blank_str(c.plugin_id.as_str()) {
        return validation_error(cat3("rule_graph node '", node_id, "' plugin_id cannot be empty"));
    }
    if c.timeout_ms == 0 {
        return validation_error(
            cat3("rule_graph node '", node_id, "' timeout_ms must be greater than zero"),
        );
    }
    if let Some(fuel) = c.fuel {
        if fuel == 0 {
            return validation_error(
                cat3("rule_graph node '", node_id, "' fuel must be greater than zero when set"),
            );
        }
    }
    if c.max_memory_bytes == 0 {
        return validation_error(
            cat3("rule_graph node '", node_id, "' max_memory_bytes must be greater than zero"),
        );
    }
    Ok(())
}

fn has_capability(caps: &Vec<RawWasmCapability>, fs: bool) -> (r: bool)
    ensures
        r == caps@.contains(if fs { RawWasmCapability::Fs } else { RawWasmCapability::Network }),
{
    let ghost want = if fs { RawWasmCapability::Fs } else { RawWasmCapability::Network };
    let mut i: usize = 0;
    while i < caps.len()
        invariant
            want == (if fs { RawWasmCapability::Fs } else { RawWasmCapability::Network }),
            i <= caps@.len(),
            forall|j: int| 0 <= j < i ==> #[trigger] caps@[j] != want,
        decreases caps@.len() - i,
    {
        let hit = match caps[i] {
            RawWasmCapability::Fs => fs,
            RawWasmCapability::Network => !fs,
            RawWasmCapability::Log => false,
        };
        if hit {
            assert(caps@[i as int] == want);
            return true;
        }
        i = i + 1;
    }
    false
}

/// Checks the directories a plugin node may use (`field` names the list):
/// each must be a relative path without parent segments.
pub fn validate_wasm_plugin_paths(node_id: &str, field: &str, paths: &Vec<String>) -> (r: Result<
    (),
    InfrastructureAclError,
>)
    ensures
        acl_outcome(r, wasm_paths_error(node_id@, field@, paths@)),
{
    let ghost check = wasm_path_check(node_id@, field@, paths@);
    let mut i: usize = 0;
    while i < paths.len()
        invariant
            check == wasm_path_check(node_id@, field@, paths@),
            i <= paths@.len(),
            first_error(i as nat, check) is None,
        decreases paths@.len() - i,
    {
        proof {
            lemma_first_error_step(i as nat, check);
            lemma_first_error_prefix((i + 1) as nat, paths@.len(), check);
        }
        let p = paths[i].as_str();
        if is_blank_str(p) {
            return validation_error(
                cat5("rule_graph node '", node_id, "' ", field, " cannot contain empty paths"),
            );
        }
        if p.get_char(0) == '/' {
            return validation_error(
                cat5("rule_graph node '", node_id, "' ", field, " must use relative paths"),
            );
        }
        if path_has_parent_segment(p) {
            return validation_error(
                cat5("rule_graph node '", node_id, "' ", field, " must not contain parent traversal"),
            );
        }
        i = i + 1;
    }
    Ok(())
}

fn validate_capability_scopes(node_id: &str, c: &RawWasmPluginNodeConfig) -> (r: Result<
    (),
    InfrastructureAclError,
>)
    ensures
        acl_outcome(r, wasm_scopes_error(node_id@, *c)),
{
    let has_fs = has_capability(&c.granted_capabilities, true);
    let has_network = has_capability(&c.granted_capabilities, false);
    if has_fs {
        if c.read_dirs.len() == 0 && c.write_dirs.len() == 0 {
            return validation_error(
                cat3("rule_graph node '", node_id, "' fs capability requires read_dirs or write_dirs"),
            );
        }
    } else if c.read_dirs.len() != 0 || c.write_dirs.len() != 0 {
        return validation_error(
            cat3("rule_graph node '", node_id, "' fs directories require an fs capability grant"),
        );
    }
    let rd = validate_wasm_plugin_paths(node_id, "read_dirs", &c.read_dirs);
    if rd.is_err() {
        return rd;
    }
    let wd = validate_wasm_plugin_paths(node_id, "write_dirs", &c.write_dirs);
    if wd.is_err() {
        return wd;
    }
    if has_network {
        if c.allowed_hosts.len() == 0 {
            return validation_error(
                cat3("rule_graph node '", node_id, "' network capability requires allowed_hosts"),
            );
        }
    } else if c.allowed_hosts.len() != 0 {
        return validation_error(
            cat3("rule_graph node '", node_id, "' allowed_hosts require a network capability grant"),
        );
    }
    Ok(())
}

/// Checks that no allowed host of a plugin node is blank.
pub fn validate_wasm_plugin_hosts(node_id: &str, c: &RawWasmPluginNodeConfig) -> (r: Result<(), InfrastructureAclError>)
    ensures
        acl_outcome(r, wasm_hosts_error(node_id@, *c)),
{
    let mut i: usize = 0;
    while i < c.allowed_hosts.len()
        invariant
            i <= c.allowed_hosts@.len(),
            forall|j: int| 0 <= j < i ==> !is_blank(#[trigger] c.allowed_hosts@[j]@),
        decreases c.allowed_hosts@.len() - i,
    {
        if is_blank_str(c.allowed_hosts[i].as_str()) {
            return validation_error(
                cat3("rule_graph node '", node_id, "' allowed_hosts cannot contain empty hosts"),
            );
        }
        i = i + 1;
    }
    Ok(())
}

/// Checks the wasm plugin configuration `c` of node `node_id`: limits first,
/// then capability grants and directories, then hosts.
pub fn validate_wasm_plugin_config(node_id: &str, c: &RawWasmPluginNodeConfig) -> (r: Result<
    (),
    InfrastructureAclError,
>)
    ensures
        acl_outcome(r, wasm_plugin_error(node_id@, *c)),
{
    let l = validate_limits(node_id, c);
    if l.is_err() {
        return l;
    }
    let s = validate_capability_scopes(node_id, c);
    if s.is_err() {
        return s;
    }
    validate_wasm_plugin_hosts(node_id, c)
}

} // verus!
