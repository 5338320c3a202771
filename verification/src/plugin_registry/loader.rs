//! The checks made while a plugins directory is scanned: the root must be a
//! directory (or absent), each plugin directory needs a manifest, and no two
//! plugins may share an id.
use vstd::prelude::*;
use crate::plugin_registry::paths::{invalid_data, join_path, path_join, strings_view, PluginLoadError};
use crate::text::{cat3, str_eq};

verus! {

/// What loading a registry root comes to, once it is known whether the root
/// exists and is a directory.
#[derive(Debug, Clone, Copy, PartialEq, Eq)]
pub enum RegistryRoot {
    /// The root does not exist: the registry is empty.
    Empty,
    /// The root is a directory: its plugin directories are loaded.
    Scan,
}

/// The decision on a registry root: a missing root gives an empty registry,
/// a root that exists but is not a directory is refused, and a directory is
/// scanned.
pub fn plan_registry_root(root: &str, exists: bool, is_dir: bool) -> (r: Result<
    RegistryRoot,
    PluginLoadError,
>)
    ensures
        !exists ==> r == Ok::<RegistryRoot, PluginLoadError>(RegistryRoot::Empty),
        exists && !is_dir ==> (r matches Err(e) && e.message@ == "plugin registry root '"@ + root@
            + "' is not a directory"@),
        exists && is_dir ==> r == Ok::<RegistryRoot, PluginLoadError>(RegistryRoot::Scan),
{
    if !exists {
        Ok(RegistryRoot::Empty)
    } else if !is_dir {
        Err(invalid_data(cat3("plugin registry root '", root, "' is not a directory")))
    } else {
        Ok(RegistryRoot::Scan)
    }
}

/// The manifest file of a plugin directory.
pub fn plugin_manifest_path(directory: &str) -> (r: String)
    ensures
        r@ == path_join(directory@, "plugin.toml"@),
{
    join_path(directory, "plugin.toml")
}

/// Refuses a plugin directory whose `plugin.toml` is not a file.
pub fn require_plugin_manifest(directory: &str, manifest_is_file: bool) -> (r: Result<
    (),
    PluginLoadError,
>)
    ensures
        manifest_is_file ==> r is Ok,
        !manifest_is_file ==> (r matches Err(e) && e.message@ == "plugin directory '"@ + directory@
            + "' is missing plugin.toml"@),
{
    if manifest_is_file {
        Ok(())
    } else {
        Err(invalid_data(cat3("plugin directory '", directory, "' is missing plugin.toml")))
    }
}

/// Records the id of a loaded plugin; an id that is already recorded is
/// refused and nothing changes. Recorded ids stay pairwise distinct.
pub fn register_plugin_id(ids: &mut Vec<String>, id: &str) -> (r: Result<(), PluginLoadError>)
    ensures
        strings_view(old(ids)@).contains(id@) ==> (r matches Err(e) && e.message@
            == "duplicate plugin id '"@ + id@ + "'"@ && final(ids)@ == old(ids)@),
        !strings_view(old(ids)@).contains(id@) ==> (r is Ok && final(ids)@.len() == old(ids)@.len()
            + 1 && final(ids)@.take(old(ids)@.len() as int) == old(ids)@ && final(ids)@.last()@
            == id@),
        strings_view(old(ids)@).no_duplicates() ==> strings_view(final(ids)@).no_duplicates(),
{
    let n = ids.len();
    let mut i: usize = 0;
    while i < n
        invariant
            n == ids.len(),
            i <= n,
            forall|j: int| 0 <= j < i ==> (#[trigger] ids@[j])@ != id@,
        decreases n - i,
    {
        if str_eq(ids[i].as_str(), id) {
            proof {
                assert(strings_view(ids@)[i as int] == id@);
            }
            return Err(invalid_data(cat3("duplicate plugin id '", id, "'")));
        }
        i = i + 1;
    }
    proof {
        assert forall|j: int| 0 <= j < n implies strings_view(ids@)[j] != id@ by {
            assert(strings_view(ids@)[j] == ids@[j]@);
        }
    }
    let ghost before = ids@;
    ids.push(String::from_str(id));
    proof {
        assert(strings_view(ids@) =~= strings_view(before).push(id@));
        assert(ids@.take(before.len() as int) =~= before);
    }
    Ok(())
}

} // verus!
