//! Where plugins are found: the plugins directory of a configuration, and
//! the WebAssembly file of a plugin directory. Paths are Unix path text;
//! what the file system says of them is handed in.
use vstd::prelude::*;
use crate::text::{cat2, cat3, cat5};

verus! {

/// A failure while locating or loading plugins (an invalid-data I/O error
/// in the gateway), with its message.
#[derive(Debug, Clone, PartialEq, Eq)]
pub struct PluginLoadError {
    pub message: String,
}

/// An invalid-data failure with the given message.
pub fn invalid_data(message: String) -> (r: PluginLoadError)
    ensures
        r.message == message,
{
    PluginLoadError { message }
}

/// `name` appended to `base` as a path component (`Path::join` with a
/// relative name): a `/` is put between them unless `base` is empty or
/// already ends with one.
pub open spec fn path_join(base: Seq<char>, name: Seq<char>) -> Seq<char> {
    if base.len() == 0 || base.last() == '/' {
        base + name
    } else {
        base + "/"@ + name
    }
}

/// The index of the last `c` in `s`.
pub open spec fn last_index_of(s: Seq<char>, c: char) -> Option<int>
    decreases s.len(),
{
    if s.len() == 0 {
        None
    } else if s.last() == c {
        Some(s.len() - 1)
    } else {
        last_index_of(s.drop_last(), c)
    }
}

/// The parent directory of a normalised path (`Path::parent`): what comes
/// before its last `/` (the root for a top-level entry; the empty path for
/// a bare name); the root and the empty path have none.
pub open spec fn path_parent(p: Seq<char>) -> Option<Seq<char>> {
    match last_index_of(p, '/') {
        None => if p.len() == 0 {
            None
        } else {
            Some(Seq::empty())
        },
        Some(i) => if i == 0 {
            if p.len() == 1 {
                None
            } else {
                Some("/"@)
            }
        } else {
            Some(p.subrange(0, i))
        },
    }
}

/// `name` joined onto `base` (see `path_join`).
pub fn join_path(base: &str, name: &str) -> (r: String)
    ensures
        r@ == path_join(base@, name@),
{
    let n = base.unicode_len();
    if n == 0 || base.get_char(n - 1) == '/' {
        cat2(base, name)
    } else {
        cat3(base, "/", name)
    }
}

fn last_slash(p: &str) -> (r: Option<usize>)
    ensures
        match r {
            Some(i) => last_index_of(p@, '/') == Some(i as int) && i < p@.len(),
            None => last_index_of(p@, '/') is None,
        },
{
    let n = p.unicode_len();
    let mut k: usize = n;
    proof {
        assert(p@.subrange(0, n as int) =~= p@);
    }
    while k > 0
        invariant
            n == p@.len(),
            k <= n,
            last_index_of(p@, '/') == last_index_of(p@.subrange(0, k as int), '/'),
        decreases k,
    {
        if p.get_char(k - 1) == '/' {
            return Some(k - 1);
        }
        proof {
            assert(p@.subrange(0, k as int).drop_last() =~= p@.subrange(0, k - 1));
        }
        k = k - 1;
    }
    None
}

/// The parent directory of a normalised path (see `path_parent`).
pub fn parent_path(p: &str) -> (r: Option<String>)
    ensures
        match r {
            Some(q) => path_parent(p@) == Some(q@),
            None => path_parent(p@) is None,
        },
{
    let n = p.unicode_len();
    match last_slash(p) {
        None => if n == 0 {
            None
        } else {
            Some(String::new())
        },
        Some(i) => if i == 0 {
            if n == 1 {
                None
            } else {
                Some(String::from_str("/"))
            }
        } else {
            Some(String::from_str(p.substring_char(0, i)))
        },
    }
}

/// The WebAssembly file of a plugin directory: `wasm/plugin.wasm` when it
/// is a file, else the older `plugin.wasm` when that is a file, else an
/// error naming the directory.
pub fn resolve_plugin_wasm_path(directory: &str, nested_is_file: bool, legacy_is_file: bool) -> (r:
    Result<String, PluginLoadError>)
    ensures
        nested_is_file ==> (r matches Ok(p) && p@ == path_join(
            path_join(directory@, "wasm"@),
            "plugin.wasm"@,
        )),
        !nested_is_file && legacy_is_file ==> (r matches Ok(p) && p@ == path_join(
            directory@,
            "plugin.wasm"@,
        )),
        !nested_is_file && !legacy_is_file ==> (r matches Err(e) && e.message@
            == "plugin directory '"@ + directory@
            + "' is missing wasm/plugin.wasm (and legacy plugin.wasm)"@),
{
    if nested_is_file {
        let wasm_dir = join_path(directory, "wasm");
        return Ok(join_path(wasm_dir.as_str(), "plugin.wasm"));
    }
    if legacy_is_file {
        return Ok(join_path(directory, "plugin.wasm"));
    }
    Err(
        invalid_data(
            cat3(
                "plugin directory '",
                directory,
                "' is missing wasm/plugin.wasm (and legacy plugin.wasm)",
            ),
        ),
    )
}

/// The places searched for the plugins directory of a configuration file
/// (given by its canonical path): `plugins` beside the file, then `plugins`
/// one level up when that is another place.
pub open spec fn plugins_root_candidates_of(config: Seq<char>) -> Option<Seq<Seq<char>>> {
    match path_parent(config) {
        None => None,
        Some(dir) => {
            let first = path_join(dir, "plugins"@);
            match path_parent(dir) {
                Some(root) => if path_join(root, "plugins"@) != first {
                    Some(seq![first, path_join(root, "plugins"@)])
                } else {
                    Some(seq![first])
                },
                None => Some(seq![first]),
            }
        },
    }
}

/// The places searched for the plugins directory (see
/// `plugins_root_candidates_of`); fails when the path has no parent.
pub fn plugins_root_candidates(config_path: &str) -> (r: Result<Vec<String>, PluginLoadError>)
    ensures
        match plugins_root_candidates_of(config_path@) {
            Some(cs) => r matches Ok(v) && v@.len() == cs.len() && forall|i: int|
                0 <= i < cs.len() ==> (#[trigger] v@[i])@ == cs[i],
            None => r matches Err(e) && e.message@ == "config path '"@ + config_path@
                + "' does not have a parent directory"@,
        },
{
    let dir = match parent_path(config_path) {
        Some(d) => d,
        None => {
            return Err(
                invalid_data(
                    cat3("config path '", config_path, "' does not have a parent directory"),
                ),
            )
        },
    };
    let first = join_path(dir.as_str(), "plugins");
    let mut candidates: Vec<String> = Vec::new();
    let root = parent_path(dir.as_str());
    candidates.push(first);
    if let Some(root) = root {
        let project = join_path(root.as_str(), "plugins");
        if !crate::text::str_eq(project.as_str(), candidates[0].as_str()) {
            candidates.push(project);
        }
    }
    Ok(candidates)
}

/// What the file system says of a candidate path.
#[derive(Debug, Clone, Copy, PartialEq, Eq)]
pub struct PathProbe {
    pub is_dir: bool,
    pub exists: bool,
}

/// The candidates, `, `-separated.
pub open spec fn comma_joined(parts: Seq<Seq<char>>) -> Seq<char>
    decreases parts.len(),
{
    if parts.len() == 0 {
        Seq::empty()
    } else if parts.len() == 1 {
        parts[0]
    } else {
        comma_joined(parts.drop_last()) + ", "@ + parts.last()
    }
}

/// The plugins directory chosen among the candidates: the first that is a
/// directory, unless an earlier one exists without being one; when none
/// exists, an error listing every candidate.
pub open spec fn plugins_root_choice(
    config: Seq<char>,
    candidates: Seq<Seq<char>>,
    probes: Seq<PathProbe>,
    k: int,
) -> Result<Seq<char>, Seq<char>>
    decreases candidates.len() - k,
{
    if k >= candidates.len() || k < 0 {
        Err(
            "could not resolve plugins directory for config '"@ + config + "'; checked: "@
                + comma_joined(candidates),
        )
    } else if probes[k].is_dir {
        Ok(candidates[k])
    } else if probes[k].exists {
        Err("resolved plugins path '"@ + candidates[k] + "' exists but is not a directory"@)
    } else {
        plugins_root_choice(config, candidates, probes, k + 1)
    }
}

/// The views of a list of strings.
pub open spec fn strings_view(v: Seq<String>) -> Seq<Seq<char>> {
    v.map_values(|s: String| s@)
}

fn join_candidates(candidates: &Vec<String>) -> (r: String)
    ensures
        r@ == comma_joined(strings_view(candidates@)),
{
    let n = candidates.len();
    let mut out = String::new();
    let mut i: usize = 0;
    proof {
        assert(strings_view(candidates@).take(0) =~= Seq::<Seq<char>>::empty());
    }
    while i < n
        invariant
            n == candidates.len(),
            i <= n,
            out@ == comma_joined(strings_view(candidates@).take(i as int)),
        decreases n - i,
    {
        let ghost before = strings_view(candidates@).take(i as int);
        if i > 0 {
            out.append(", ");
        }
        out.append(candidates[i].as_str());
        proof {
            let now = strings_view(candidates@).take(i + 1);
            assert(now.drop_last() =~= before);
            assert(now.last() == candidates@[i as int]@);
        }
        i = i + 1;
    }
    proof {
        assert(strings_view(candidates@).take(n as int) =~= strings_view(candidates@));
    }
    out
}

/// The plugins directory of a configuration (see `plugins_root_choice`),
/// given what the file system says of each candidate.
pub fn select_plugins_root(
    config_path: &str,
    candidates: &Vec<String>,
    probes: &Vec<PathProbe>,
) -> (r: Result<String, PluginLoadError>)
    requires
        probes.len() == candidates.len(),
    ensures
        match plugins_root_choice(config_path@, strings_view(candidates@), probes@, 0) {
            Ok(p) => r matches Ok(q) && q@ == p,
            Err(m) => r matches Err(e) && e.message@ == m,
        },
{
    let n = candidates.len();
    let mut i: usize = 0;
    while i < n
        invariant
            n == candidates.len(),
            n == probes.len(),
            i <= n,
            plugins_root_choice(config_path@, strings_view(candidates@), probes@, 0)
                == plugins_root_choice(config_path@, strings_view(candidates@), probes@, i as int),
        decreases n - i,
    {
        if probes[i].is_dir {
            return Ok(candidates[i].clone());
        }
        if probes[i].exists {
            return Err(
                invalid_data(
                    cat3(
                        "resolved plugins path '",
                        candidates[i].as_str(),
                        "' exists but is not a directory",
                    ),
                ),
            );
        }
        i = i + 1;
    }
    let checked = join_candidates(candidates);
    proof {
        reveal_strlit("");
        assert(strings_view(candidates@).len() == n);
    }
    Err(
        invalid_data(
            cat5(
                "could not resolve plugins directory for config '",
                config_path,
                "'; checked: ",
                checked.as_str(),
                "",
            ),
        ),
    )
}

} // verus!
