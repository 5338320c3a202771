//! The cache of compiled plugin artifacts, keyed by the path they were
//! loaded from: each path is loaded once.
use vstd::prelude::*;
use crate::text::str_eq;

verus! {

/// The artifact stored under `path` in a list of (path, artifact) entries.
pub open spec fn artifact_at<T>(entries: Seq<(Seq<char>, T)>, path: Seq<char>) -> Option<T>
    decreases entries.len(),
{
    if entries.len() == 0 {
        None
    } else if entries[0].0 == path {
        Some(entries[0].1)
    } else {
        artifact_at(entries.drop_first(), path)
    }
}

/// Artifacts by the path they were loaded from.
#[derive(Clone)]
pub struct ArtifactCache<T> {
    entries: Vec<(String, T)>,
}

impl<T> ArtifactCache<T> {
    /// The cached (path, artifact) entries, in the order they were added.
    pub closed spec fn entries(&self) -> Seq<(Seq<char>, T)> {
        self.entries@.map_values(|e: (String, T)| (e.0@, e.1))
    }

    /// An empty cache.
    pub fn new() -> (r: Self)
        ensures
            r.entries().len() == 0,
    {
        let r = ArtifactCache { entries: Vec::new() };
        proof {
            assert(r.entries() =~= Seq::<(Seq<char>, T)>::empty());
        }
        r
    }

    /// The number of cached artifacts.
    pub fn len(&self) -> (r: usize)
        ensures
            r == self.entries().len(),
    {
        self.entries.len()
    }

    /// The artifact cached for `path`, if any.
    pub fn get(&self, path: &str) -> (r: Option<&T>)
        ensures
            match r {
                Some(t) => artifact_at(self.entries(), path@) == Some(*t),
                None => artifact_at(self.entries(), path@) is None,
            },
    {
        let n = self.entries.len();
        let mut i: usize = 0;
        proof {
            assert(self.entries().skip(0) =~= self.entries());
        }
        while i < n
            invariant
                n == self.entries.len(),
                i <= n,
                artifact_at(self.entries(), path@) == artifact_at(
                    self.entries().skip(i as int),
                    path@,
                ),
            decreases n - i,
        {
            proof {
                assert(self.entries().skip(i as int)[0] == (
                    self.entries@[i as int].0@,
                    self.entries@[i as int].1,
                ));
                assert(self.entries().skip(i as int).drop_first() =~= self.entries().skip(i + 1));
            }
            if str_eq(self.entries[i].0.as_str(), path) {
                return Some(&self.entries[i].1);
            }
            i = i + 1;
        }
        None
    }

    /// Caches `artifact` for `path`.
    pub fn insert(&mut self, path: String, artifact: T)
        ensures
            final(self).entries() == old(self).entries().push((path@, artifact)),
    {
        let ghost before = self.entries();
        self.entries.push((path, artifact));
        proof {
            assert(self.entries() =~= before.push((path@, artifact)));
        }
    }
}

/// Once an artifact is cached for a path that had none, looking the path up
/// gives it, and every other path keeps what it had.
pub proof fn lemma_cached_artifact_is_found<T>(
    entries: Seq<(Seq<char>, T)>,
    path: Seq<char>,
    artifact: T,
    other: Seq<char>,
)
    requires
        artifact_at(entries, path) is None,
    ensures
        artifact_at(entries.push((path, artifact)), path) == Some(artifact),
        other != path ==> artifact_at(entries.push((path, artifact)), other) == artifact_at(
            entries,
            other,
        ),
    decreases entries.len(),
{
    let pushed = entries.push((path, artifact));
    if entries.len() > 0 {
        assert(pushed.drop_first() =~= entries.drop_first().push((path, artifact)));
        assert(pushed[0] == entries[0]);
        lemma_cached_artifact_is_found(entries.drop_first(), path, artifact, other);
    } else {
        assert(pushed.drop_first() =~= Seq::<(Seq<char>, T)>::empty());
        assert(artifact_at(pushed.drop_first(), other) is None);
        assert(pushed[0] == (path, artifact));
    }
}

} // verus!
