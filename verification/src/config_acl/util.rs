//! Shared checks: identifier lists and relative paths.
use vstd::prelude::*;

use crate::checks::{first_error, lemma_first_error_none, lemma_first_error_prefix, lemma_first_error_some, lemma_first_error_step};
use crate::config_acl::error::{acl_outcome, validation_error, InfrastructureAclError};
use crate::text::{cat2, cat5, chars_of, is_blank, is_blank_str, str_eq, trim, trim_seq};

verus! {

/// The characters of each string in `v`.
pub open spec fn strs_view(v: Seq<&str>) -> Seq<Seq<char>> {
    v.map_values(|s: &str| s@)
}

/// The optional string `o` is present and equal to `s`.
pub open spec fn opt_is(o: Option<String>, s: Seq<char>) -> bool {
    match o {
        Some(g) => g@ == s,
        None => false,
    }
}

/// The check of the `i`-th identifier of a list of `kind` identifiers: it must
/// not be blank and must not repeat an earlier identifier.
pub open spec fn unique_id_check(ids: Seq<Seq<char>>, kind: Seq<char>) -> spec_fn(int) -> Option<Seq<char>> {
    |i: int|
        if is_blank(ids[i]) {
            Some(kind + " id cannot be empty"@)
        } else if exists|j: int| 0 <= j < i && ids[j] == ids[i] {
            Some("duplicate "@ + kind + " id '"@ + ids[i] + "'"@)
        } else {
            None
        }
}

/// The first error of the identifier list `ids`, if any.
pub open spec fn unique_ids_error(ids: Seq<Seq<char>>, kind: Seq<char>) -> Option<Seq<char>> {
    first_error(ids.len(), unique_id_check(ids, kind))
}

/// The identifiers are all non-blank and pairwise distinct.
pub open spec fn ids_unique(ids: Seq<Seq<char>>) -> bool {
    &&& forall|i: int| 0 <= i < ids.len() ==> !is_blank(#[trigger] ids[i])
    &&& forall|i: int, j: int| 0 <= i < j < ids.len() ==> #[trigger] ids[i] != #[trigger] ids[j]
}

/// An identifier list has no error exactly when it is unique.
pub proof fn lemma_unique_ids_error_none(ids: Seq<Seq<char>>, kind: Seq<char>)
    ensures
        unique_ids_error(ids, kind) is None <==> ids_unique(ids),
{
    let check = unique_id_check(ids, kind);
    lemma_first_error_none(ids.len(), check);
    if ids_unique(ids) {
        assert forall|i: int| 0 <= i < ids.len() implies #[trigger] check(i) is None by {
            if exists|j: int| 0 <= j < i && ids[j] == ids[i] {
                let j = choose|j: int| 0 <= j < i && ids[j] == ids[i];
                assert(ids[j] != ids[i]);
            }
        }
    }
    if unique_ids_error(ids, kind) is None {
        assert forall|i: int| 0 <= i < ids.len() implies !is_blank(#[trigger] ids[i]) by {
            assert(check(i) is None);
        }
        assert forall|i: int, j: int| 0 <= i < j < ids.len() implies #[trigger] ids[i]
            != #[trigger] ids[j] by {
            assert(check(j) is None);
        }
    }
}

/// When an identifier list is refused, the message names its first
/// offender: the first identifier that is blank or repeats an earlier one.
/// It says the id cannot be empty when that identifier is blank, and names
/// the repeated identifier otherwise.
pub proof fn lemma_unique_ids_first_offender(ids: Seq<Seq<char>>, kind: Seq<char>)
    requires
        unique_ids_error(ids, kind) is Some,
    ensures
        exists|k: int|
            #![trigger ids[k]]
            0 <= k < ids.len() && (is_blank(ids[k]) || exists|j: int| 0 <= j < k && ids[j] == ids[k])
                && (forall|j: int|
                0 <= j < k ==> !is_blank(#[trigger] ids[j]) && forall|l: int|
                    0 <= l < j ==> ids[l] != ids[j]) && unique_ids_error(ids, kind) == Some(
                if is_blank(ids[k]) {
                    kind + " id cannot be empty"@
                } else {
                    "duplicate "@ + kind + " id '"@ + ids[k] + "'"@
                },
            ),
{
    let check = unique_id_check(ids, kind);
    lemma_first_error_some(ids.len(), check);
    let k = choose|k: int|
        #![trigger check(k)]
        0 <= k < ids.len() && check(k) == first_error(ids.len(), check) && forall|j: int|
            0 <= j < k ==> #[trigger] check(j) is None;
    assert forall|j: int| 0 <= j < k implies !is_blank(#[trigger] ids[j]) && forall|l: int|
        0 <= l < j ==> ids[l] != ids[j] by {
        assert(check(j) is None);
    }
    assert(check(k) is Some);
}

/// Whether `ids[..i]` contains `id`.
pub fn contains_str_before(ids: &Vec<&str>, i: usize, id: &str) -> (r: bool)
    requires
        i <= ids.len(),
    ensures
        r == exists|j: int| 0 <= j < i && ids@[j]@ == id@,
{
    let mut k: usize = 0;
    while k < i
        invariant
            i <= ids.len(),
            k <= i,
            forall|j: int| 0 <= j < k ==> ids@[j]@ != id@,
        decreases i - k,
    {
        if str_eq(ids[k], id) {
            return true;
        }
        k = k + 1;
    }
    false
}

/// Whether the list `ids` contains `id`.
pub fn contains_str(ids: &Vec<&str>, id: &str) -> (r: bool)
    ensures
        r == strs_view(ids@).contains(id@),
{
    let r = contains_str_before(ids, ids.len(), id);
    proof {
        let v = strs_view(ids@);
        if r {
            let j = choose|j: int| 0 <= j < ids.len() && ids@[j]@ == id@;
            assert(v[j] == id@);
        }
        if v.contains(id@) {
            let j = choose|j: int| 0 <= j < v.len() && v[j] == id@;
            assert(ids@[j]@ == id@);
        }
    }
    r
}

/// What `unique_ids` gives: the identifiers themselves when they are all
/// non-blank and pairwise distinct, otherwise a validation error naming the
/// first blank or repeated one.
pub open spec fn unique_ids_outcome(
    r: Result<Vec<&str>, InfrastructureAclError>,
    ids: Seq<&str>,
    kind: Seq<char>,
) -> bool {
    match r {
        Ok(s) => unique_ids_error(strs_view(ids), kind) is None && s@ == ids,
        Err(e) => acl_outcome(Err(e), unique_ids_error(strs_view(ids), kind)),
    }
}

/// Checks a list of `kind` identifiers: each must be non-blank and unique.
/// On success it gives the set of the identifiers, as a list in which none
/// occurs twice, in the order given.
pub fn unique_ids<'a>(ids: &Vec<&'a str>, kind: &str) -> (r: Result<
    Vec<&'a str>,
    InfrastructureAclError,
>)
    ensures
        unique_ids_outcome(r, ids@, kind@),
{
    let ghost v = strs_view(ids@);
    let ghost check = unique_id_check(v, kind@);
    let mut seen: Vec<&'a str> = Vec::new();
    let mut i: usize = 0;
    while i < ids.len()
        invariant
            v == strs_view(ids@),
            check == unique_id_check(v, kind@),
            i <= ids.len(),
            first_error(i as nat, check) is None,
            seen@ == ids@.subrange(0, i as int),
        decreases ids.len() - i,
    {
        proof {
            lemma_first_error_step(i as nat, check);
        }
        let id = ids[i];
        if is_blank_str(id) {
            proof {
                lemma_first_error_prefix((i + 1) as nat, ids.len() as nat, check);
            }
            return Err(InfrastructureAclError::Validation(cat2(kind, " id cannot be empty")));
        }
        if contains_str_before(ids, i, id) {
            proof {
                let j = choose|j: int| 0 <= j < i && ids@[j]@ == id@;
                assert(v[j] == v[i as int]);
                lemma_first_error_prefix((i + 1) as nat, ids.len() as nat, check);
            }
            return Err(InfrastructureAclError::Validation(cat5("duplicate ", kind, " id '", id, "'")));
        }
        proof {
            assert forall|j: int| 0 <= j < i implies v[j] != v[i as int] by {
                assert(ids@[j]@ != id@);
            }
        }
        seen.push(id);
        i = i + 1;
        proof {
            assert(seen@ =~= ids@.subrange(0, i as int));
        }
    }
    proof {
        assert(seen@ =~= ids@);
    }
    Ok(seen)
}

/// Whether `p`, split at `/`, has a `..` segment.
pub open spec fn has_parent_segment(p: Seq<char>) -> bool {
    exists|i: int|
        0 <= i && i + 2 <= p.len() && #[trigger] p[i] == '.' && p[i + 1] == '.' && (i == 0 || p[i
            - 1] == '/') && (i + 2 == p.len() || p[i + 2] == '/')
}

/// The error of a relative path `value` named `field`: after trimming it must
/// be non-empty, must not start at the root, and must not step into a parent
/// directory.
pub open spec fn relative_path_error(field: Seq<char>, value: Seq<char>) -> Option<Seq<char>> {
    let v = trim_seq(value);
    if v.len() == 0 {
        Some(field + " cannot be empty"@)
    } else if v[0] == '/' {
        Some(field + " must use relative paths"@)
    } else if has_parent_segment(v) {
        Some(field + " must not contain parent traversal"@)
    } else {
        None
    }
}

/// Whether the path `p` has a `..` segment.
pub fn path_has_parent_segment(p: &str) -> (r: bool)
    ensures
        r == has_parent_segment(p@),
{
    let cs = chars_of(p);
    let n = cs.len();
    let mut i: usize = 0;
    while n >= 2 && i <= n - 2
        invariant
            cs@ == p@,
            n == cs@.len(),
            forall|k: int|
                0 <= k < i ==> !(k + 2 <= p@.len() && #[trigger] p@[k] == '.' && p@[k + 1] == '.'
                    && (k == 0 || p@[k - 1] == '/') && (k + 2 == p@.len() || p@[k + 2] == '/')),
        decreases n - i,
    {
        if cs[i] == '.' && cs[i + 1] == '.' && (i == 0 || cs[i - 1] == '/') && (i + 2 == n || cs[i
            + 2] == '/') {
            return true;
        }
        i = i + 1;
    }
    false
}

/// Checks that `value` is a usable relative path; `field` names it in the error.
pub fn validate_relative_path(field: &str, value: &str) -> (r: Result<(), InfrastructureAclError>)
    ensures
        acl_outcome(r, relative_path_error(field@, value@)),
{
    let v = trim(value);
    if v.unicode_len() == 0 {
        return validation_error(cat2(field, " cannot be empty"));
    }
    if v.get_char(0) == '/' {
        return validation_error(cat2(field, " must use relative paths"));
    }
    if path_has_parent_segment(v) {
        return validation_error(cat2(field, " must not contain parent traversal"));
    }
    Ok(())
}

/// The default execution budget, in milliseconds, of a wasm plugin node.
pub fn default_wasm_plugin_timeout_ms() -> (ms: u64)
    ensures
        ms == 20,
{
    20
}

} // verus!
