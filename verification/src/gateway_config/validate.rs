//! The identifier checks of a gateway configuration.
use vstd::prelude::*;
use crate::config_acl::util::{strs_view, unique_ids_error};

verus! {

/// Checks that identifiers of one `kind` are non-blank and pairwise
/// distinct; the error names the first blank or repeated identifier. On
/// success it gives the set of the identifiers, as a list in which none
/// occurs twice, in the order given.
pub fn unique_ids<'a>(ids: &Vec<&'a str>, kind: &str) -> (r: Result<Vec<&'a str>, String>)
    ensures
        match unique_ids_error(strs_view(ids@), kind@) {
            Some(m) => r matches Err(e) && e@ == m,
            None => r matches Ok(s) && s@ == ids@,
        },
{
    match crate::config_acl::util::unique_ids(ids, kind) {
        Ok(s) => Ok(s),
        Err(e) => Err(e.message()),
    }
}

} // verus!
