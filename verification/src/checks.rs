//! First-failure semantics of a sequence of checks, each of which either
//! passes or yields an error message.
use vstd::prelude::*;

verus! {

/// The first error among `check(0), ..., check(n - 1)`, if any.
pub open spec fn first_error(n: nat, check: spec_fn(int) -> Option<Seq<char>>) -> Option<Seq<char>>
    decreases n,
{
    if n == 0 {
        None
    } else {
        match first_error((n - 1) as nat, check) {
            Some(e) => Some(e),
            None => check(n - 1),
        }
    }
}

/// The first error of two checks run one after the other.
pub open spec fn or_else(first: Option<Seq<char>>, second: Option<Seq<char>>) -> Option<Seq<char>> {
    match first {
        Some(e) => Some(e),
        None => second,
    }
}

/// Once a prefix of the checks has failed, the whole run fails with the same error.
pub proof fn lemma_first_error_prefix(m: nat, n: nat, check: spec_fn(int) -> Option<Seq<char>>)
    requires
        m <= n,
    ensures
        first_error(m, check) is Some ==> first_error(n, check) == first_error(m, check),
    decreases n - m,
{
    if m < n {
        lemma_first_error_prefix(m, (n - 1) as nat, check);
    }
}

/// A run of checks passes exactly when every check passes.
pub proof fn lemma_first_error_none(n: nat, check: spec_fn(int) -> Option<Seq<char>>)
    ensures
        first_error(n, check) is None <==> forall|i: int| 0 <= i < n ==> #[trigger] check(i) is None,
    decreases n,
{
    if n > 0 {
        lemma_first_error_none((n - 1) as nat, check);
    }
}

/// When a run of checks fails, some check fails with that error and every
/// earlier check passes.
pub proof fn lemma_first_error_some(n: nat, check: spec_fn(int) -> Option<Seq<char>>)
    requires
        first_error(n, check) is Some,
    ensures
        exists|k: int|
            #![trigger check(k)]
            0 <= k < n && check(k) == first_error(n, check) && forall|j: int|
                0 <= j < k ==> #[trigger] check(j) is None,
    decreases n,
{
    if first_error((n - 1) as nat, check) is Some {
        lemma_first_error_some((n - 1) as nat, check);
    } else {
        lemma_first_error_none((n - 1) as nat, check);
        assert(check(n - 1) == first_error(n, check));
    }
}

/// Extending a passing prefix by one check.
pub proof fn lemma_first_error_step(i: nat, check: spec_fn(int) -> Option<Seq<char>>)
    requires
        first_error(i, check) is None,
    ensures
        first_error(i + 1, check) == check(i as int),
{
}

} // verus!
