//! The source preparation of the JavaScript code runner.
use vstd::prelude::*;
use crate::text::{
    find_first, find_first_exec, is_whitespace, is_whitespace_char, lemma_find_from,
    starts_with, str_starts_with,
};

verus! {

/// `s` without its leading whitespace (`str::trim_start`).
pub open spec fn trim_start_seq(s: Seq<char>) -> Seq<char> {
    if forall|i: int| 0 <= i < s.len() ==> is_whitespace_char(#[trigger] s[i]) {
        Seq::empty()
    } else {
        let a = choose|a: int|
            0 <= a < s.len() && !is_whitespace_char(s[a]) && forall|j: int|
                0 <= j < a ==> is_whitespace_char(#[trigger] s[j]);
        s.subrange(a, s.len() as int)
    }
}

/// `s` with its first occurrence of `from` replaced by `to`
/// (`str::replacen(from, to, 1)`).
pub open spec fn replace_first(s: Seq<char>, from: Seq<char>, to: Seq<char>) -> Seq<char> {
    match find_first(s, from) {
        Some(i) => s.subrange(0, i) + to + s.subrange(i + from.len(), s.len() as int),
        None => s,
    }
}

/// The source as the runner evaluates it: a script whose code (after
/// leading whitespace) starts with `export function run` has that first
/// `export function run` turned into `function run`; any other script is
/// unchanged.
pub open spec fn normalized_source(source: Seq<char>) -> Seq<char> {
    if starts_with(trim_start_seq(source), "export function run"@) {
        replace_first(source, "export function run"@, "function run"@)
    } else {
        source
    }
}

fn trim_start(s: &str) -> (r: &str)
    ensures
        r@ == trim_start_seq(s@),
{
    let n = s.unicode_len();
    let mut a: usize = 0;
    while a < n && is_whitespace(s.get_char(a))
        invariant
            n == s@.len(),
            a <= n,
            forall|j: int| 0 <= j < a ==> is_whitespace_char(#[trigger] s@[j]),
        decreases n - a,
    {
        a = a + 1;
    }
    proof {
        if a < n {
            let a0 = choose|x: int|
                0 <= x < s@.len() && !is_whitespace_char(s@[x]) && forall|j: int|
                    0 <= j < x ==> is_whitespace_char(#[trigger] s@[j]);
            assert(!is_whitespace_char(s@[a as int]));
            if a0 < a {
                assert(is_whitespace_char(s@[a0]));
            }
            if a < a0 {
                assert(is_whitespace_char(s@[a as int]));
            }
        } else {
            assert(s@.subrange(n as int, n as int) =~= Seq::<char>::empty());
        }
    }
    s.substring_char(a, n)
}

/// The source that the runner evaluates (see `normalized_source`).
pub fn normalize_source(source: &str) -> (r: String)
    ensures
        r@ == normalized_source(source@),
{
    let trimmed = trim_start(source);
    if str_starts_with(trimmed, "export function run") {
        match find_first_exec(source, "export function run") {
            Some(i) => {
                proof {
                    lemma_find_from(source@, "export function run"@, 0);
                }
                let n = source.unicode_len();
                let m = "export function run".unicode_len();
                let mut r = String::from_str(source.substring_char(0, i));
                r.append("function run");
                r.append(source.substring_char(i + m, n));
                r
            },
            None => String::from_str(source),
        }
    } else {
        String::from_str(source)
    }
}

} // verus!
