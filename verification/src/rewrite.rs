//! Executable `replace` and `split` on strings, proved against the
//! left-to-right specifications in `text`.
use vstd::prelude::*;
use crate::text::{lemma_find_from, replace_all, split_all, find_first_exec};

verus! {

/// `s` with every occurrence of `from` replaced by `to`, scanning left to
/// right (`str::replace` with a non-empty pattern).
pub fn replace_all_exec(s: &str, from: &str, to: &str) -> (r: String)
    ensures
        r@ == replace_all(s@, from@, to@),
{
    let m = from.unicode_len();
    if m == 0 {
        return String::from_str(s);
    }
    let mut out = String::new();
    let mut rest: &str = s;
    loop
        invariant
            m == from@.len(),
            m > 0,
            out@ + replace_all(rest@, from@, to@) == replace_all(s@, from@, to@),
        decreases rest@.len(),
    {
        match find_first_exec(rest, from) {
            None => {
                out.append(rest);
                return out;
            },
            Some(i) => {
                proof {
                    lemma_find_from(rest@, from@, 0);
                }
                let n = rest.unicode_len();
                let head = rest.substring_char(0, i);
                let tail = rest.substring_char(i + m, n);
                proof {
                    assert(replace_all(rest@, from@, to@) == head@ + to@ + replace_all(
                        tail@,
                        from@,
                        to@,
                    ));
                    assert(out@ + head@ + to@ + replace_all(tail@, from@, to@) == out@ + (head@
                        + to@ + replace_all(tail@, from@, to@)));
                }
                out.append(head);
                out.append(to);
                rest = tail;
            },
        }
    }
}

/// The pieces of `s` between occurrences of the non-empty `sep`, left to
/// right (`str::split`).
pub fn split_all_exec<'a>(s: &'a str, sep: &str) -> (r: Vec<&'a str>)
    requires
        sep@.len() > 0,
    ensures
        r@.len() == split_all(s@, sep@).len(),
        forall|k: int| 0 <= k < r@.len() ==> #[trigger] r@[k]@ == split_all(s@, sep@)[k],
{
    let m = sep.unicode_len();
    let mut out: Vec<&'a str> = Vec::new();
    let mut rest: &'a str = s;
    loop
        invariant
            m == sep@.len(),
            m > 0,
            out@.map_values(|p: &str| p@) + split_all(rest@, sep@) == split_all(s@, sep@),
        decreases rest@.len(),
    {
        match find_first_exec(rest, sep) {
            None => {
                let ghost before = out@.map_values(|p: &str| p@);
                out.push(rest);
                proof {
                    assert(split_all(rest@, sep@) == seq![rest@]);
                    assert(out@.map_values(|p: &str| p@) == before.push(rest@));
                    let whole = split_all(s@, sep@);
                    assert(out@.map_values(|p: &str| p@) == whole);
                    assert forall|k: int| 0 <= k < out@.len() implies #[trigger] out@[k]@
                        == whole[k] by {
                        assert(out@.map_values(|p: &str| p@)[k] == out@[k]@);
                    }
                }
                return out;
            },
            Some(i) => {
                proof {
                    lemma_find_from(rest@, sep@, 0);
                }
                let n = rest.unicode_len();
                let head = rest.substring_char(0, i);
                let tail = rest.substring_char(i + m, n);
                let ghost before = out@.map_values(|p: &str| p@);
                proof {
                    assert(split_all(rest@, sep@) == seq![head@] + split_all(tail@, sep@));
                }
                out.push(head);
                proof {
                    assert(out@.map_values(|p: &str| p@) == before.push(head@));
                    assert(before.push(head@) + split_all(tail@, sep@) == before + (seq![head@]
                        + split_all(tail@, sep@)));
                }
                rest = tail;
            },
        }
    }
}

} // verus!
