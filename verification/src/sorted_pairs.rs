//! String-keyed maps kept as key-sorted lists of pairs: the lexicographic
//! order of `String`, and the map that collecting a list of pairs gives
//! (later pairs overwrite earlier ones, keys listed in increasing order).
use vstd::prelude::*;
use crate::text::str_eq;

verus! {

/// `a` sorts strictly before `b`, comparing code points left to right (the
/// order of `String`'s `Ord`, which compares UTF-8 bytes).
pub open spec fn seq_lt(a: Seq<char>, b: Seq<char>) -> bool
    decreases a.len(),
{
    if a.len() == 0 {
        b.len() > 0
    } else if b.len() == 0 {
        false
    } else if a[0] != b[0] {
        (a[0] as u32) < (b[0] as u32)
    } else {
        seq_lt(a.drop_first(), b.drop_first())
    }
}

pub proof fn lemma_lt_irreflexive(a: Seq<char>)
    ensures
        !seq_lt(a, a),
    decreases a.len(),
{
    if a.len() > 0 {
        lemma_lt_irreflexive(a.drop_first());
    }
}

pub proof fn lemma_lt_transitive(a: Seq<char>, b: Seq<char>, c: Seq<char>)
    requires
        seq_lt(a, b),
        seq_lt(b, c),
    ensures
        seq_lt(a, c),
    decreases a.len(),
{
    if a.len() > 0 && b.len() > 0 && c.len() > 0 && a[0] == b[0] && b[0] == c[0] {
        lemma_lt_transitive(a.drop_first(), b.drop_first(), c.drop_first());
    }
}

pub proof fn lemma_lt_total(a: Seq<char>, b: Seq<char>)
    ensures
        a == b || seq_lt(a, b) || seq_lt(b, a),
    decreases a.len(),
{
    if a.len() > 0 && b.len() > 0 && a[0] == b[0] {
        lemma_lt_total(a.drop_first(), b.drop_first());
        if a.drop_first() == b.drop_first() {
            assert(a =~= seq![a[0]] + a.drop_first());
            assert(b =~= seq![b[0]] + b.drop_first());
        }
    } else if a.len() == 0 && b.len() == 0 {
        assert(a =~= b);
    } else if a.len() > 0 && b.len() > 0 {
        vstd::utf8::char_u32_cast(a[0], a[0] as u32);
        vstd::utf8::char_u32_cast(b[0], b[0] as u32);
    }
}

pub proof fn lemma_lt_asymmetric(a: Seq<char>, b: Seq<char>)
    requires
        seq_lt(a, b),
    ensures
        !seq_lt(b, a),
{
    if seq_lt(b, a) {
        lemma_lt_transitive(a, b, a);
        lemma_lt_irreflexive(a);
    }
}

/// The keys of `s` increase strictly.
pub open spec fn strictly_sorted(s: Seq<Seq<char>>) -> bool {
    forall|i: int, j: int| 0 <= i < j < s.len() ==> seq_lt(#[trigger] s[i], #[trigger] s[j])
}

/// Two strictly sorted lists with the same members are the same list.
pub proof fn lemma_sorted_unique(s1: Seq<Seq<char>>, s2: Seq<Seq<char>>)
    requires
        strictly_sorted(s1),
        strictly_sorted(s2),
        forall|x: Seq<char>| s1.contains(x) <==> s2.contains(x),
    ensures
        s1 == s2,
    decreases s1.len(),
{
    if s1.len() == 0 {
        if s2.len() > 0 {
            assert(s2.contains(s2[0]));
        }
        assert(s1 =~= s2);
    } else {
        assert(s1.contains(s1[0]));
        let j = choose|j: int| 0 <= j < s2.len() && s2[j] == s1[0];
        assert(s2.contains(s2[0]));
        let i = choose|i: int| 0 <= i < s1.len() && s1[i] == s2[0];
        if j > 0 {
            assert(seq_lt(s2[0], s2[j]));
            if i > 0 {
                assert(seq_lt(s1[0], s1[i]));
                lemma_lt_asymmetric(s1[0], s1[i]);
            } else {
                lemma_lt_irreflexive(s1[0]);
            }
        }
        assert(s2[0] == s1[0]);
        let t1 = s1.drop_first();
        let t2 = s2.drop_first();
        assert forall|x: Seq<char>| t1.contains(x) <==> t2.contains(x) by {
            if t1.contains(x) {
                let a = choose|a: int| 0 <= a < t1.len() && t1[a] == x;
                assert(s1[a + 1] == x);
                assert(seq_lt(s1[0], s1[a + 1]));
                lemma_lt_irreflexive(x);
                assert(s1.contains(x));
                let b = choose|b: int| 0 <= b < s2.len() && s2[b] == x;
                assert(b != 0);
                assert(t2[b - 1] == x);
            }
            if t2.contains(x) {
                let a = choose|a: int| 0 <= a < t2.len() && t2[a] == x;
                assert(s2[a + 1] == x);
                assert(seq_lt(s2[0], s2[a + 1]));
                lemma_lt_irreflexive(x);
                assert(s2.contains(x));
                let b = choose|b: int| 0 <= b < s1.len() && s1[b] == x;
                assert(b != 0);
                assert(t1[b - 1] == x);
            }
        }
        lemma_sorted_unique(t1, t2);
        assert(s1 =~= seq![s1[0]] + t1);
        assert(s2 =~= seq![s2[0]] + t2);
    }
}

/// Some pair of `pairs` has key `k`.
pub open spec fn has_key(pairs: Seq<(Seq<char>, Seq<char>)>, k: Seq<char>) -> bool {
    exists|i: int| 0 <= i < pairs.len() && (#[trigger] pairs[i]).0 == k
}

/// The value of the last pair of `pairs` with key `k`.
pub open spec fn last_value(pairs: Seq<(Seq<char>, Seq<char>)>, k: Seq<char>) -> Seq<char>
    decreases pairs.len(),
{
    if pairs.len() == 0 {
        Seq::empty()
    } else if pairs.last().0 == k {
        pairs.last().1
    } else {
        last_value(pairs.drop_last(), k)
    }
}

/// The keys of a list of pairs.
pub open spec fn keys_of(entries: Seq<(Seq<char>, Seq<char>)>) -> Seq<Seq<char>> {
    entries.map_values(|e: (Seq<char>, Seq<char>)| e.0)
}

/// `entries` is the map that collecting `pairs` gives: one entry per key of
/// `pairs`, holding the value of its last pair, listed in increasing key order.
pub open spec fn collects(
    entries: Seq<(Seq<char>, Seq<char>)>,
    pairs: Seq<(Seq<char>, Seq<char>)>,
) -> bool {
    &&& strictly_sorted(keys_of(entries))
    &&& forall|k: Seq<char>| has_key(pairs, k) <==> keys_of(entries).contains(k)
    &&& forall|i: int|
        0 <= i < entries.len() ==> (#[trigger] entries[i]).1 == last_value(pairs, entries[i].0)
}

/// The map that collecting `pairs` into an ordered map gives, in key order.
pub open spec fn collected(pairs: Seq<(Seq<char>, Seq<char>)>) -> Seq<(Seq<char>, Seq<char>)> {
    choose|entries: Seq<(Seq<char>, Seq<char>)>| collects(entries, pairs)
}

/// The collected map of a list of pairs is determined by the pairs.
pub proof fn lemma_collected_unique(
    entries: Seq<(Seq<char>, Seq<char>)>,
    pairs: Seq<(Seq<char>, Seq<char>)>,
)
    requires
        collects(entries, pairs),
    ensures
        entries == collected(pairs),
{
    let other = collected(pairs);
    assert(collects(other, pairs));
    assert forall|x: Seq<char>| keys_of(entries).contains(x) <==> keys_of(other).contains(x) by {
        if keys_of(entries).contains(x) {
            assert(has_key(pairs, x));
        }
        if keys_of(other).contains(x) {
            assert(has_key(pairs, x));
        }
    }
    lemma_sorted_unique(keys_of(entries), keys_of(other));
    assert(entries.len() == keys_of(entries).len());
    assert forall|i: int| 0 <= i < entries.len() implies entries[i] == other[i] by {
        assert(keys_of(entries)[i] == keys_of(other)[i]);
    }
    assert(entries =~= other);
}

/// The views of a list of string pairs.
pub open spec fn pairs_view(v: Seq<(String, String)>) -> Seq<(Seq<char>, Seq<char>)> {
    v.map_values(|p: (String, String)| (p.0@, p.1@))
}

/// Whether `a` sorts strictly before `b`.
pub fn str_lt(a: &str, b: &str) -> (r: bool)
    ensures
        r == seq_lt(a@, b@),
{
    let n = a.unicode_len();
    let m = b.unicode_len();
    let mut i: usize = 0;
    proof {
        assert(a@.skip(0) =~= a@);
        assert(b@.skip(0) =~= b@);
    }
    while i < n && i < m
        invariant
            n == a@.len(),
            m == b@.len(),
            i <= n,
            i <= m,
            seq_lt(a@, b@) == seq_lt(a@.skip(i as int), b@.skip(i as int)),
        decreases n - i,
    {
        let x = a.get_char(i);
        let y = b.get_char(i);
        if x != y {
            return (x as u32) < (y as u32);
        }
        proof {
            assert(a@.skip(i as int).drop_first() =~= a@.skip(i + 1));
            assert(b@.skip(i as int).drop_first() =~= b@.skip(i + 1));
        }
        i = i + 1;
    }
    i == n && i < m
}

/// Adds `(k, v)` to the collected map `entries`: the value of an existing
/// key `k` is replaced, a new key goes where the order puts it.
fn collect_one(entries: &mut Vec<(String, String)>, k: String, v: String)
    ensures
        forall|pairs: Seq<(Seq<char>, Seq<char>)>|
            collects(pairs_view(old(entries)@), pairs) ==> collects(
                pairs_view(final(entries)@),
                pairs.push((k@, v@)),
            ),
{
    let n = entries.len();
    let mut j: usize = 0;
    while j < n && str_lt(entries[j].0.as_str(), k.as_str())
        invariant
            n == entries.len(),
            j <= n,
            forall|a: int| 0 <= a < j ==> seq_lt(#[trigger] entries@[a].0@, k@),
        decreases n - j,
    {
        j = j + 1;
    }
    let ghost before = pairs_view(entries@);
    if j < n && str_eq(entries[j].0.as_str(), k.as_str()) {
        entries.set(j, (k, v));
        proof {
            let after = pairs_view(entries@);
            assert forall|pairs: Seq<(Seq<char>, Seq<char>)>|
                collects(before, pairs) implies collects(after, pairs.push((k@, v@))) by {
                let p2 = pairs.push((k@, v@));
                assert(keys_of(after) =~= keys_of(before));
                assert(p2.drop_last() =~= pairs);
                assert forall|x: Seq<char>| has_key(p2, x) <==> keys_of(after).contains(x) by {
                    if has_key(p2, x) {
                        let i = choose|i: int| 0 <= i < p2.len() && (#[trigger] p2[i]).0 == x;
                        if i < pairs.len() {
                            assert(pairs[i] == p2[i]);
                            assert(has_key(pairs, x));
                        } else {
                            assert(keys_of(after)[j as int] == x);
                        }
                    }
                    if keys_of(after).contains(x) {
                        assert(keys_of(before).contains(x));
                        assert(has_key(pairs, x));
                        let i = choose|i: int| 0 <= i < pairs.len() && (#[trigger] pairs[i]).0 == x;
                        assert(p2[i] == pairs[i]);
                    }
                }
                assert forall|i: int| 0 <= i < after.len() implies (#[trigger] after[i]).1
                    == last_value(p2, after[i].0) by {
                    if i != j {
                        assert(keys_of(before)[i] == before[i].0);
                        assert(keys_of(before)[j as int] == before[j as int].0);
                        if i < j {
                            assert(seq_lt(keys_of(before)[i], keys_of(before)[j as int]));
                        } else {
                            assert(seq_lt(keys_of(before)[j as int], keys_of(before)[i]));
                        }
                        lemma_lt_irreflexive(k@);
                    }
                }
            }
        }
    } else {
        proof {
            if j < n {
                lemma_lt_total(entries@[j as int].0@, k@);
            }
        }
        entries.insert(j, (k, v));
        proof {
            let after = pairs_view(entries@);
            assert(after =~= before.insert(j as int, (k@, v@)));
            assert forall|pairs: Seq<(Seq<char>, Seq<char>)>|
                collects(before, pairs) implies collects(after, pairs.push((k@, v@))) by {
                let p2 = pairs.push((k@, v@));
                let kb = keys_of(before);
                let ka = keys_of(after);
                assert(ka =~= kb.insert(j as int, k@));
                assert(p2.drop_last() =~= pairs);
                assert forall|a: int, b: int| 0 <= a < b < ka.len() implies seq_lt(
                    #[trigger] ka[a],
                    #[trigger] ka[b],
                ) by {
                    if b < j {
                        assert(seq_lt(kb[a], kb[b]));
                    } else if b == j {
                        assert(kb[a] == entries@[a].0@);
                    } else if a == j {
                        assert(seq_lt(k@, kb[j as int]));
                        if b - 1 > j {
                            assert(seq_lt(kb[j as int], kb[b - 1]));
                            lemma_lt_transitive(k@, kb[j as int], kb[b - 1]);
                        }
                    } else if a < j {
                        assert(kb[a] == entries@[a].0@);
                        assert(seq_lt(kb[a], k@));
                        assert(seq_lt(k@, kb[j as int]));
                        lemma_lt_transitive(kb[a], k@, kb[j as int]);
                        if b - 1 > j {
                            assert(seq_lt(kb[j as int], kb[b - 1]));
                            lemma_lt_transitive(kb[a], kb[j as int], kb[b - 1]);
                        }
                    } else {
                        assert(seq_lt(kb[a - 1], kb[b - 1]));
                    }
                }
                assert forall|x: Seq<char>| has_key(p2, x) <==> ka.contains(x) by {
                    if has_key(p2, x) {
                        let i = choose|i: int| 0 <= i < p2.len() && (#[trigger] p2[i]).0 == x;
                        if i < pairs.len() {
                            assert(pairs[i] == p2[i]);
                            assert(has_key(pairs, x));
                            assert(kb.contains(x));
                            let c = choose|c: int| 0 <= c < kb.len() && kb[c] == x;
                            if c < j {
                                assert(ka[c] == x);
                            } else {
                                assert(ka[c + 1] == x);
                            }
                        } else {
                            assert(ka[j as int] == x);
                        }
                    }
                    if ka.contains(x) {
                        let c = choose|c: int| 0 <= c < ka.len() && ka[c] == x;
                        if c == j {
                            assert(p2[pairs.len() as int].0 == x);
                        } else {
                            if c < j {
                                assert(kb[c] == x);
                            } else {
                                assert(kb[c - 1] == x);
                            }
                            assert(kb.contains(x));
                            assert(has_key(pairs, x));
                            let i = choose|i: int| 0 <= i < pairs.len() && (#[trigger] pairs[i]).0
                                == x;
                            assert(p2[i] == pairs[i]);
                        }
                    }
                }
                assert forall|i: int| 0 <= i < after.len() implies (#[trigger] after[i]).1
                    == last_value(p2, after[i].0) by {
                    if i < j {
                        assert(after[i] == before[i]);
                        assert(kb[i] == before[i].0);
                        assert(seq_lt(kb[i], k@));
                        lemma_lt_irreflexive(k@);
                    } else if i > j {
                        assert(after[i] == before[i - 1]);
                        assert(kb[i - 1] == before[i - 1].0);
                        assert(seq_lt(k@, kb[j as int]));
                        if i - 1 > j {
                            assert(seq_lt(kb[j as int], kb[i - 1]));
                            lemma_lt_transitive(k@, kb[j as int], kb[i - 1]);
                        }
                        lemma_lt_irreflexive(k@);
                    }
                }
            }
        }
    }
}

/// Collects `pairs` into an ordered map: later pairs overwrite earlier ones
/// with the same key, and the keys come out in increasing order.
pub fn collect_pairs(pairs: Vec<(String, String)>) -> (r: Vec<(String, String)>)
    ensures
        pairs_view(r@) == collected(pairs_view(pairs@)),
{
    let mut entries: Vec<(String, String)> = Vec::new();
    let n = pairs.len();
    let mut i: usize = 0;
    proof {
        assert(keys_of(pairs_view(entries@)) =~= Seq::<Seq<char>>::empty());
        assert(pairs_view(pairs@).take(0) =~= Seq::<(Seq<char>, Seq<char>)>::empty());
    }
    while i < n
        invariant
            n == pairs.len(),
            i <= n,
            collects(pairs_view(entries@), pairs_view(pairs@).take(i as int)),
        decreases n - i,
    {
        let k = pairs[i].0.clone();
        let v = pairs[i].1.clone();
        proof {
            assert(pairs_view(pairs@).take(i + 1) =~= pairs_view(pairs@).take(i as int).push(
                (k@, v@),
            ));
        }
        collect_one(&mut entries, k, v);
        i = i + 1;
    }
    proof {
        assert(pairs_view(pairs@).take(n as int) =~= pairs_view(pairs@));
        lemma_collected_unique(pairs_view(entries@), pairs_view(pairs@));
    }
    entries
}

/// The value of the first entry with key `k`.
pub open spec fn lookup(entries: Seq<(Seq<char>, Seq<char>)>, k: Seq<char>) -> Option<Seq<char>>
    decreases entries.len(),
{
    if entries.len() == 0 {
        None
    } else if entries[0].0 == k {
        Some(entries[0].1)
    } else {
        lookup(entries.drop_first(), k)
    }
}

/// The value stored under `k` (`BTreeMap::get`).
pub fn lookup_exec<'a>(entries: &'a Vec<(String, String)>, k: &str) -> (r: Option<&'a String>)
    ensures
        match r {
            Some(v) => lookup(pairs_view(entries@), k@) == Some(v@),
            None => lookup(pairs_view(entries@), k@) is None,
        },
{
    let n = entries.len();
    let mut i: usize = 0;
    proof {
        assert(pairs_view(entries@).skip(0) =~= pairs_view(entries@));
    }
    while i < n
        invariant
            n == entries.len(),
            i <= n,
            lookup(pairs_view(entries@), k@) == lookup(pairs_view(entries@).skip(i as int), k@),
        decreases n - i,
    {
        proof {
            let rest = pairs_view(entries@).skip(i as int);
            assert(rest[0] == (entries@[i as int].0@, entries@[i as int].1@));
            assert(rest.drop_first() =~= pairs_view(entries@).skip(i + 1));
        }
        if str_eq(entries[i].0.as_str(), k) {
            return Some(&entries[i].1);
        }
        i = i + 1;
    }
    None
}

proof fn lemma_lookup_index(entries: Seq<(Seq<char>, Seq<char>)>, k: Seq<char>, i: int)
    requires
        0 <= i < entries.len(),
        entries[i].0 == k,
        forall|j: int| 0 <= j < i ==> (#[trigger] entries[j]).0 != k,
    ensures
        lookup(entries, k) == Some(entries[i].1),
    decreases i,
{
    if i > 0 {
        assert(entries[0].0 != k);
        let rest = entries.drop_first();
        assert forall|j: int| 0 <= j < i - 1 implies (#[trigger] rest[j]).0 != k by {
            assert(rest[j] == entries[j + 1]);
        }
        lemma_lookup_index(rest, k, i - 1);
    }
}

proof fn lemma_lookup_absent(entries: Seq<(Seq<char>, Seq<char>)>, k: Seq<char>)
    requires
        forall|j: int| 0 <= j < entries.len() ==> (#[trigger] entries[j]).0 != k,
    ensures
        lookup(entries, k) is None,
    decreases entries.len(),
{
    if entries.len() > 0 {
        let rest = entries.drop_first();
        assert forall|j: int| 0 <= j < rest.len() implies (#[trigger] rest[j]).0 != k by {
            assert(rest[j] == entries[j + 1]);
        }
        lemma_lookup_absent(rest, k);
    }
}

/// A collected map answers a key with the value of the last pair that has
/// it, and has no entry for a key that no pair has.
pub proof fn lemma_collected_lookup(
    entries: Seq<(Seq<char>, Seq<char>)>,
    pairs: Seq<(Seq<char>, Seq<char>)>,
    k: Seq<char>,
)
    requires
        collects(entries, pairs),
    ensures
        lookup(entries, k) == (if has_key(pairs, k) {
            Some(last_value(pairs, k))
        } else {
            None
        }),
{
    let ks = keys_of(entries);
    if has_key(pairs, k) {
        assert(ks.contains(k));
        let i = choose|i: int| 0 <= i < ks.len() && ks[i] == k;
        assert forall|j: int| 0 <= j < i implies (#[trigger] entries[j]).0 != k by {
            assert(ks[j] == entries[j].0);
            assert(seq_lt(ks[j], ks[i]));
            lemma_lt_irreflexive(k);
        }
        lemma_lookup_index(entries, k, i);
    } else {
        assert forall|j: int| 0 <= j < entries.len() implies (#[trigger] entries[j]).0 != k by {
            assert(ks[j] == entries[j].0);
            if entries[j].0 == k {
                assert(ks.contains(k));
            }
        }
        lemma_lookup_absent(entries, k);
    }
}

} // verus!
