//! Character-level helpers on strings: whitespace, trimming, equality,
//! prefix and substring tests, ASCII case folding and decimal rendering.
use vstd::prelude::*;

verus! {

/// Unicode `White_Space`, the set that `char::is_whitespace` recognises.
pub open spec fn is_whitespace_char(c: char) -> bool {
    let u = c as u32;
    ||| 0x9 <= u <= 0xd
    ||| u == 0x20
    ||| u == 0x85
    ||| u == 0xa0
    ||| u == 0x1680
    ||| 0x2000 <= u <= 0x200a
    ||| u == 0x2028
    ||| u == 0x2029
    ||| u == 0x202f
    ||| u == 0x205f
    ||| u == 0x3000
}

/// A string made of whitespace only (the empty string included).
pub open spec fn is_blank(s: Seq<char>) -> bool {
    forall|i: int| 0 <= i < s.len() ==> is_whitespace_char(#[trigger] s[i])
}

/// `a` is the index of the first non-whitespace character of `s`.
pub open spec fn is_trim_start(s: Seq<char>, a: int) -> bool {
    &&& 0 <= a < s.len()
    &&& !is_whitespace_char(s[a])
    &&& forall|j: int| 0 <= j < a ==> is_whitespace_char(#[trigger] s[j])
}

/// `b` is the index of the last non-whitespace character of `s`.
pub open spec fn is_trim_end(s: Seq<char>, b: int) -> bool {
    &&& 0 <= b < s.len()
    &&& !is_whitespace_char(s[b])
    &&& forall|j: int| b < j < s.len() ==> is_whitespace_char(#[trigger] s[j])
}

/// `s` without its leading and trailing whitespace (what `str::trim` gives).
pub open spec fn trim_seq(s: Seq<char>) -> Seq<char> {
    if is_blank(s) {
        Seq::empty()
    } else {
        let a = choose|a: int| is_trim_start(s, a);
        let b = choose|b: int| is_trim_end(s, b);
        s.subrange(a, b + 1)
    }
}

/// ASCII lower-casing of one character (`char::to_ascii_lowercase`).
pub open spec fn ascii_lower(c: char) -> char {
    if 'A' <= c && c <= 'Z' {
        ((c as u32) + 32) as char
    } else {
        c
    }
}

/// ASCII lower-casing of a string (`str::to_ascii_lowercase`).
pub open spec fn ascii_lower_seq(s: Seq<char>) -> Seq<char> {
    s.map_values(|c: char| ascii_lower(c))
}

/// Equality up to ASCII case (`str::eq_ignore_ascii_case`).
pub open spec fn eq_ignore_ascii_case(a: Seq<char>, b: Seq<char>) -> bool {
    ascii_lower_seq(a) == ascii_lower_seq(b)
}

/// `p` is a prefix of `s`.
pub open spec fn starts_with(s: Seq<char>, p: Seq<char>) -> bool {
    p.len() <= s.len() && s.subrange(0, p.len() as int) == p
}

/// `p` is a suffix of `s`.
pub open spec fn ends_with(s: Seq<char>, p: Seq<char>) -> bool {
    p.len() <= s.len() && s.subrange(s.len() - p.len(), s.len() as int) == p
}

/// `p` occurs in `s` starting at index `i`.
pub open spec fn occurs_at(s: Seq<char>, p: Seq<char>, i: int) -> bool {
    0 <= i && i + p.len() <= s.len() && s.subrange(i, i + p.len()) == p
}

/// `p` occurs somewhere in `s` (`str::contains`).
pub open spec fn contains_seq(s: Seq<char>, p: Seq<char>) -> bool {
    exists|i: int| occurs_at(s, p, i)
}

/// The character of a decimal digit.
pub open spec fn digit_char(d: nat) -> char {
    if d == 0 { '0' }
    else if d == 1 { '1' }
    else if d == 2 { '2' }
    else if d == 3 { '3' }
    else if d == 4 { '4' }
    else if d == 5 { '5' }
    else if d == 6 { '6' }
    else if d == 7 { '7' }
    else if d == 8 { '8' }
    else { '9' }
}

/// The decimal rendering of a natural number, as `Display` prints it.
pub open spec fn decimal(n: nat) -> Seq<char>
    decreases n,
{
    if n < 10 {
        seq![digit_char(n)]
    } else {
        decimal(n / 10) + seq![digit_char(n % 10)]
    }
}

/// Text that starts and ends with a non-whitespace character is its own trim.
pub proof fn lemma_trim_unchanged(s: Seq<char>)
    requires
        s.len() > 0,
        !is_whitespace_char(s[0]),
        !is_whitespace_char(s.last()),
    ensures
        trim_seq(s) == s,
{
    assert(is_trim_start(s, 0));
    assert(is_trim_end(s, s.len() - 1));
    let a = choose|a: int| is_trim_start(s, a);
    let b = choose|b: int| is_trim_end(s, b);
    if a > 0 {
        assert(is_whitespace_char(s[0]));
    }
    if b < s.len() - 1 {
        assert(is_whitespace_char(s[s.len() - 1]));
    }
    assert(s.subrange(a, b + 1) =~= s);
}

/// Text padded with whitespace on both sides trims to itself, when it
/// starts and ends with a non-whitespace character.
pub proof fn lemma_trim_padded(w1: Seq<char>, x: Seq<char>, w2: Seq<char>)
    requires
        is_blank(w1),
        is_blank(w2),
        x.len() > 0,
        !is_whitespace_char(x[0]),
        !is_whitespace_char(x.last()),
    ensures
        trim_seq(w1 + x + w2) == x,
{
    let s = w1 + x + w2;
    let a0 = w1.len() as int;
    let b0 = w1.len() + x.len() - 1;
    assert(s[a0] == x[0]);
    assert(s[b0] == x.last());
    assert forall|j: int| 0 <= j < a0 implies is_whitespace_char(#[trigger] s[j]) by {
        assert(s[j] == w1[j]);
    }
    assert forall|j: int| b0 < j < s.len() implies is_whitespace_char(#[trigger] s[j]) by {
        assert(s[j] == w2[j - a0 - x.len()]);
    }
    assert(is_trim_start(s, a0));
    assert(is_trim_end(s, b0));
    assert(!is_blank(s));
    let a = choose|a: int| is_trim_start(s, a);
    let b = choose|b: int| is_trim_end(s, b);
    if a < a0 {
        assert(is_whitespace_char(s[a]));
    }
    if a0 < a {
        assert(is_whitespace_char(s[a0]));
    }
    if b < b0 {
        assert(is_whitespace_char(s[b0]));
    }
    if b0 < b {
        assert(is_whitespace_char(s[b]));
    }
    assert(s.subrange(a, b + 1) =~= x);
}

proof fn lemma_trim_start_exists(s: Seq<char>, k: int)
    requires
        0 <= k < s.len(),
        !is_whitespace_char(s[k]),
    ensures
        exists|a: int| is_trim_start(s, a),
    decreases k,
{
    if forall|j: int| 0 <= j < k ==> is_whitespace_char(#[trigger] s[j]) {
        assert(is_trim_start(s, k));
    } else {
        let j = choose|j: int| 0 <= j < k && !is_whitespace_char(s[j]);
        lemma_trim_start_exists(s, j);
    }
}

proof fn lemma_trim_end_exists(s: Seq<char>, k: int)
    requires
        0 <= k < s.len(),
        !is_whitespace_char(s[k]),
    ensures
        exists|b: int| is_trim_end(s, b),
    decreases s.len() - k,
{
    if forall|j: int| k < j < s.len() ==> is_whitespace_char(#[trigger] s[j]) {
        assert(is_trim_end(s, k));
    } else {
        let j = choose|j: int| k < j < s.len() && !is_whitespace_char(s[j]);
        lemma_trim_end_exists(s, j);
    }
}

/// Trimming twice is trimming once.
pub proof fn lemma_trim_idempotent(s: Seq<char>)
    ensures
        trim_seq(trim_seq(s)) == trim_seq(s),
{
    if is_blank(s) {
        assert(is_blank(Seq::<char>::empty()));
    } else {
        let k = choose|k: int| 0 <= k < s.len() && !is_whitespace_char(s[k]);
        lemma_trim_start_exists(s, k);
        lemma_trim_end_exists(s, k);
        let a = choose|a: int| is_trim_start(s, a);
        let b = choose|b: int| is_trim_end(s, b);
        if b < a {
            assert(is_whitespace_char(s[b]));
        }
        let t = trim_seq(s);
        assert(t[0] == s[a]);
        assert(t.last() == s[b]);
        lemma_trim_unchanged(t);
    }
}

/// Whether `c` is whitespace in the sense of `char::is_whitespace`.
pub fn is_whitespace(c: char) -> (r: bool)
    ensures
        r == is_whitespace_char(c),
{
    let u = c as u32;
    (0x9 <= u && u <= 0xd) || u == 0x20 || u == 0x85 || u == 0xa0 || u == 0x1680 || (0x2000 <= u
        && u <= 0x200a) || u == 0x2028 || u == 0x2029 || u == 0x202f || u == 0x205f || u == 0x3000
}

/// The characters of `s`, in order.
pub fn chars_of(s: &str) -> (v: Vec<char>)
    ensures
        v@ == s@,
{
    let n = s.unicode_len();
    let mut v: Vec<char> = Vec::new();
    let mut i: usize = 0;
    while i < n
        invariant
            n == s@.len(),
            i <= n,
            v@ == s@.subrange(0, i as int),
        decreases n - i,
    {
        let c = s.get_char(i);
        v.push(c);
        i = i + 1;
        assert(v@ =~= s@.subrange(0, i as int));
    }
    assert(v@ =~= s@);
    v
}

/// Whether `s` consists of whitespace only (`s.trim().is_empty()`).
pub fn is_blank_str(s: &str) -> (r: bool)
    ensures
        r == is_blank(s@),
{
    let cs = chars_of(s);
    let mut i: usize = 0;
    while i < cs.len()
        invariant
            cs@ == s@,
            i <= cs.len(),
            forall|j: int| 0 <= j < i ==> is_whitespace_char(#[trigger] s@[j]),
        decreases cs.len() - i,
    {
        if !is_whitespace(cs[i]) {
            return false;
        }
        i = i + 1;
    }
    true
}

/// `s` with leading and trailing whitespace removed (`str::trim`).
pub fn trim(s: &str) -> (r: &str)
    ensures
        r@ == trim_seq(s@),
{
    let cs = chars_of(s);
    let n = cs.len();
    let mut a: usize = 0;
    while a < n && is_whitespace(cs[a])
        invariant
            cs@ == s@,
            n == cs@.len(),
            a <= n,
            forall|j: int| 0 <= j < a ==> is_whitespace_char(#[trigger] s@[j]),
        decreases n - a,
    {
        a = a + 1;
    }
    if a == n {
        assert(is_blank(s@));
        return s.substring_char(0, 0);
    }
    assert(is_trim_start(s@, a as int));
    let mut b: usize = n - 1;
    while is_whitespace(cs[b])
        invariant
            cs@ == s@,
            n == cs@.len(),
            a <= b < n,
            !is_whitespace_char(s@[a as int]),
            forall|j: int| b < j < n ==> is_whitespace_char(#[trigger] s@[j]),
        decreases b,
    {
        b = b - 1;
    }
    assert(is_trim_end(s@, b as int));
    proof {
        let a0 = choose|x: int| is_trim_start(s@, x);
        let b0 = choose|x: int| is_trim_end(s@, x);
        assert(!is_blank(s@));
        if a0 < a {
            assert(is_whitespace_char(s@[a0]));
        }
        if a < a0 {
            assert(is_whitespace_char(s@[a as int]));
        }
        if b0 < b {
            assert(is_whitespace_char(s@[b as int]));
        }
        if b < b0 {
            assert(is_whitespace_char(s@[b0]));
        }
    }
    s.substring_char(a, b + 1)
}

/// Character-wise equality of two strings.
pub fn str_eq(a: &str, b: &str) -> (r: bool)
    ensures
        r == (a@ == b@),
{
    let x = chars_of(a);
    let y = chars_of(b);
    if x.len() != y.len() {
        return false;
    }
    let mut i: usize = 0;
    while i < x.len()
        invariant
            x@ == a@,
            y@ == b@,
            x.len() == y.len(),
            i <= x.len(),
            forall|j: int| 0 <= j < i ==> x@[j] == y@[j],
        decreases x.len() - i,
    {
        if x[i] != y[i] {
            return false;
        }
        i = i + 1;
    }
    assert(a@ =~= b@);
    true
}

/// ASCII lower-casing of one character.
pub fn to_ascii_lower(c: char) -> (r: char)
    ensures
        r == ascii_lower(c),
{
    if 'A' <= c && c <= 'Z' {
        let b: u8 = (c as u32) as u8;
        let l: u8 = b + 32;
        l as char
    } else {
        c
    }
}

/// Equality up to ASCII case.
pub fn str_eq_ignore_ascii_case(a: &str, b: &str) -> (r: bool)
    ensures
        r == eq_ignore_ascii_case(a@, b@),
{
    let x = chars_of(a);
    let y = chars_of(b);
    if x.len() != y.len() {
        proof {
            assert(ascii_lower_seq(a@).len() != ascii_lower_seq(b@).len());
        }
        return false;
    }
    let mut i: usize = 0;
    while i < x.len()
        invariant
            x@ == a@,
            y@ == b@,
            x.len() == y.len(),
            i <= x.len(),
            forall|j: int| 0 <= j < i ==> ascii_lower(x@[j]) == ascii_lower(y@[j]),
        decreases x.len() - i,
    {
        if to_ascii_lower(x[i]) != to_ascii_lower(y[i]) {
            proof {
                assert(ascii_lower_seq(a@)[i as int] != ascii_lower_seq(b@)[i as int]);
            }
            return false;
        }
        i = i + 1;
    }
    assert(ascii_lower_seq(a@) =~= ascii_lower_seq(b@));
    true
}

/// Whether `p` occurs in `s` at index `i` (executable form of `occurs_at`).
fn occurs_at_exec(s: &Vec<char>, p: &Vec<char>, i: usize) -> (r: bool)
    requires
        i <= s.len(),
    ensures
        r == occurs_at(s@, p@, i as int),
{
    if p.len() > s.len() - i {
        return false;
    }
    let mut k: usize = 0;
    while k < p.len()
        invariant
            i + p.len() <= s.len(),
            k <= p.len(),
            forall|j: int| 0 <= j < k ==> s@[i + j] == p@[j],
        decreases p.len() - k,
    {
        if s[i + k] != p[k] {
            proof {
                assert(s@.subrange(i as int, i + p.len())[k as int] != p@[k as int]);
            }
            return false;
        }
        k = k + 1;
    }
    assert(s@.subrange(i as int, i + p.len()) =~= p@);
    true
}

/// Whether `s` starts with `p` (`str::starts_with`).
pub fn str_starts_with(s: &str, p: &str) -> (r: bool)
    ensures
        r == starts_with(s@, p@),
{
    let x = chars_of(s);
    let y = chars_of(p);
    occurs_at_exec(&x, &y, 0)
}

/// Whether `s` ends with `p` (`str::ends_with`).
pub fn str_ends_with(s: &str, p: &str) -> (r: bool)
    ensures
        r == ends_with(s@, p@),
{
    let x = chars_of(s);
    let y = chars_of(p);
    if y.len() > x.len() {
        return false;
    }
    occurs_at_exec(&x, &y, x.len() - y.len())
}

/// The first index at which `p` occurs in `s`, if any (`str::find`).
pub fn find_str(s: &str, p: &str) -> (r: Option<usize>)
    ensures
        r is None <==> !contains_seq(s@, p@),
        r matches Some(i) ==> occurs_at(s@, p@, i as int) && forall|j: int|
            0 <= j < i ==> !occurs_at(s@, p@, j),
{
    let x = chars_of(s);
    let y = chars_of(p);
    let n = x.len();
    let mut i: usize = 0;
    while i < n
        invariant
            x@ == s@,
            y@ == p@,
            n == x@.len(),
            i <= n,
            forall|j: int| 0 <= j < i ==> !occurs_at(s@, p@, j),
        decreases n - i,
    {
        if occurs_at_exec(&x, &y, i) {
            return Some(i);
        }
        i = i + 1;
    }
    if occurs_at_exec(&x, &y, n) {
        return Some(n);
    }
    assert forall|j: int| !occurs_at(s@, p@, j) by {
        if 0 <= j && j + p@.len() <= s@.len() && j < n {
            assert(j < i);
        }
    }
    None
}

/// Whether `p` occurs in `s` (`str::contains`).
pub fn str_contains(s: &str, p: &str) -> (r: bool)
    ensures
        r == contains_seq(s@, p@),
{
    find_str(s, p).is_some()
}

/// A string holding a copy of `s`.
pub fn owned(s: &str) -> (r: String)
    ensures
        r@ == s@,
{
    String::from_str(s)
}

/// The concatenation `a + b`.
pub fn cat2(a: &str, b: &str) -> (r: String)
    ensures
        r@ == a@ + b@,
{
    let mut r = String::from_str(a);
    r.append(b);
    r
}

/// The concatenation `a + b + c`.
pub fn cat3(a: &str, b: &str, c: &str) -> (r: String)
    ensures
        r@ == a@ + b@ + c@,
{
    let mut r = String::from_str(a);
    r.append(b);
    r.append(c);
    r
}

/// The concatenation `a + b + c + d + e`.
pub fn cat5(a: &str, b: &str, c: &str, d: &str, e: &str) -> (r: String)
    ensures
        r@ == a@ + b@ + c@ + d@ + e@,
{
    let mut r = String::from_str(a);
    r.append(b);
    r.append(c);
    r.append(d);
    r.append(e);
    r
}

/// The concatenation of seven pieces.
pub fn cat7(a: &str, b: &str, c: &str, d: &str, e: &str, f: &str, g: &str) -> (r: String)
    ensures
        r@ == a@ + b@ + c@ + d@ + e@ + f@ + g@,
{
    let mut r = String::from_str(a);
    r.append(b);
    r.append(c);
    r.append(d);
    r.append(e);
    r.append(f);
    r.append(g);
    r
}

fn digit_str(d: usize) -> (r: &'static str)
    requires
        d < 10,
    ensures
        r@ == seq![digit_char(d as nat)],
{
    proof {
        reveal_strlit("0");
        reveal_strlit("1");
        reveal_strlit("2");
        reveal_strlit("3");
        reveal_strlit("4");
        reveal_strlit("5");
        reveal_strlit("6");
        reveal_strlit("7");
        reveal_strlit("8");
        reveal_strlit("9");
    }
    if d == 0 {
        "0"
    } else if d == 1 {
        "1"
    } else if d == 2 {
        "2"
    } else if d == 3 {
        "3"
    } else if d == 4 {
        "4"
    } else if d == 5 {
        "5"
    } else if d == 6 {
        "6"
    } else if d == 7 {
        "7"
    } else if d == 8 {
        "8"
    } else {
        "9"
    }
}

/// The decimal rendering of `n`.
pub fn usize_to_decimal(n: usize) -> (r: String)
    ensures
        r@ == decimal(n as nat),
    decreases n,
{
    if n < 10 {
        String::from_str(digit_str(n))
    } else {
        let mut r = usize_to_decimal(n / 10);
        r.append(digit_str(n % 10));
        r
    }
}

/// The first index at or after `k` where `p` occurs in `s`.
pub open spec fn find_from(s: Seq<char>, p: Seq<char>, k: int) -> Option<int>
    decreases s.len() + 1 - k,
{
    if k < 0 || k + p.len() > s.len() {
        None
    } else if occurs_at(s, p, k) {
        Some(k)
    } else {
        find_from(s, p, k + 1)
    }
}

/// The first index where `p` occurs in `s` (`str::find`).
pub open spec fn find_first(s: Seq<char>, p: Seq<char>) -> Option<int> {
    find_from(s, p, 0)
}

/// What `find_from` finds is the first occurrence at or after `k`.
pub proof fn lemma_find_from(s: Seq<char>, p: Seq<char>, k: int)
    requires
        k >= 0,
    ensures
        find_from(s, p, k) matches Some(i) ==> k <= i && occurs_at(s, p, i) && forall|j: int|
            k <= j < i ==> !occurs_at(s, p, j),
        find_from(s, p, k) is None ==> forall|j: int| k <= j ==> !occurs_at(s, p, j),
    decreases s.len() + 1 - k,
{
    if k + p.len() <= s.len() && !occurs_at(s, p, k) {
        lemma_find_from(s, p, k + 1);
    }
}

/// `s` split at the first occurrence of `sep` (`str::split_once`).
pub open spec fn split_once(s: Seq<char>, sep: Seq<char>) -> Option<(Seq<char>, Seq<char>)> {
    match find_first(s, sep) {
        Some(i) => Some((s.subrange(0, i), s.subrange(i + sep.len(), s.len() as int))),
        None => None,
    }
}

/// `s` split at every occurrence of the non-empty `sep`, left to right
/// (`str::split`).
pub open spec fn split_all(s: Seq<char>, sep: Seq<char>) -> Seq<Seq<char>>
    decreases s.len(),
{
    if sep.len() == 0 {
        seq![s]
    } else {
        match find_first(s, sep) {
            None => seq![s],
            Some(i) => {
                proof {
                    lemma_find_from(s, sep, 0);
                }
                seq![s.subrange(0, i)] + split_all(s.subrange(i + sep.len(), s.len() as int), sep)
            },
        }
    }
}

/// `s` with every occurrence of the non-empty `from` replaced by `to`, left to
/// right (`str::replace`).
pub open spec fn replace_all(s: Seq<char>, from: Seq<char>, to: Seq<char>) -> Seq<char>
    decreases s.len(),
{
    if from.len() == 0 {
        s
    } else {
        match find_first(s, from) {
            None => s,
            Some(i) => {
                proof {
                    lemma_find_from(s, from, 0);
                }
                s.subrange(0, i) + to + replace_all(
                    s.subrange(i + from.len(), s.len() as int),
                    from,
                    to,
                )
            },
        }
    }
}

proof fn lemma_find_first_is(s: Seq<char>, p: Seq<char>, i: int, k: int)
    requires
        0 <= k <= i,
        occurs_at(s, p, i),
        forall|j: int| 0 <= j < i ==> !occurs_at(s, p, j),
    ensures
        find_from(s, p, k) == Some(i),
    decreases i - k,
{
    if k < i {
        lemma_find_first_is(s, p, i, k + 1);
    }
}

proof fn lemma_find_first_none(s: Seq<char>, p: Seq<char>, k: int)
    requires
        k >= 0,
        forall|j: int| 0 <= j ==> !occurs_at(s, p, j),
    ensures
        find_from(s, p, k) is None,
    decreases s.len() + 1 - k,
{
    if k + p.len() <= s.len() {
        lemma_find_first_none(s, p, k + 1);
    }
}

/// The first index where `p` occurs in `s`.
pub fn find_first_exec(s: &str, p: &str) -> (r: Option<usize>)
    ensures
        match r {
            Some(i) => find_first(s@, p@) == Some(i as int),
            None => find_first(s@, p@) is None,
        },
{
    let r = find_str(s, p);
    proof {
        match r {
            Some(i) => lemma_find_first_is(s@, p@, i as int, 0),
            None => {
                assert forall|j: int| 0 <= j implies !occurs_at(s@, p@, j) by {
                    if occurs_at(s@, p@, j) {
                        assert(contains_seq(s@, p@));
                    }
                }
                lemma_find_first_none(s@, p@, 0);
            },
        }
    }
    r
}

/// `s` split at the first occurrence of `sep`.
pub fn split_once_exec<'a>(s: &'a str, sep: &str) -> (r: Option<(&'a str, &'a str)>)
    ensures
        match r {
            Some((a, b)) => split_once(s@, sep@) == Some((a@, b@)),
            None => split_once(s@, sep@) is None,
        },
{
    match find_first_exec(s, sep) {
        None => None,
        Some(i) => {
            proof {
                lemma_find_from(s@, sep@, 0);
            }
            let n = s.unicode_len();
            let m = sep.unicode_len();
            Some((s.substring_char(0, i), s.substring_char(i + m, n)))
        },
    }
}

/// `s` without the prefix `p`, when it has it (`str::strip_prefix`).
pub fn strip_prefix_exec<'a>(s: &'a str, p: &str) -> (r: Option<&'a str>)
    ensures
        match r {
            Some(t) => starts_with(s@, p@) && t@ == s@.subrange(p@.len() as int, s@.len() as int),
            None => !starts_with(s@, p@),
        },
{
    if str_starts_with(s, p) {
        let n = s.unicode_len();
        let m = p.unicode_len();
        Some(s.substring_char(m, n))
    } else {
        None
    }
}

/// `s` without the suffix `p`, when it has it (`str::strip_suffix`).
pub fn strip_suffix_exec<'a>(s: &'a str, p: &str) -> (r: Option<&'a str>)
    ensures
        match r {
            Some(t) => ends_with(s@, p@) && t@ == s@.subrange(0, s@.len() - p@.len()),
            None => !ends_with(s@, p@),
        },
{
    if str_ends_with(s, p) {
        let n = s.unicode_len();
        let m = p.unicode_len();
        Some(s.substring_char(0, n - m))
    } else {
        None
    }
}

/// `str::to_ascii_lowercase`: a copy of `s` in which `'A'..='Z'` become
/// `'a'..='z'` and every other character is unchanged, as its documentation
/// states.
#[verifier::external_body]
pub(crate) fn lowercase_ascii(s: &str) -> (r: String)
    ensures
        r@ == ascii_lower_seq(s@),
{
    s.to_ascii_lowercase()
}

} // verus!
