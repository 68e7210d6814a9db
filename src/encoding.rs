//! Reading the `Accept-Encoding` request header: which entries accept gzip.
use vstd::prelude::*;

use crate::content_type::{ext_matches, matches_ignore_case};

verus! {

/// A space or a tab.
pub open spec fn is_ws(c: char) -> bool {
    c == ' ' || c == '\t'
}

/// `s` without its leading white space.
pub open spec fn ltrim(s: Seq<char>) -> Seq<char>
    decreases s.len(),
{
    if s.len() > 0 && is_ws(s[0]) {
        ltrim(s.subrange(1, s.len() as int))
    } else {
        s
    }
}

/// `s` without its trailing white space.
pub open spec fn rtrim(s: Seq<char>) -> Seq<char>
    decreases s.len(),
{
    if s.len() > 0 && is_ws(s.last()) {
        rtrim(s.drop_last())
    } else {
        s
    }
}

/// `s` without white space at either end.
pub open spec fn trim_ws(s: Seq<char>) -> Seq<char> {
    rtrim(ltrim(s))
}

/// `k` is the position of the first `;` of `e`, or its length if it has none.
pub open spec fn first_semi(e: Seq<char>, k: int) -> bool {
    &&& 0 <= k <= e.len()
    &&& (k == e.len() || e[k] == ';')
    &&& forall|i: int| 0 <= i < k ==> #[trigger] e[i] != ';'
}

/// Parameters that give a quality of zero: `q=0`, optionally followed by a
/// `.` and zeros.
pub open spec fn is_q_zero(params: Seq<char>) -> bool {
    let t = trim_ws(params);
    &&& t.len() >= 3
    &&& (t[0] == 'q' || t[0] == 'Q')
    &&& t[1] == '='
    &&& t[2] == '0'
    &&& (t.len() == 3 || (t[3] == '.' && forall|i: int| 4 <= i < t.len() ==> #[trigger] t[i] == '0'))
}

/// One entry of the header, `coding[;params]`, accepts gzip: its coding is
/// `gzip` (ignoring case and surrounding space) and its quality is not zero.
pub open spec fn entry_accepts_gzip(e: Seq<char>) -> bool {
    exists|k: int|
        #[trigger] first_semi(e, k) && matches_ignore_case(trim_ws(e.subrange(0, k)), "gzip"@)
            && !(k < e.len() && is_q_zero(e.subrange(k + 1, e.len() as int)))
}

/// `v[a..b]` is one comma-separated entry of the header value `v`.
pub open spec fn is_entry(v: Seq<char>, a: int, b: int) -> bool {
    &&& 0 <= a <= b <= v.len()
    &&& (a == 0 || v[a - 1] == ',')
    &&& (b == v.len() || v[b] == ',')
    &&& forall|i: int| a <= i < b ==> #[trigger] v[i] != ','
}

/// Some entry of the header value `v` accepts gzip.
pub open spec fn names_gzip(v: Seq<char>) -> bool {
    exists|a: int, b: int| #[trigger] is_entry(v, a, b) && entry_accepts_gzip(v.subrange(a, b))
}

/// `s` without white space at either end.
pub fn trim_spaces(s: &str) -> (r: &str)
    ensures
        r@ == trim_ws(s@),
{
    let n = s.unicode_len();
    let mut a: usize = 0;
    assert(s@.subrange(0, n as int) =~= s@);
    while a < n && (s.get_char(a) == ' ' || s.get_char(a) == '\t')
        invariant
            a <= n,
            n == s@.len(),
            ltrim(s@) == ltrim(s@.subrange(a as int, n as int)),
        decreases n - a,
    {
        assert(s@.subrange(a as int, n as int).subrange(1, n - a) =~= s@.subrange(a + 1, n as int));
        a = a + 1;
    }
    let l = s.substring_char(a, n);
    let mut b: usize = l.unicode_len();
    assert(l@.subrange(0, b as int) =~= l@);
    while b > 0 && (l.get_char(b - 1) == ' ' || l.get_char(b - 1) == '\t')
        invariant
            b <= l@.len(),
            rtrim(l@) == rtrim(l@.subrange(0, b as int)),
        decreases b,
    {
        assert(l@.subrange(0, b as int).drop_last() =~= l@.subrange(0, b - 1));
        b = b - 1;
    }
    l.substring_char(0, b)
}

/// Whether the parameters give a quality of zero.
pub fn q_zero(params: &str) -> (r: bool)
    ensures
        r == is_q_zero(params@),
{
    let t = trim_spaces(params);
    let n = t.unicode_len();
    if n < 3 {
        return false;
    }
    let q = t.get_char(0);
    if !((q == 'q' || q == 'Q') && t.get_char(1) == '=' && t.get_char(2) == '0') {
        return false;
    }
    if n == 3 {
        return true;
    }
    if t.get_char(3) != '.' {
        return false;
    }
    let mut i: usize = 4;
    while i < n
        invariant
            4 <= i <= n,
            n == t@.len(),
            t@ == trim_ws(params@),
            t@[0] == 'q' || t@[0] == 'Q',
            t@[1] == '=',
            t@[2] == '0',
            t@[3] == '.',
            forall|j: int| 4 <= j < i ==> #[trigger] t@[j] == '0',
        decreases n - i,
    {
        if t.get_char(i) != '0' {
            assert(t@[i as int] != '0');
            return false;
        }
        i = i + 1;
    }
    true
}

/// Whether one `coding[;params]` entry accepts gzip.
pub fn entry_accepts(e: &str) -> (r: bool)
    ensures
        r == entry_accepts_gzip(e@),
{
    let n = e.unicode_len();
    let mut k: usize = 0;
    while k < n && e.get_char(k) != ';'
        invariant
            k <= n,
            n == e@.len(),
            forall|i: int| 0 <= i < k ==> #[trigger] e@[i] != ';',
        decreases n - k,
    {
        k = k + 1;
    }
    assert(first_semi(e@, k as int));
    assert forall|k2: int| #[trigger] first_semi(e@, k2) implies k2 == k by {
        if k2 < k {
            assert(e@[k2] != ';');
        } else if k2 > k {
            assert(e@[k as int] != ';');
        }
    }
    let coding = trim_spaces(e.substring_char(0, k));
    if !ext_matches(coding, "gzip") {
        return false;
    }
    if k < n {
        !q_zero(e.substring_char(k + 1, n))
    } else {
        true
    }
}

/// Whether the header value `v` has an entry that accepts gzip.
pub fn value_accepts_gzip(v: &str) -> (r: bool)
    ensures
        r == names_gzip(v@),
{
    let n = v.unicode_len();
    let mut start: usize = 0;
    let mut i: usize = 0;
    while i < n
        invariant
            start <= i <= n,
            n == v@.len(),
            start == 0 || v@[start - 1] == ',',
            forall|x: int| start <= x < i ==> #[trigger] v@[x] != ',',
            forall|a: int, b: int|
                #[trigger] is_entry(v@, a, b) && b < i ==> !entry_accepts_gzip(v@.subrange(a, b)),
        decreases n - i,
    {
        if v.get_char(i) == ',' {
            proof {
                lemma_entry_start(v@, start as int, i as int);
            }
            if entry_accepts(v.substring_char(start, i)) {
                return true;
            }
            start = i + 1;
        }
        i = i + 1;
    }
    proof {
        lemma_entry_start(v@, start as int, n as int);
    }
    entry_accepts(v.substring_char(start, n))
}

/// The entry that ends at `b` begins right after the last `,` before it.
proof fn lemma_entry_start(v: Seq<char>, start: int, b: int)
    requires
        0 <= start <= b <= v.len(),
        start == 0 || v[start - 1] == ',',
        b == v.len() || v[b] == ',',
        forall|x: int| start <= x < b ==> #[trigger] v[x] != ',',
    ensures
        is_entry(v, start, b),
        forall|a: int| #[trigger] is_entry(v, a, b) ==> a == start,
{
    assert forall|a: int| #[trigger] is_entry(v, a, b) implies a == start by {
        if a < start {
            assert(v[start - 1] != ',');
        } else if a > start {
            assert(v[a - 1] != ',');
        }
    }
}

/// Whether any of the `Accept-Encoding` header values accepts gzip.
pub fn accepts_gzip(values: &Vec<String>) -> (r: bool)
    ensures
        r == exists|i: int| 0 <= i < values@.len() && #[trigger] names_gzip(values@[i]@),
{
    let mut i: usize = 0;
    while i < values.len()
        invariant
            i <= values@.len(),
            forall|k: int| 0 <= k < i ==> !#[trigger] names_gzip(values@[k]@),
        decreases values.len() - i,
    {
        if value_accepts_gzip(values[i].as_str()) {
            return true;
        }
        i = i + 1;
    }
    false
}

} // verus!
