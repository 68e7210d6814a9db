//! Request-path segments and filesystem paths built from them.
use vstd::prelude::*;

verus! {

/// The character sequences of a list of strings.
pub open spec fn segs_view(v: Seq<String>) -> Seq<Seq<char>> {
    v.map_values(|s: String| s@)
}

/// A segment that may be joined onto a root without leaving it: non-empty,
/// not a parent reference, and holding no separator.
pub open spec fn is_valid_segment(s: Seq<char>) -> bool {
    &&& s.len() > 0
    &&& !(s.len() == 2 && s[0] == '.' && s[1] == '.')
    &&& forall|i: int| 0 <= i < s.len() ==> #[trigger] s[i] != '/'
}

/// A segment naming a hidden entry: its first character is `.`.
pub open spec fn is_hidden_segment(s: Seq<char>) -> bool {
    s.len() > 0 && s[0] == '.'
}

/// Every segment is valid, and none is hidden unless hidden entries are
/// allowed.
pub open spec fn segments_admitted(segs: Seq<Seq<char>>, dot_files: bool) -> bool {
    forall|i: int|
        0 <= i < segs.len() ==> is_valid_segment(#[trigger] segs[i]) && (dot_files
            || !is_hidden_segment(segs[i]))
}

/// `base` followed by each segment, each preceded by `/`.
pub open spec fn join_path(base: Seq<char>, segs: Seq<Seq<char>>) -> Seq<char>
    decreases segs.len(),
{
    if segs.len() == 0 {
        base
    } else {
        join_path(base, segs.drop_last()) + "/"@ + segs.last()
    }
}

/// A path that ends in `/`.
pub open spec fn ends_with_slash(p: Seq<char>) -> bool {
    p.len() > 0 && p.last() == '/'
}

/// Whether `s` may be joined onto a root, and whether it is hidden.
pub fn check_segment(s: &String) -> (r: (bool, bool))
    ensures
        r.0 == is_valid_segment(s@),
        r.1 == is_hidden_segment(s@),
{
    let n = s.as_str().unicode_len();
    if n == 0 {
        return (false, false);
    }
    let hidden = s.as_str().get_char(0) == '.';
    if n == 2 && hidden && s.as_str().get_char(1) == '.' {
        return (false, true);
    }
    let mut i: usize = 0;
    while i < n
        invariant
            n == s@.len(),
            i <= n,
            hidden == is_hidden_segment(s@),
            forall|j: int| 0 <= j < i ==> #[trigger] s@[j] != '/',
        decreases n - i,
    {
        if s.as_str().get_char(i) == '/' {
            return (false, hidden);
        }
        i = i + 1;
    }
    (true, hidden)
}

/// Whether every segment may be joined onto a root, hidden ones only when
/// `dot_files` is set.
pub fn admit_segments(segs: &Vec<String>, dot_files: bool) -> (r: bool)
    ensures
        r == segments_admitted(segs_view(segs@), dot_files),
{
    let mut i: usize = 0;
    while i < segs.len()
        invariant
            i <= segs@.len(),
            forall|j: int|
                0 <= j < i ==> is_valid_segment(#[trigger] segs_view(segs@)[j]) && (dot_files
                    || !is_hidden_segment(segs_view(segs@)[j])),
        decreases segs.len() - i,
    {
        let (valid, hidden) = check_segment(&segs[i]);
        if !valid || (hidden && !dot_files) {
            assert(!(is_valid_segment(segs_view(segs@)[i as int]) && (dot_files
                || !is_hidden_segment(segs_view(segs@)[i as int]))));
            return false;
        }
        i = i + 1;
    }
    true
}

/// `base` with each segment appended after a `/`.
pub fn join_segments(base: &String, segs: &Vec<String>) -> (r: String)
    ensures
        r@ == join_path(base@, segs_view(segs@)),
{
    let mut acc = base.clone();
    let mut i: usize = 0;
    while i < segs.len()
        invariant
            i <= segs@.len(),
            acc@ == join_path(base@, segs_view(segs@).subrange(0, i as int)),
        decreases segs.len() - i,
    {
        proof {
            let v = segs_view(segs@);
            assert(v.subrange(0, i + 1).drop_last() =~= v.subrange(0, i as int));
        }
        acc.append("/");
        acc.append(segs[i].as_str());
        i = i + 1;
    }
    assert(segs_view(segs@).subrange(0, segs@.len() as int) =~= segs_view(segs@));
    acc
}

/// Whether `p` ends in `/`.
pub fn has_trailing_slash(p: &str) -> (r: bool)
    ensures
        r == ends_with_slash(p@),
{
    let n = p.unicode_len();
    n > 0 && p.get_char(n - 1) == '/'
}

} // verus!
