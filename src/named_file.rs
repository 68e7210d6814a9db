//! An open file together with the name it is served under, and the response
//! headers that name implies.
use vstd::prelude::*;

use crate::content_type::{content_type_for, content_type_of, ContentType};

verus! {

/// The file handle type of the asynchronous runtime, carried through opaque.
#[verifier::external_type_specification]
#[verifier::external_body]
pub struct ExFile(tokio::fs::File);

/// The index of the last `c` in `s`, or -1 when there is none.
pub open spec fn last_index(s: Seq<char>, c: char) -> int
    decreases s.len(),
{
    if s.len() == 0 {
        -1
    } else if s.last() == c {
        s.len() - 1
    } else {
        last_index(s.drop_last(), c)
    }
}

/// The path without its trailing `/` characters.
pub open spec fn trim_slashes(p: Seq<char>) -> Seq<char>
    decreases p.len(),
{
    if p.len() > 0 && p.last() == '/' {
        trim_slashes(p.drop_last())
    } else {
        p
    }
}

/// The last component of a `/`-separated path; trailing `/` characters are
/// not components.
pub open spec fn name_of(p: Seq<char>) -> Seq<char> {
    let t = trim_slashes(p);
    t.subrange(last_index(t, '/') + 1, t.len() as int)
}

/// The extension of a path: what follows the last `.` of its last component,
/// unless that `.` is the component's first character or there is none. A
/// last component `..` names no file and has no extension.
pub open spec fn ext_of(p: Seq<char>) -> Option<Seq<char>> {
    let n = name_of(p);
    let k = last_index(n, '.');
    if k <= 0 || n == seq!['.', '.'] {
        None
    } else {
        Some(n.subrange(k + 1, n.len() as int))
    }
}

/// The path with its extension, and the `.` before it, removed (trailing
/// `/` characters go with them).
pub open spec fn stem_of(p: Seq<char>) -> Seq<char> {
    match ext_of(p) {
        Some(e) => trim_slashes(p).subrange(0, trim_slashes(p).len() - e.len() - 1),
        None => p,
    }
}

/// The extension `gz`, exactly.
pub open spec fn is_gz(e: Seq<char>) -> bool {
    e.len() == 2 && e[0] == 'g' && e[1] == 'z'
}

/// Headers that a response streaming a named file carries.
#[derive(Clone, Copy, Debug, PartialEq, Eq, Structural)]
pub struct ResponseHeaders {
    /// The `Content-Type` to set; `None` leaves the response's default.
    pub content_type: Option<ContentType>,
    /// Whether `Content-Encoding: gzip` is set.
    pub gzip: bool,
}

/// The headers for a file named `p`; `compressed` when its bytes are the
/// gzip form of the file that `p` names without its `.gz`.
pub open spec fn headers_of(p: Seq<char>, compressed: bool) -> ResponseHeaders {
    match ext_of(p) {
        None => ResponseHeaders { content_type: None, gzip: false },
        Some(e) => if compressed && is_gz(e) {
            let ct_ext = match ext_of(stem_of(p)) {
                Some(orig) => orig,
                None => e,
            };
            ResponseHeaders { content_type: content_type_of(ct_ext), gzip: true }
        } else {
            ResponseHeaders { content_type: content_type_of(e), gzip: false }
        },
    }
}

/// The index of the last `c` in `s`, or -1.
pub fn find_last(s: &str, c: char) -> (r: i64)
    requires
        s@.len() < i64::MAX,
    ensures
        r == last_index(s@, c),
{
    let n = s.unicode_len();
    let mut last: i64 = -1;
    let mut i: usize = 0;
    while i < n
        invariant
            n == s@.len(),
            n < i64::MAX,
            i <= n,
            last == last_index(s@.subrange(0, i as int), c),
        decreases n - i,
    {
        assert(s@.subrange(0, i + 1).drop_last() =~= s@.subrange(0, i as int));
        if s.get_char(i) == c {
            last = i as i64;
        }
        i = i + 1;
    }
    assert(s@.subrange(0, n as int) =~= s@);
    last
}

pub proof fn lemma_last_index_bounds(s: Seq<char>, c: char)
    ensures
        -1 <= last_index(s, c) < s.len(),
        last_index(s, c) >= 0 ==> s[last_index(s, c)] == c,
    decreases s.len(),
{
    if s.len() > 0 && s.last() != c {
        lemma_last_index_bounds(s.drop_last(), c);
    }
}

/// The path without its trailing `/` characters.
pub fn trim_trailing_slashes(p: &str) -> (r: &str)
    ensures
        r@ == trim_slashes(p@),
        r@.len() <= p@.len(),
{
    let mut end = p.unicode_len();
    assert(p@.subrange(0, end as int) =~= p@);
    while end > 0 && p.get_char(end - 1) == '/'
        invariant
            end <= p@.len(),
            trim_slashes(p@) == trim_slashes(p@.subrange(0, end as int)),
        decreases end,
    {
        assert(p@.subrange(0, end as int).drop_last() =~= p@.subrange(0, end - 1));
        end = end - 1;
    }
    p.substring_char(0, end)
}

/// The extension of the path `p`, as `ext_of` describes it.
pub fn extension(p: &str) -> (r: Option<&str>)
    requires
        p@.len() < i64::MAX,
    ensures
        r matches Some(e) ==> ext_of(p@) == Some(e@) && e@.len() + 1 < trim_slashes(p@).len(),
        r is None ==> ext_of(p@) is None,
{
    let t = trim_trailing_slashes(p);
    let n = t.unicode_len();
    let slash = find_last(t, '/');
    proof {
        lemma_last_index_bounds(t@, '/');
    }
    let name = t.substring_char((slash + 1) as usize, n);
    assert(name@ == name_of(p@));
    let dot = find_last(name, '.');
    proof {
        lemma_last_index_bounds(name@, '.');
    }
    let dots = name.unicode_len() == 2 && name.get_char(0) == '.' && name.get_char(1) == '.';
    proof {
        if dots {
            assert(name@ =~= seq!['.', '.']);
        }
    }
    if dot <= 0 || dots {
        None
    } else {
        Some(name.substring_char((dot + 1) as usize, name.unicode_len()))
    }
}

/// The headers for a file named `p`, as `headers_of` describes them.
pub fn headers_for(p: &str, compressed: bool) -> (r: ResponseHeaders)
    requires
        p@.len() < i64::MAX,
    ensures
        r == headers_of(p@, compressed),
{
    match extension(p) {
        None => ResponseHeaders { content_type: None, gzip: false },
        Some(e) => {
            let gz = e.unicode_len() == 2 && e.get_char(0) == 'g' && e.get_char(1) == 'z';
            if compressed && gz {
                let t = trim_trailing_slashes(p);
                let stem = t.substring_char(0, t.unicode_len() - e.unicode_len() - 1);
                let ct_ext = match extension(stem) {
                    Some(orig) => orig,
                    None => e,
                };
                ResponseHeaders { content_type: content_type_for(ct_ext), gzip: true }
            } else {
                ResponseHeaders { content_type: content_type_for(e), gzip: false }
            }
        },
    }
}

/// A file opened for reading, with the path it was opened under. When
/// `compressed` is set, its bytes are the gzip form of the resource that the
/// path names without its `.gz`.
#[derive(Debug)]
pub struct NamedFile {
    path: String,
    file: tokio::fs::File,
    compressed: bool,
}

impl NamedFile {
    pub closed spec fn spec_path(&self) -> Seq<char> {
        self.path@
    }

    pub closed spec fn spec_compressed(&self) -> bool {
        self.compressed
    }

    pub closed spec fn spec_file(&self) -> tokio::fs::File {
        self.file
    }

    /// Wraps a file that was opened at `path`; `compressed` when its bytes
    /// are the gzip form of the resource that `path` names without `.gz`.
    pub fn from_parts(path: String, file: tokio::fs::File, compressed: bool) -> (r: NamedFile)
        ensures
            r.spec_path() == path@,
            r.spec_file() == file,
            r.spec_compressed() == compressed,
    {
        NamedFile { path, file, compressed }
    }

    /// The underlying file.
    pub fn file(&self) -> (r: &tokio::fs::File)
        ensures
            *r == self.spec_file(),
    {
        &self.file
    }

    /// A mutable borrow of the underlying file.
    pub fn file_mut(&mut self) -> (r: &mut tokio::fs::File)
        ensures
            *r == old(self).spec_file(),
            final(self).spec_file() == *final(r),
            final(self).spec_path() == old(self).spec_path(),
            final(self).spec_compressed() == old(self).spec_compressed(),
    {
        &mut self.file
    }

    /// Takes the underlying file, giving up the name.
    pub fn take_file(self) -> (r: tokio::fs::File)
        ensures
            r == self.spec_file(),
    {
        self.file
    }

    /// The path this file was opened under.
    pub fn path(&self) -> (r: &str)
        ensures
            r@ == self.spec_path(),
    {
        self.path.as_str()
    }

    /// Whether the bytes are the gzip form of the named resource.
    pub fn is_compressed(&self) -> (r: bool)
        ensures
            r == self.spec_compressed(),
    {
        self.compressed
    }

    /// The headers a response streaming this file carries.
    pub fn response_headers(&self) -> (r: ResponseHeaders)
        requires
            self.spec_path().len() < i64::MAX,
        ensures
            r == headers_of(self.spec_path(), self.spec_compressed()),
    {
        headers_for(self.path.as_str(), self.compressed)
    }
}

impl core::ops::Deref for NamedFile {
    type Target = tokio::fs::File;

    fn deref(&self) -> (r: &tokio::fs::File)
        ensures
            *r == self.spec_file(),
    {
        &self.file
    }
}

impl core::ops::DerefMut for NamedFile {
    fn deref_mut(&mut self) -> (r: &mut tokio::fs::File)
        ensures
            *r == old(self).spec_file(),
            final(self).spec_file() == *final(r),
            final(self).spec_path() == old(self).spec_path(),
            final(self).spec_compressed() == old(self).spec_compressed(),
    {
        &mut self.file
    }
}

} // verus!
