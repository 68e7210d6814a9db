//! Independent toggles that shape how a file server answers requests.
use vstd::prelude::*;

verus! {

/// A set of serving options. Each toggle is independent of the others; sets
/// combine by union.
#[derive(Clone, Copy, Debug, PartialEq, Eq, Structural)]
pub struct Options {
    pub dot_files: bool,
    pub index: bool,
    pub normalize_dirs: bool,
    pub pre_zipped: bool,
}

impl Options {
    /// The set `a ∪ b`.
    pub open spec fn spec_union(a: Options, b: Options) -> Options {
        Options {
            dot_files: a.dot_files || b.dot_files,
            index: a.index || b.index,
            normalize_dirs: a.normalize_dirs || b.normalize_dirs,
            pre_zipped: a.pre_zipped || b.pre_zipped,
        }
    }

    /// `a ⊇ b`.
    pub open spec fn spec_contains(a: Options, b: Options) -> bool {
        &&& b.dot_files ==> a.dot_files
        &&& b.index ==> a.index
        &&& b.normalize_dirs ==> a.normalize_dirs
        &&& b.pre_zipped ==> a.pre_zipped
    }

    /// The empty set: no toggle enabled.
    pub fn none() -> (r: Options)
        ensures
            !r.dot_files,
            !r.index,
            !r.normalize_dirs,
            !r.pre_zipped,
    {
        Options { dot_files: false, index: false, normalize_dirs: false, pre_zipped: false }
    }

    /// Serve hidden files (names starting with `.`).
    pub fn dot_files() -> (r: Options)
        ensures
            r.dot_files,
            !r.index,
            !r.normalize_dirs,
            !r.pre_zipped,
    {
        Options { dot_files: true, index: false, normalize_dirs: false, pre_zipped: false }
    }

    /// Answer directory requests with the directory's `index.html`.
    pub fn index() -> (r: Options)
        ensures
            !r.dot_files,
            r.index,
            !r.normalize_dirs,
            !r.pre_zipped,
    {
        Options { dot_files: false, index: true, normalize_dirs: false, pre_zipped: false }
    }

    /// Redirect directory requests that lack a trailing `/`.
    pub fn normalize_dirs() -> (r: Options)
        ensures
            !r.dot_files,
            !r.index,
            r.normalize_dirs,
            !r.pre_zipped,
    {
        Options { dot_files: false, index: false, normalize_dirs: true, pre_zipped: false }
    }

    /// Prefer a `<path>.gz` sibling when the client accepts gzip.
    pub fn pre_zipped() -> (r: Options)
        ensures
            !r.dot_files,
            !r.index,
            !r.normalize_dirs,
            r.pre_zipped,
    {
        Options { dot_files: false, index: false, normalize_dirs: false, pre_zipped: true }
    }

    /// The options a file server uses unless told otherwise: `Index` alone.
    pub fn default_options() -> (r: Options)
        ensures
            r.index,
            !r.dot_files,
            !r.normalize_dirs,
            !r.pre_zipped,
    {
        Options::index()
    }

    /// The union of two option sets.
    pub fn union(self, other: Options) -> (r: Options)
        ensures
            r == Options::spec_union(self, other),
    {
        Options {
            dot_files: self.dot_files || other.dot_files,
            index: self.index || other.index,
            normalize_dirs: self.normalize_dirs || other.normalize_dirs,
            pre_zipped: self.pre_zipped || other.pre_zipped,
        }
    }

    /// Whether every toggle enabled in `other` is enabled in `self`.
    pub fn contains(self, other: Options) -> (r: bool)
        ensures
            r == Options::spec_contains(self, other),
    {
        (!other.dot_files || self.dot_files) && (!other.index || self.index)
            && (!other.normalize_dirs || self.normalize_dirs) && (!other.pre_zipped
            || self.pre_zipped)
    }

    pub fn serves_dot_files(self) -> (r: bool)
        ensures
            r == self.dot_files,
    {
        self.dot_files
    }

    pub fn uses_index(self) -> (r: bool)
        ensures
            r == self.index,
    {
        self.index
    }

    pub fn normalizes_dirs(self) -> (r: bool)
        ensures
            r == self.normalize_dirs,
    {
        self.normalize_dirs
    }

    pub fn prefers_zipped(self) -> (r: bool)
        ensures
            r == self.pre_zipped,
    {
        self.pre_zipped
    }
}

/// Union of option sets is commutative, associative and idempotent, so the
/// order in which toggles are combined never matters.
pub proof fn lemma_union_order_independent(a: Options, b: Options, c: Options)
    ensures
        Options::spec_union(a, b) == Options::spec_union(b, a),
        Options::spec_union(Options::spec_union(a, b), c) == Options::spec_union(
            a,
            Options::spec_union(b, c),
        ),
        Options::spec_union(a, a) == a,
        Options::spec_contains(Options::spec_union(a, b), a),
        Options::spec_contains(Options::spec_union(a, b), b),
{
}

} // verus!
