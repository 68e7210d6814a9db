//! What holds of every request: the serving policy stated over the
//! filesystem model, and proved.
use vstd::prelude::*;

use crate::content_type::content_type_of;
use crate::named_file::{trim_slashes, ext_of, headers_of, last_index, name_of, stem_of, ResponseHeaders};
use crate::options::Options;
use crate::path::{ends_with_slash, is_hidden_segment, is_valid_segment, join_path, segments_admitted, segs_view};
use crate::route::{before, comes_after, is_next, outcome_of_spec, Outcome};
use crate::server::{
    gz_of, index_of, kind_at, location_of, EntryKind, FileRequest, FileServer, ResolutionView,
    Step,
};

verus! {

/// Every candidate path begins with the server's root, and is built from
/// segments that are non-empty, hold no `/`, and are never `..`.
pub proof fn lemma_candidate_under_root(srv: FileServer, req: FileRequest)
    requires
        srv.admits(req),
    ensures
        srv.root@.len() <= srv.candidate(req).len(),
        srv.candidate(req).subrange(0, srv.root@.len() as int) == srv.root@,
{
    lemma_join_extends(srv.root@, segs_view(req.segments@));
}

proof fn lemma_join_extends(base: Seq<char>, segs: Seq<Seq<char>>)
    ensures
        base.len() <= join_path(base, segs).len(),
        join_path(base, segs).subrange(0, base.len() as int) == base,
    decreases segs.len(),
{
    if segs.len() > 0 {
        lemma_join_extends(base, segs.drop_last());
        let j = join_path(base, segs.drop_last());
        assert((j + "/"@ + segs.last()).subrange(0, base.len() as int) =~= j.subrange(0, base.len() as int));
    }
}

/// With no options set, a request whose segments are all valid and none
/// hidden, naming a regular file, is answered with that file, uncompressed.
pub proof fn lemma_plain_file_served(
    srv: FileServer,
    req: FileRequest,
    fs: Map<Seq<char>, EntryKind>,
)
    requires
        !srv.options.dot_files,
        !srv.options.index,
        !srv.options.normalize_dirs,
        !srv.options.pre_zipped,
        segments_admitted(segs_view(req.segments@), false),
        kind_at(fs, srv.candidate(req)) == EntryKind::File,
    ensures
        srv.resolve_spec(req, fs) == ResolutionView::Serve(srv.candidate(req), false),
{
}

/// Without hidden files allowed, a request with a segment that starts with
/// `.` is declined, whatever the filesystem holds.
pub proof fn lemma_hidden_declined(
    srv: FileServer,
    req: FileRequest,
    fs: Map<Seq<char>, EntryKind>,
    i: int,
)
    requires
        !srv.options.dot_files,
        0 <= i < req.segments@.len(),
        is_hidden_segment(req.segments@[i]@),
    ensures
        srv.resolve_spec(req, fs) == ResolutionView::Decline,
{
    assert(segs_view(req.segments@)[i] == req.segments@[i]@);
}

/// With `index` set, a request for a directory holding `index.html` is
/// answered with that file (or its compressed sibling): at once, or, when
/// directories are normalized and the path lacks its trailing `/`, after
/// the redirect, by the request for the path with `/` appended.
pub proof fn lemma_index_served(
    srv: FileServer,
    req: FileRequest,
    next: FileRequest,
    fs: Map<Seq<char>, EntryKind>,
)
    requires
        srv.options.index,
        srv.admits(req),
        kind_at(fs, srv.candidate(req)) == EntryKind::Dir,
        kind_at(fs, index_of(srv.candidate(req))) == EntryKind::File,
        next.path@ == req.path@ + "/"@,
        next.segments@ == req.segments@,
        next.accepts_gzip == req.accepts_gzip,
    ensures
        !srv.redirects(req) ==> srv.resolve_spec(req, fs) == srv.serve_spec(
            req,
            index_of(srv.candidate(req)),
            fs,
        ),
        srv.redirects(req) ==> srv.resolve_spec(req, fs) == ResolutionView::Redirect(
            location_of(req),
        ),
        srv.resolve_spec(next, fs) == srv.serve_spec(next, index_of(srv.candidate(req)), fs),
        !srv.wants_gz(req) ==> srv.serve_spec(req, index_of(srv.candidate(req)), fs)
            == ResolutionView::Serve(index_of(srv.candidate(req)), false),
{
    reveal_strlit("/");
    assert(ends_with_slash(next.path@));
    assert(srv.candidate(next) == srv.candidate(req));
}

/// With directories normalized, a request for a directory whose path lacks
/// a trailing `/` is redirected to the path with `/` appended and the query
/// kept; with the `/` present, no redirect is made.
pub proof fn lemma_dir_redirect(srv: FileServer, req: FileRequest, fs: Map<Seq<char>, EntryKind>)
    requires
        srv.options.normalize_dirs,
        srv.admits(req),
        kind_at(fs, srv.candidate(req)) == EntryKind::Dir,
    ensures
        !ends_with_slash(req.path@) ==> srv.resolve_spec(req, fs) == ResolutionView::Redirect(
            location_of(req),
        ),
        ends_with_slash(req.path@) ==> !(srv.resolve_spec(req, fs) is Redirect),
{
}

proof fn lemma_last_index_append(s: Seq<char>, t: Seq<char>, c: char)
    requires
        forall|i: int| 0 <= i < t.len() ==> t[i] != c,
    ensures
        last_index(s + t, c) == last_index(s, c),
    decreases t.len(),
{
    if t.len() > 0 {
        assert((s + t).drop_last() =~= s + t.drop_last());
        lemma_last_index_append(s, t.drop_last(), c);
    } else {
        assert(s + t =~= s);
    }
}

/// The `.gz` sibling of a path with an extension is served with gzip
/// encoding and the content type of the uncompressed file's extension.
pub proof fn lemma_gz_headers(p: Seq<char>)
    requires
        ext_of(p) is Some,
        !ends_with_slash(p),
    ensures
        headers_of(gz_of(p), true) == (ResponseHeaders {
            content_type: content_type_of(ext_of(p)->Some_0),
            gzip: true,
        }),
{
    reveal_strlit(".gz");
    let g = gz_of(p);
    let dg = seq!['.', 'g', 'z'];
    assert(".gz"@ == dg);
    assert(trim_slashes(p) == p);
    assert(g.last() == 'z');
    assert(trim_slashes(g) == g);
    lemma_last_index_append(p, dg, '/');
    let a = last_index(p, '/') + 1;
    crate::named_file::lemma_last_index_bounds(p, '/');
    let n = name_of(p);
    assert(name_of(g) =~= n + dg);
    assert((n + dg).drop_last() =~= n + seq!['.', 'g']);
    assert((n + seq!['.', 'g']).drop_last() =~= n + seq!['.']);
    assert(last_index(n + dg, '.') == last_index(n + seq!['.', 'g'], '.'));
    assert(last_index(n + seq!['.', 'g'], '.') == last_index(n + seq!['.'], '.'));
    assert((n + seq!['.']).last() == '.');
    assert(last_index(name_of(g), '.') == n.len());
    let ge = name_of(g).subrange(n.len() + 1int, name_of(g).len() as int);
    assert(ge =~= seq!['g', 'z']);
    assert(ext_of(g) == Some(ge));
    assert(stem_of(g) =~= p);
}

/// With compressed siblings preferred and gzip accepted, a request for a
/// regular file with an extension whose `.gz` sibling exists is answered with
/// the sibling, gzip-encoded, typed by the file's own extension.
pub proof fn lemma_precompressed_served(
    srv: FileServer,
    req: FileRequest,
    fs: Map<Seq<char>, EntryKind>,
)
    requires
        srv.options.pre_zipped,
        req.accepts_gzip,
        srv.admits(req),
        kind_at(fs, srv.candidate(req)) == EntryKind::File,
        kind_at(fs, gz_of(srv.candidate(req))) == EntryKind::File,
        req.segments@.len() > 0,
        ext_of(srv.candidate(req)) is Some,
    ensures
        srv.resolve_spec(req, fs) == ResolutionView::Serve(gz_of(srv.candidate(req)), true),
        headers_of(gz_of(srv.candidate(req)), true) == (ResponseHeaders {
            content_type: content_type_of(ext_of(srv.candidate(req))->Some_0),
            gzip: true,
        }),
{
    lemma_candidate_names_segment(srv, req);
    lemma_gz_headers(srv.candidate(req));
}

/// A candidate built from at least one segment ends with that segment, so
/// not with `/`.
proof fn lemma_candidate_names_segment(srv: FileServer, req: FileRequest)
    requires
        srv.admits(req),
        req.segments@.len() > 0,
    ensures
        !ends_with_slash(srv.candidate(req)),
{
    let v = segs_view(req.segments@);
    let last = v.last();
    assert(is_valid_segment(v[v.len() - 1]));
    let j = join_path(srv.root@, v.drop_last());
    let c = j + "/"@ + last;
    assert(c.last() == last[last.len() - 1]);
}

/// A file server's rank decides only when its route is tried: the answer to
/// a request is the same at every rank.
pub proof fn lemma_rank_irrelevant(
    srv: FileServer,
    rank: isize,
    req: FileRequest,
    fs: Map<Seq<char>, EntryKind>,
)
    ensures
        (FileServer { root: srv.root, options: srv.options, rank }).resolve_spec(req, fs)
            == srv.resolve_spec(req, fs),
{
}

/// A declined request forwards; the route tried next has the same or a
/// larger rank, and no route that comes after the declining one is skipped.
pub proof fn lemma_decline_falls_through(
    srv: FileServer,
    req: FileRequest,
    fs: Map<Seq<char>, EntryKind>,
    ranks: Seq<isize>,
    j: int,
    k: int,
)
    requires
        srv.resolve_spec(req, fs) == ResolutionView::Decline,
        0 <= j < ranks.len(),
        is_next(ranks, Some(j), Some(k)),
    ensures
        outcome_of_spec(srv.resolve_spec(req, fs)) == Outcome::Forward,
        0 <= k < ranks.len(),
        ranks[k] >= ranks[j],
        forall|i: int| 0 <= i < ranks.len() && before(ranks, j, i) ==> i == k || before(ranks, k, i),
{
    assert forall|i: int| 0 <= i < ranks.len() && before(ranks, j, i) implies i == k || before(
        ranks,
        k,
        i,
    ) by {
        assert(comes_after(ranks, Some(j), i));
    }
}

/// Two resolutions of one request against one unchanged filesystem end with
/// the same answer.
pub proof fn lemma_repeatable(
    srv: FileServer,
    req: FileRequest,
    fs: Map<Seq<char>, EntryKind>,
    first: Step,
    second: Step,
)
    requires
        first is Done,
        second is Done,
        srv.step_ok(req, first, fs),
        srv.step_ok(req, second, fs),
    ensures
        first->Done_0@ == second->Done_0@,
{
}

} // verus!
