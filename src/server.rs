//! The file-serving policy: from a mount-relative request to a decision to
//! serve a file, redirect, or decline so that other routes may answer.
use vstd::prelude::*;

use crate::options::Options;
use crate::path::{
    admit_segments, ends_with_slash, has_trailing_slash, join_path, join_segments,
    segments_admitted, segs_view,
};

verus! {

/// The rank a file server's routes get unless told otherwise.
pub const DEFAULT_RANK: isize = 10;

/// A file server: a root directory, its options, and the rank of its routes.
#[derive(Clone, Debug)]
pub struct FileServer {
    pub root: String,
    pub options: Options,
    pub rank: isize,
}

/// A request as seen by a file server mounted somewhere.
#[derive(Clone, Debug)]
pub struct FileRequest {
    /// The full request path, as sent by the client, without the query.
    pub path: String,
    /// The query string, without the leading `?`.
    pub query: Option<String>,
    /// The decoded path segments that follow the mount point.
    pub segments: Vec<String>,
    /// Whether the client accepts gzip-encoded content.
    pub accepts_gzip: bool,
}

/// What a filesystem holds at a path.
#[derive(Clone, Copy, Debug, PartialEq, Eq, Structural)]
pub enum EntryKind {
    Missing,
    File,
    Dir,
}

/// A file server's answer to a request.
#[derive(Clone, Debug)]
pub enum Resolution {
    /// Not answered here: the request goes on to the next route.
    Decline,
    /// A permanent redirect to the given location.
    Redirect(String),
    /// Stream the file at the path; `true` when it holds the gzip-compressed
    /// form of the resource that was asked for.
    Serve(String, bool),
}

/// The mathematical form of a [`Resolution`].
pub enum ResolutionView {
    Decline,
    Redirect(Seq<char>),
    Serve(Seq<char>, bool),
}

impl View for Resolution {
    type V = ResolutionView;

    open spec fn view(&self) -> ResolutionView {
        match self {
            Resolution::Decline => ResolutionView::Decline,
            Resolution::Redirect(l) => ResolutionView::Redirect(l@),
            Resolution::Serve(p, c) => ResolutionView::Serve(p@, *c),
        }
    }
}

/// A question a resolution waits on: what is at a path.
#[derive(Clone, Debug)]
pub enum Phase {
    /// What is at the candidate path built from the request.
    Candidate(String),
    /// What is at the `index.html` of the candidate directory.
    IndexFile(String),
    /// What is at the `.gz` sibling of the file to serve.
    Sibling(String),
}

/// The next step of a resolution: ask about a path, or finish.
#[derive(Clone, Debug)]
pub enum Step {
    Probe(Phase),
    Done(Resolution),
}

/// A model of a filesystem: the kind of entry at each path; absent paths
/// hold nothing.
pub open spec fn kind_at(fs: Map<Seq<char>, EntryKind>, p: Seq<char>) -> EntryKind {
    if fs.contains_key(p) {
        fs[p]
    } else {
        EntryKind::Missing
    }
}

/// The path of the file that answers for directory `dir`.
pub open spec fn index_of(dir: Seq<char>) -> Seq<char> {
    dir + "/index.html"@
}

/// The path of the gzip-compressed sibling of `f`.
pub open spec fn gz_of(f: Seq<char>) -> Seq<char> {
    f + ".gz"@
}

/// The redirect target for a directory request without a trailing `/`: the
/// path with `/` appended, and the query kept as it was.
pub open spec fn location_of(req: FileRequest) -> Seq<char> {
    req.path@ + "/"@ + match req.query {
        Some(q) => "?"@ + q@,
        None => Seq::empty(),
    }
}

impl FileServer {
    /// The filesystem path a request names, below the root.
    pub open spec fn candidate(self, req: FileRequest) -> Seq<char> {
        join_path(self.root@, segs_view(req.segments@))
    }

    /// The request's segments pass the lexical checks.
    pub open spec fn admits(self, req: FileRequest) -> bool {
        segments_admitted(segs_view(req.segments@), self.options.dot_files)
    }

    /// A directory request is answered with a redirect.
    pub open spec fn redirects(self, req: FileRequest) -> bool {
        self.options.normalize_dirs && !ends_with_slash(req.path@)
    }

    /// A compressed sibling is looked for.
    pub open spec fn wants_gz(self, req: FileRequest) -> bool {
        self.options.pre_zipped && req.accepts_gzip
    }

    /// How the regular file `f` is served.
    pub open spec fn serve_spec(
        self,
        req: FileRequest,
        f: Seq<char>,
        fs: Map<Seq<char>, EntryKind>,
    ) -> ResolutionView {
        if self.wants_gz(req) && kind_at(fs, gz_of(f)) == EntryKind::File {
            ResolutionView::Serve(gz_of(f), true)
        } else {
            ResolutionView::Serve(f, false)
        }
    }

    /// The answer to `req` against the filesystem `fs`.
    pub open spec fn resolve_spec(
        self,
        req: FileRequest,
        fs: Map<Seq<char>, EntryKind>,
    ) -> ResolutionView {
        if !self.admits(req) {
            ResolutionView::Decline
        } else {
            let c = self.candidate(req);
            match kind_at(fs, c) {
                EntryKind::Missing => ResolutionView::Decline,
                EntryKind::File => self.serve_spec(req, c, fs),
                EntryKind::Dir => if self.redirects(req) {
                    ResolutionView::Redirect(location_of(req))
                } else if !self.options.index {
                    ResolutionView::Decline
                } else if kind_at(fs, index_of(c)) != EntryKind::File {
                    ResolutionView::Decline
                } else {
                    self.serve_spec(req, index_of(c), fs)
                },
            }
        }
    }

    /// `ph` is a question that a resolution of `req` against `fs` asks.
    pub open spec fn phase_ok(self, req: FileRequest, ph: Phase, fs: Map<Seq<char>, EntryKind>) -> bool {
        let c = self.candidate(req);
        self.admits(req) && match ph {
            Phase::Candidate(p) => p@ == c,
            Phase::IndexFile(p) => {
                &&& kind_at(fs, c) == EntryKind::Dir
                &&& !self.redirects(req)
                &&& self.options.index
                &&& p@ == index_of(c)
            },
            Phase::Sibling(f) => {
                &&& self.wants_gz(req)
                &&& (kind_at(fs, c) == EntryKind::File && f@ == c) || (kind_at(fs, c)
                    == EntryKind::Dir && !self.redirects(req) && self.options.index && f@
                    == index_of(c) && kind_at(fs, f@) == EntryKind::File)
            },
        }
    }

    /// `step` is where a resolution of `req` against `fs` stands.
    pub open spec fn step_ok(self, req: FileRequest, step: Step, fs: Map<Seq<char>, EntryKind>) -> bool {
        match step {
            Step::Done(r) => r@ == self.resolve_spec(req, fs),
            Step::Probe(ph) => self.phase_ok(req, ph, fs),
        }
    }

    /// A file server for `root` with the given options and the default rank.
    pub fn new(root: &str, options: Options) -> (r: FileServer)
        ensures
            r.root@ == root@,
            r.options == options,
            r.rank == DEFAULT_RANK,
    {
        FileServer { root: root.to_owned(), options, rank: DEFAULT_RANK }
    }

    /// A file server for `root` with the default options and rank.
    pub fn from(root: &str) -> (r: FileServer)
        ensures
            r.root@ == root@,
            r.options.index,
            !r.options.dot_files,
            !r.options.normalize_dirs,
            !r.options.pre_zipped,
            r.rank == DEFAULT_RANK,
    {
        FileServer::new(root, Options::default_options())
    }

    /// The same server with its routes at rank `rank`.
    pub fn rank(self, rank: isize) -> (r: FileServer)
        ensures
            r.root == self.root,
            r.options == self.options,
            r.rank == rank,
    {
        FileServer { rank, ..self }
    }

    /// The first step of resolving `req`: the lexical checks, then a question
    /// about the candidate path.
    pub fn start(&self, req: &FileRequest) -> (r: Step)
        ensures
            forall|fs: Map<Seq<char>, EntryKind>| #[trigger] self.step_ok(*req, r, fs),
            r is Done <==> !self.admits(*req),
    {
        if !admit_segments(&req.segments, self.options.dot_files) {
            Step::Done(Resolution::Decline)
        } else {
            Step::Probe(Phase::Candidate(join_segments(&self.root, &req.segments)))
        }
    }

    /// Serve `f`, after asking for its compressed sibling where one is wanted.
    fn serve_or_probe(&self, req: &FileRequest, f: String) -> (r: Step)
        ensures
            self.wants_gz(*req) ==> r == Step::Probe(Phase::Sibling(f)),
            !self.wants_gz(*req) ==> r == Step::Done(Resolution::Serve(f, false)),
    {
        if self.options.pre_zipped && req.accepts_gzip {
            Step::Probe(Phase::Sibling(f))
        } else {
            Step::Done(Resolution::Serve(f, false))
        }
    }

    /// The step that follows the answer `kind` to the question `ph`.
    pub fn advance(&self, req: &FileRequest, ph: &Phase, kind: EntryKind) -> (r: Step)
        ensures
            forall|fs: Map<Seq<char>, EntryKind>|
                #![trigger self.step_ok(*req, r, fs)]
                self.phase_ok(*req, *ph, fs) && kind_at(fs, ph.probe_of()) == kind
                    ==> self.step_ok(*req, r, fs),
            match *ph {
                Phase::Candidate(_) => !(r matches Step::Probe(Phase::Candidate(_))),
                Phase::IndexFile(_) => r is Done || r matches Step::Probe(Phase::Sibling(_)),
                Phase::Sibling(_) => r is Done,
            },
    {
        match ph {
            Phase::Candidate(c) => match kind {
                EntryKind::Missing => Step::Done(Resolution::Decline),
                EntryKind::File => self.serve_or_probe(req, c.clone()),
                EntryKind::Dir => {
                    if self.options.normalize_dirs && !has_trailing_slash(req.path.as_str()) {
                        Step::Done(Resolution::Redirect(location(req)))
                    } else if !self.options.index {
                        Step::Done(Resolution::Decline)
                    } else {
                        let mut p = c.clone();
                        p.append("/index.html");
                        Step::Probe(Phase::IndexFile(p))
                    }
                },
            },
            Phase::IndexFile(p) => {
                if kind == EntryKind::File {
                    self.serve_or_probe(req, p.clone())
                } else {
                    Step::Done(Resolution::Decline)
                }
            },
            Phase::Sibling(f) => {
                if kind == EntryKind::File {
                    let mut g = f.clone();
                    g.append(".gz");
                    Step::Done(Resolution::Serve(g, true))
                } else {
                    Step::Done(Resolution::Serve(f.clone(), false))
                }
            },
        }
    }
}

impl Phase {
    /// The path a question asks about.
    pub open spec fn probe_of(self) -> Seq<char> {
        match self {
            Phase::Candidate(p) => p@,
            Phase::IndexFile(p) => p@,
            Phase::Sibling(f) => gz_of(f@),
        }
    }

    /// The path this question asks about.
    pub fn probe_path(&self) -> (r: String)
        ensures
            r@ == self.probe_of(),
    {
        match self {
            Phase::Candidate(p) => p.clone(),
            Phase::IndexFile(p) => p.clone(),
            Phase::Sibling(f) => {
                let mut g = f.clone();
                g.append(".gz");
                g
            },
        }
    }
}

/// The redirect target for a directory request without a trailing `/`.
pub fn location(req: &FileRequest) -> (r: String)
    ensures
        r@ == location_of(*req),
{
    let mut l = req.path.clone();
    l.append("/");
    match &req.query {
        Some(q) => {
            l.append("?");
            l.append(q.as_str());
            assert(l@ =~= location_of(*req));
        },
        None => {
            assert(l@ =~= location_of(*req));
        },
    }
    l
}

} // verus!
