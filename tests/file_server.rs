use std::collections::HashMap;

use static_files::content_type::ContentType;
use static_files::named_file::headers_for;
use static_files::options::Options;
use static_files::route::{dispatch_after, dispatch_start, outcome_of, Dispatch, Outcome};
use static_files::server::{EntryKind, FileRequest, FileServer, Resolution, Step};

const ROOT: &str = "static";

fn static_fs() -> HashMap<String, EntryKind> {
    let mut fs = HashMap::new();
    for d in ["static", "static/inner", "static/other"] {
        fs.insert(d.to_string(), EntryKind::Dir);
    }
    for f in [
        "static/index.html",
        "static/inner/goodbye",
        "static/inner/index.html",
        "static/other/hello.txt",
        "static/other/hello.txt.gz",
        "static/.hidden",
        "static/inner/.hideme",
    ] {
        fs.insert(f.to_string(), EntryKind::File);
    }
    fs
}

fn servers() -> Vec<(&'static str, FileServer)> {
    vec![
        ("default", FileServer::from(ROOT)),
        ("no_index", FileServer::new(ROOT, Options::none())),
        ("dots", FileServer::new(ROOT, Options::dot_files())),
        ("index", FileServer::new(ROOT, Options::index())),
        ("both", FileServer::new(ROOT, Options::dot_files().union(Options::index()))),
        ("redir", FileServer::new(ROOT, Options::normalize_dirs())),
        ("redir_index", FileServer::new(ROOT, Options::normalize_dirs().union(Options::index()))),
        ("compressed", FileServer::new(ROOT, Options::pre_zipped())),
    ]
}

fn server(prefix: &str) -> FileServer {
    servers().into_iter().find(|(p, _)| *p == prefix).expect("mounted").1
}

/// Splits `uri` into the request a server mounted at `/<prefix>` sees.
fn request(uri: &str, accepts_gzip: bool) -> (String, FileRequest) {
    let (path, query) = match uri.split_once('?') {
        Some((p, q)) => (p.to_string(), Some(q.to_string())),
        None => (uri.to_string(), None),
    };
    let mut parts = path.split('/').filter(|s| !s.is_empty());
    let prefix = parts.next().unwrap_or("").to_string();
    let segments = parts.map(|s| s.to_string()).collect();
    (prefix, FileRequest { path, query, segments, accepts_gzip })
}

fn resolve(srv: &FileServer, req: &FileRequest, fs: &HashMap<String, EntryKind>) -> Resolution {
    let mut step = srv.start(req);
    loop {
        match step {
            Step::Done(r) => return r,
            Step::Probe(ph) => {
                let kind = fs.get(&ph.probe_path()).copied().unwrap_or(EntryKind::Missing);
                step = srv.advance(req, &ph, kind);
            }
        }
    }
}

fn get(uri: &str, gzip: bool) -> Resolution {
    let (prefix, req) = request(uri, gzip);
    resolve(&server(&prefix), &req, &static_fs())
}

const REGULAR_FILES: &[&str] =
    &["index.html", "inner/goodbye", "inner/index.html", "other/hello.txt", "other/hello.txt.gz"];
const COMPRESSED_FILES: &[&str] = &["other/hello.txt"];
const HIDDEN_FILES: &[&str] = &[".hidden", "inner/.hideme"];
const INDEXED_DIRECTORIES: &[&str] = &["", "inner/"];

fn assert_file(prefix: &str, path: &str, exists: bool, compressed: bool) {
    let full_path = format!("/{}/{}", prefix, path);
    let r = get(&full_path, true);
    if exists {
        let mut expected = if compressed {
            format!("{}/{}.gz", ROOT, path)
        } else {
            format!("{}/{}", ROOT, path.trim_end_matches('/'))
        };
        if static_fs().get(expected.trim_end_matches('/')) == Some(&EntryKind::Dir) {
            expected = format!("{}/index.html", expected.trim_end_matches('/'));
        }
        match r {
            Resolution::Serve(p, c) => {
                assert_eq!(p, expected);
                assert_eq!(c, compressed);
                assert_eq!(headers_for(&p, c).gzip, compressed);
            }
            other => panic!("{} not served: {:?}", full_path, other),
        }
    } else {
        assert!(matches!(r, Resolution::Decline), "{} should be declined", full_path);
    }
}

fn assert_all(prefix: &str, paths: &[&str], exist: bool) {
    for path in paths.iter() {
        assert_file(prefix, path, exist, false);
    }
}

#[test]
fn test_static_no_index() {
    assert_all("no_index", REGULAR_FILES, true);
    assert_all("no_index", HIDDEN_FILES, false);
    assert_all("no_index", INDEXED_DIRECTORIES, false);
}

#[test]
fn test_static_hidden() {
    assert_all("dots", REGULAR_FILES, true);
    assert_all("dots", HIDDEN_FILES, true);
    assert_all("dots", INDEXED_DIRECTORIES, false);
}

#[test]
fn test_static_index() {
    assert_all("index", REGULAR_FILES, true);
    assert_all("index", HIDDEN_FILES, false);
    assert_all("index", INDEXED_DIRECTORIES, true);

    assert_all("default", REGULAR_FILES, true);
    assert_all("default", HIDDEN_FILES, false);
    assert_all("default", INDEXED_DIRECTORIES, true);
}

#[test]
fn test_static_all() {
    assert_all("both", REGULAR_FILES, true);
    assert_all("both", HIDDEN_FILES, true);
    assert_all("both", INDEXED_DIRECTORIES, true);
}

#[test]
fn test_ranking() {
    for rank in -128..128 {
        let a = FileServer::new(ROOT, Options::none()).rank(rank);
        let b = FileServer::from(ROOT).rank(rank);

        for handler in vec![a, b] {
            let routes = handler.routes();
            assert!(routes.iter().all(|route| route.rank == rank), "{}", rank);
        }
    }
}

/// Offers `uri` to the file server mounted at `/default` and then to the
/// catch-all routes of rank 20 that match the same number of segments.
fn dispatch_default(uri: &str) -> Option<String> {
    let (_, req) = request(uri, false);
    let srv = server("default");
    let ranks = vec![srv.rank, 20];
    let mut d = dispatch_start(&ranks);
    loop {
        match d {
            Dispatch::Try(0) => {
                let r = resolve(&srv, &req, &static_fs());
                if let Resolution::Serve(p, _) = &r {
                    return Some(p.clone());
                }
                d = dispatch_after(&ranks, 0, outcome_of(&r));
            }
            Dispatch::Try(_) => return Some(req.segments.join("/")),
            Dispatch::Respond | Dispatch::NotFound => return None,
        }
    }
}

#[test]
fn test_forwarding() {
    assert_eq!(dispatch_default("/default/ireallydontexist").as_deref(), Some("ireallydontexist"));
    assert_eq!(dispatch_default("/default/idont/exist").as_deref(), Some("idont/exist"));

    assert_all("both", REGULAR_FILES, true);
    assert_all("both", HIDDEN_FILES, true);
    assert_all("both", INDEXED_DIRECTORIES, true);
}

fn location(r: &Resolution) -> Option<&str> {
    match r {
        Resolution::Redirect(l) => Some(l.as_str()),
        _ => None,
    }
}

#[test]
fn test_redirection() {
    // Redirection only happens if enabled, and doesn't affect index behavior.
    assert!(matches!(get("/no_index/inner", false), Resolution::Decline));
    assert!(matches!(get("/index/inner", false), Resolution::Serve(..)));

    assert_eq!(location(&get("/redir/inner", false)), Some("/redir/inner/"));
    assert_eq!(location(&get("/redir/inner?foo=bar", false)), Some("/redir/inner/?foo=bar"));
    assert_eq!(location(&get("/redir_index/inner", false)), Some("/redir_index/inner/"));

    // Paths with trailing slash are unaffected.
    assert!(matches!(get("/redir/inner/", false), Resolution::Decline));
    assert!(matches!(get("/redir_index/inner/", false), Resolution::Serve(..)));

    // Root of route is also redirected.
    assert!(matches!(get("/no_index/", false), Resolution::Decline));
    assert!(matches!(get("/index/", false), Resolution::Serve(..)));

    assert_eq!(location(&get("/redir/inner", false)), Some("/redir/inner/"));
    assert_eq!(location(&get("/redir/other", false)), Some("/redir/other/"));
    assert_eq!(location(&get("/redir_index/other", false)), Some("/redir_index/other/"));
}

#[test]
fn test_compression() {
    for path in COMPRESSED_FILES {
        assert_file("compressed", path, true, true)
    }
}

#[test]
fn example_scenario_index_and_dotfiles() {
    let srv = FileServer::new(ROOT, Options::index().union(Options::dot_files()));
    let fs = static_fs();
    let (_, req) = request("/both/inner/", false);
    assert!(matches!(resolve(&srv, &req, &fs), Resolution::Serve(p, false) if p == "static/inner/index.html"));
    let (_, req) = request("/both/.hidden", false);
    assert!(matches!(resolve(&srv, &req, &fs), Resolution::Serve(p, false) if p == "static/.hidden"));
    let (_, req) = request("/both/other/hello.txt", true);
    let r = resolve(&srv, &req, &fs);
    assert!(matches!(&r, Resolution::Serve(p, false) if p == "static/other/hello.txt"));
    if let Resolution::Serve(p, c) = r {
        let h = headers_for(&p, c);
        assert!(!h.gzip);
        assert_eq!(h.content_type, Some(ContentType::Plain));
    }
}

#[test]
fn plain_file_served_with_no_options() {
    assert!(matches!(get("/no_index/other/hello.txt", true), Resolution::Serve(p, false) if p == "static/other/hello.txt"));
}

#[test]
fn hidden_segment_declined_even_when_missing() {
    assert!(matches!(get("/index/.nothing/here", false), Resolution::Decline));
    assert!(matches!(get("/index/inner/.hideme", false), Resolution::Decline));
}

#[test]
fn index_reached_after_redirect() {
    assert_eq!(location(&get("/redir_index/inner", false)), Some("/redir_index/inner/"));
    assert!(matches!(get("/redir_index/inner/", false), Resolution::Serve(p, false) if p == "static/inner/index.html"));
}

#[test]
fn redirect_precedes_missing_index() {
    // `other` has no index.html: the redirect is still issued first.
    assert_eq!(location(&get("/redir_index/other", false)), Some("/redir_index/other/"));
    assert!(matches!(get("/redir_index/other/", false), Resolution::Decline));
}

#[test]
fn precompressed_typed_by_inner_extension() {
    let r = get("/compressed/other/hello.txt", true);
    match r {
        Resolution::Serve(p, true) => {
            assert_eq!(p, "static/other/hello.txt.gz");
            let h = headers_for(&p, true);
            assert!(h.gzip);
            assert_eq!(h.content_type, Some(ContentType::Plain));
        }
        other => panic!("not compressed: {:?}", other),
    }
    // Without gzip acceptance, the plain file.
    assert!(matches!(get("/compressed/other/hello.txt", false), Resolution::Serve(p, false) if p == "static/other/hello.txt"));
}

#[test]
fn rank_does_not_change_resolution() {
    let fs = static_fs();
    for rank in [-5isize, 0, 10, 100] {
        let srv = FileServer::new(ROOT, Options::index()).rank(rank);
        let (_, req) = request("/index/inner/", false);
        assert!(matches!(resolve(&srv, &req, &fs), Resolution::Serve(p, false) if p == "static/inner/index.html"));
    }
}

#[test]
fn repeated_requests_agree() {
    let a = format!("{:?}", get("/compressed/other/hello.txt", true));
    let b = format!("{:?}", get("/compressed/other/hello.txt", true));
    assert_eq!(a, b);
}

#[test]
fn traversal_and_empty_segments_declined() {
    let srv = FileServer::new(ROOT, Options::dot_files().union(Options::index()));
    let fs = static_fs();
    for segs in [vec![".."], vec!["inner", ".."], vec![""], vec!["a/b"]] {
        let req = FileRequest {
            path: "/x".to_string(),
            query: None,
            segments: segs.iter().map(|s| s.to_string()).collect(),
            accepts_gzip: false,
        };
        assert!(matches!(srv.start(&req), Step::Done(Resolution::Decline)));
        assert!(matches!(resolve(&srv, &req, &fs), Resolution::Decline));
    }
}

#[test]
fn failure_and_success_stop_dispatch() {
    let ranks = vec![5isize, 1, 5];
    assert_eq!(dispatch_start(&ranks), Dispatch::Try(1));
    assert_eq!(dispatch_after(&ranks, 1, Outcome::Forward), Dispatch::Try(0));
    assert_eq!(dispatch_after(&ranks, 0, Outcome::Forward), Dispatch::Try(2));
    assert_eq!(dispatch_after(&ranks, 2, Outcome::Forward), Dispatch::NotFound);
    assert_eq!(dispatch_after(&ranks, 0, Outcome::Failure), Dispatch::Respond);
    assert_eq!(dispatch_after(&ranks, 0, Outcome::Success), Dispatch::Respond);
    assert_eq!(dispatch_start(&vec![]), Dispatch::NotFound);
}
