use static_files::content_type::{content_type_for, ext_matches, ContentType};
use static_files::named_file::{extension, find_last, headers_for, ResponseHeaders};
use static_files::options::Options;
use static_files::path::{admit_segments, check_segment, has_trailing_slash, join_segments};
use static_files::encoding::accepts_gzip;
use static_files::server::{location, FileRequest, FileServer, DEFAULT_RANK};

#[test]
fn options_union_is_order_independent() {
    let a = Options::dot_files().union(Options::index()).union(Options::pre_zipped());
    let b = Options::pre_zipped().union(Options::index().union(Options::dot_files()));
    assert_eq!(a, b);
    assert_eq!(a.union(a), a);
    assert!(a.contains(Options::index()));
    assert!(!a.contains(Options::normalize_dirs()));
    assert!(a.contains(Options::none()));
    assert!(a.serves_dot_files() && a.uses_index() && a.prefers_zipped() && !a.normalizes_dirs());
}

#[test]
fn default_options_are_index_only() {
    assert_eq!(Options::default_options(), Options::index());
    let s = FileServer::from("root");
    assert_eq!(s.options, Options::index());
    assert_eq!(s.rank, DEFAULT_RANK);
    assert_eq!(s.root, "root");
}

#[test]
fn content_types_ignore_case() {
    assert_eq!(content_type_for("html"), Some(ContentType::Html));
    assert_eq!(content_type_for("HTML"), Some(ContentType::Html));
    assert_eq!(content_type_for("Txt"), Some(ContentType::Plain));
    assert_eq!(content_type_for("js"), Some(ContentType::JavaScript));
    assert_eq!(content_type_for("gz"), Some(ContentType::Gzip));
    assert_eq!(content_type_for("nope"), None);
    assert_eq!(content_type_for(""), None);
    assert_eq!(ContentType::Html.as_str(), "text/html; charset=utf-8");
    assert_eq!(ContentType::Plain.as_str(), "text/plain; charset=utf-8");
    assert!(ext_matches("PnG", "png"));
    assert!(!ext_matches("pn", "png"));
}

#[test]
fn extensions_of_paths() {
    assert_eq!(extension("a/b/hello.txt"), Some("txt"));
    assert_eq!(extension("a/b/hello.txt.gz"), Some("gz"));
    assert_eq!(extension("a/.hidden"), None);
    assert_eq!(extension("a/.hidden.md"), Some("md"));
    assert_eq!(extension("a.d/goodbye"), None);
    assert_eq!(extension("a/file."), Some(""));
    assert_eq!(find_last("a/b/c", '/'), 3);
    assert_eq!(find_last("abc", '/'), -1);
}

#[test]
fn headers_follow_extension_and_encoding() {
    assert_eq!(
        headers_for("s/index.html", false),
        ResponseHeaders { content_type: Some(ContentType::Html), gzip: false }
    );
    assert_eq!(
        headers_for("s/hello.txt.gz", true),
        ResponseHeaders { content_type: Some(ContentType::Plain), gzip: true }
    );
    assert_eq!(
        headers_for("s/hello.txt.gz", false),
        ResponseHeaders { content_type: Some(ContentType::Gzip), gzip: false }
    );
    // A compressed file without an inner extension keeps the `gz` type.
    assert_eq!(
        headers_for("s/goodbye.gz", true),
        ResponseHeaders { content_type: Some(ContentType::Gzip), gzip: true }
    );
    // Compressed but not named `.gz`: no encoding header.
    assert_eq!(
        headers_for("s/hello.txt", true),
        ResponseHeaders { content_type: Some(ContentType::Plain), gzip: false }
    );
    assert_eq!(headers_for("s/goodbye", false), ResponseHeaders { content_type: None, gzip: false });
}

#[test]
fn segments_checked_and_joined() {
    assert_eq!(check_segment(&"abc".to_string()), (true, false));
    assert_eq!(check_segment(&".abc".to_string()), (true, true));
    assert_eq!(check_segment(&"..".to_string()), (false, true));
    assert_eq!(check_segment(&"".to_string()), (false, false));
    assert_eq!(check_segment(&"a/b".to_string()), (false, false));
    let segs = vec!["a".to_string(), ".b".to_string()];
    assert!(!admit_segments(&segs, false));
    assert!(admit_segments(&segs, true));
    assert_eq!(join_segments(&"root".to_string(), &segs), "root/a/.b");
    assert_eq!(join_segments(&"root".to_string(), &vec![]), "root");
    assert!(has_trailing_slash("/a/"));
    assert!(!has_trailing_slash("/a"));
    assert!(!has_trailing_slash(""));
}

#[test]
fn redirect_location_keeps_query() {
    let mut req = FileRequest {
        path: "/redir/inner".to_string(),
        query: Some("foo=bar".to_string()),
        segments: vec!["inner".to_string()],
        accepts_gzip: false,
    };
    assert_eq!(location(&req), "/redir/inner/?foo=bar");
    req.query = None;
    assert_eq!(location(&req), "/redir/inner/");
}

#[test]
fn gzip_acceptance_from_header_values() {
    assert!(accepts_gzip(&vec!["gzip".to_string()]));
    assert!(accepts_gzip(&vec!["br".to_string(), "deflate, GZip;q=0.5".to_string()]));
    assert!(!accepts_gzip(&vec!["br, deflate".to_string()]));
    assert!(!accepts_gzip(&vec!["gzi".to_string()]));
    assert!(!accepts_gzip(&vec![]));
}

#[test]
fn gzip_refused_by_zero_quality() {
    assert!(!accepts_gzip(&vec!["gzip;q=0".to_string()]));
    assert!(!accepts_gzip(&vec!["br, gzip ; q=0.000".to_string()]));
    assert!(accepts_gzip(&vec!["gzip;q=0.5".to_string()]));
    assert!(accepts_gzip(&vec!["gzip;q=0, GZIP".to_string()]));
    assert!(accepts_gzip(&vec![" gzip , br".to_string()]));
    assert!(!accepts_gzip(&vec!["x-gzip".to_string(), "gzipped".to_string()]));
}

#[test]
fn extensions_follow_path_components() {
    assert_eq!(extension("a/b.txt/"), Some("txt"));
    assert_eq!(extension("a/b.txt//"), Some("txt"));
    assert_eq!(extension("a/.."), None);
    assert_eq!(extension("/"), None);
    assert_eq!(
        headers_for("s/hello.txt.gz/", true),
        ResponseHeaders { content_type: Some(ContentType::Plain), gzip: true }
    );
    assert_eq!(content_type_for("JS"), Some(ContentType::JavaScript));
    assert_eq!(ContentType::JavaScript.as_str(), "application/javascript");
}
