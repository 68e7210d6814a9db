//! Content types inferred from file-name extensions.
use vstd::prelude::*;

verus! {

/// A media type that a file extension maps to.
#[derive(Clone, Copy, Debug, PartialEq, Eq, Structural)]
pub enum ContentType {
    Html,
    Plain,
    Css,
    JavaScript,
    Json,
    Xml,
    Csv,
    Png,
    Jpeg,
    Gif,
    Svg,
    Icon,
    WebP,
    Pdf,
    Wasm,
    Zip,
    Gzip,
    Tar,
    Woff,
    Woff2,
}

/// The media type text of a content type, as sent in a `Content-Type` header.
pub open spec fn mime_of(ct: ContentType) -> Seq<char> {
    match ct {
        ContentType::Html => "text/html; charset=utf-8"@,
        ContentType::Plain => "text/plain; charset=utf-8"@,
        ContentType::Css => "text/css; charset=utf-8"@,
        ContentType::JavaScript => "application/javascript"@,
        ContentType::Json => "application/json"@,
        ContentType::Xml => "text/xml; charset=utf-8"@,
        ContentType::Csv => "text/csv; charset=utf-8"@,
        ContentType::Png => "image/png"@,
        ContentType::Jpeg => "image/jpeg"@,
        ContentType::Gif => "image/gif"@,
        ContentType::Svg => "image/svg+xml"@,
        ContentType::Icon => "image/x-icon"@,
        ContentType::WebP => "image/webp"@,
        ContentType::Pdf => "application/pdf"@,
        ContentType::Wasm => "application/wasm"@,
        ContentType::Zip => "application/zip"@,
        ContentType::Gzip => "application/gzip"@,
        ContentType::Tar => "application/x-tar"@,
        ContentType::Woff => "font/woff"@,
        ContentType::Woff2 => "font/woff2"@,
    }
}

/// `c` is an ASCII upper-case letter.
pub open spec fn is_ascii_upper(c: char) -> bool {
    'A' <= c && c <= 'Z'
}

/// `c` equals the lower-case letter `l`, ignoring ASCII case.
pub open spec fn char_matches_lower(c: char, l: char) -> bool {
    c == l || (is_ascii_upper(c) && (c as u32) + 32 == (l as u32))
}

/// `e` spells the lower-case word `lit`, ignoring ASCII case.
pub open spec fn matches_ignore_case(e: Seq<char>, lit: Seq<char>) -> bool {
    &&& e.len() == lit.len()
    &&& forall|i: int| 0 <= i < e.len() ==> char_matches_lower(#[trigger] e[i], lit[i])
}

/// The content type of a file with extension `e`, compared without regard
/// to ASCII case; `None` for an unknown extension.
pub open spec fn content_type_of(e: Seq<char>) -> Option<ContentType> {
    if matches_ignore_case(e, "html"@) {
        Some(ContentType::Html)
    } else     if matches_ignore_case(e, "htm"@) {
        Some(ContentType::Html)
    } else     if matches_ignore_case(e, "txt"@) {
        Some(ContentType::Plain)
    } else     if matches_ignore_case(e, "css"@) {
        Some(ContentType::Css)
    } else     if matches_ignore_case(e, "js"@) {
        Some(ContentType::JavaScript)
    } else     if matches_ignore_case(e, "mjs"@) {
        Some(ContentType::JavaScript)
    } else     if matches_ignore_case(e, "json"@) {
        Some(ContentType::Json)
    } else     if matches_ignore_case(e, "xml"@) {
        Some(ContentType::Xml)
    } else     if matches_ignore_case(e, "csv"@) {
        Some(ContentType::Csv)
    } else     if matches_ignore_case(e, "png"@) {
        Some(ContentType::Png)
    } else     if matches_ignore_case(e, "jpg"@) {
        Some(ContentType::Jpeg)
    } else     if matches_ignore_case(e, "jpeg"@) {
        Some(ContentType::Jpeg)
    } else     if matches_ignore_case(e, "gif"@) {
        Some(ContentType::Gif)
    } else     if matches_ignore_case(e, "svg"@) {
        Some(ContentType::Svg)
    } else     if matches_ignore_case(e, "ico"@) {
        Some(ContentType::Icon)
    } else     if matches_ignore_case(e, "webp"@) {
        Some(ContentType::WebP)
    } else     if matches_ignore_case(e, "pdf"@) {
        Some(ContentType::Pdf)
    } else     if matches_ignore_case(e, "wasm"@) {
        Some(ContentType::Wasm)
    } else     if matches_ignore_case(e, "zip"@) {
        Some(ContentType::Zip)
    } else     if matches_ignore_case(e, "gz"@) {
        Some(ContentType::Gzip)
    } else     if matches_ignore_case(e, "tar"@) {
        Some(ContentType::Tar)
    } else     if matches_ignore_case(e, "woff"@) {
        Some(ContentType::Woff)
    } else     if matches_ignore_case(e, "woff2"@) {
        Some(ContentType::Woff2)
    } else {
        None
    }
}

fn char_matches_lower_exec(c: char, l: char) -> (r: bool)
    ensures
        r == char_matches_lower(c, l),
{
    c == l || ('A' <= c && c <= 'Z' && (c as u32) + 32 == (l as u32))
}

/// Whether `e` spells the lower-case word `lit`, ignoring ASCII case.
pub fn ext_matches(e: &str, lit: &str) -> (r: bool)
    ensures
        r == matches_ignore_case(e@, lit@),
{
    let n = e.unicode_len();
    if n != lit.unicode_len() {
        return false;
    }
    let mut i: usize = 0;
    while i < n
        invariant
            n == e@.len(),
            n == lit@.len(),
            i <= n,
            forall|j: int| 0 <= j < i ==> char_matches_lower(#[trigger] e@[j], lit@[j]),
        decreases n - i,
    {
        if !char_matches_lower_exec(e.get_char(i), lit.get_char(i)) {
            return false;
        }
        i = i + 1;
    }
    true
}

/// Looks up the content type for a file extension, ignoring ASCII case.
pub fn content_type_for(e: &str) -> (r: Option<ContentType>)
    ensures
        r == content_type_of(e@),
{
    if ext_matches(e, "html") {
        return Some(ContentType::Html);
    }
    if ext_matches(e, "htm") {
        return Some(ContentType::Html);
    }
    if ext_matches(e, "txt") {
        return Some(ContentType::Plain);
    }
    if ext_matches(e, "css") {
        return Some(ContentType::Css);
    }
    if ext_matches(e, "js") {
        return Some(ContentType::JavaScript);
    }
    if ext_matches(e, "mjs") {
        return Some(ContentType::JavaScript);
    }
    if ext_matches(e, "json") {
        return Some(ContentType::Json);
    }
    if ext_matches(e, "xml") {
        return Some(ContentType::Xml);
    }
    if ext_matches(e, "csv") {
        return Some(ContentType::Csv);
    }
    if ext_matches(e, "png") {
        return Some(ContentType::Png);
    }
    if ext_matches(e, "jpg") {
        return Some(ContentType::Jpeg);
    }
    if ext_matches(e, "jpeg") {
        return Some(ContentType::Jpeg);
    }
    if ext_matches(e, "gif") {
        return Some(ContentType::Gif);
    }
    if ext_matches(e, "svg") {
        return Some(ContentType::Svg);
    }
    if ext_matches(e, "ico") {
        return Some(ContentType::Icon);
    }
    if ext_matches(e, "webp") {
        return Some(ContentType::WebP);
    }
    if ext_matches(e, "pdf") {
        return Some(ContentType::Pdf);
    }
    if ext_matches(e, "wasm") {
        return Some(ContentType::Wasm);
    }
    if ext_matches(e, "zip") {
        return Some(ContentType::Zip);
    }
    if ext_matches(e, "gz") {
        return Some(ContentType::Gzip);
    }
    if ext_matches(e, "tar") {
        return Some(ContentType::Tar);
    }
    if ext_matches(e, "woff") {
        return Some(ContentType::Woff);
    }
    if ext_matches(e, "woff2") {
        return Some(ContentType::Woff2);
    }
    None
}

impl ContentType {
    /// The media type text, as sent in a `Content-Type` header.
    pub fn as_str(&self) -> (r: &'static str)
        ensures
            r@ == mime_of(*self),
    {
        match self {
            ContentType::Html => "text/html; charset=utf-8",
            ContentType::Plain => "text/plain; charset=utf-8",
            ContentType::Css => "text/css; charset=utf-8",
            ContentType::JavaScript => "application/javascript",
            ContentType::Json => "application/json",
            ContentType::Xml => "text/xml; charset=utf-8",
            ContentType::Csv => "text/csv; charset=utf-8",
            ContentType::Png => "image/png",
            ContentType::Jpeg => "image/jpeg",
            ContentType::Gif => "image/gif",
            ContentType::Svg => "image/svg+xml",
            ContentType::Icon => "image/x-icon",
            ContentType::WebP => "image/webp",
            ContentType::Pdf => "application/pdf",
            ContentType::Wasm => "application/wasm",
            ContentType::Zip => "application/zip",
            ContentType::Gzip => "application/gzip",
            ContentType::Tar => "application/x-tar",
            ContentType::Woff => "font/woff",
            ContentType::Woff2 => "font/woff2",
        }
    }
}

} // verus!
