use rizonet_core::assets::{
    asset_path, asset_response, mime_for, mime_for_extension, serve_asset,
};
use std::cell::RefCell;

fn headers(list: &Vec<(String, String)>) -> Vec<(&str, &str)> {
    list.iter().map(|h| (h.0.as_str(), h.1.as_str())).collect()
}

#[test]
fn paths_name_assets() {
    assert_eq!(asset_path("/app.js").as_deref(), Some("app.js"));
    assert_eq!(asset_path("///css/site.css").as_deref(), Some("css/site.css"));
    assert_eq!(asset_path("").as_deref(), Some("index.html"));
    assert_eq!(asset_path("///").as_deref(), Some("index.html"));
    assert_eq!(asset_path("/.well-known/x").as_deref(), Some(".well-known/x"));
    assert_eq!(asset_path("/a/...").as_deref(), Some("a/..."));
}

#[test]
fn climbing_paths_are_refused() {
    assert_eq!(asset_path("/../secret"), None);
    assert_eq!(asset_path(".."), None);
    assert_eq!(asset_path("/a/../b"), None);
    assert_eq!(asset_path("/a/b/.."), None);
}

#[test]
fn found_asset_is_served() {
    let asked = RefCell::new(Vec::new());
    let r = serve_asset("/js/app.MJS", |rel| {
        asked.borrow_mut().push(rel);
        Some(vec![1, 2, 3])
    });
    assert_eq!(*asked.borrow(), vec!["js/app.MJS".to_string()]);
    assert_eq!(r.status, 200);
    assert_eq!(
        headers(&r.headers),
        vec![
            ("Content-Type", "application/javascript; charset=utf-8"),
            ("Access-Control-Allow-Origin", "*"),
        ]
    );
    assert_eq!(r.body, vec![1, 2, 3]);
}

#[test]
fn missing_asset_is_not_found() {
    let r = serve_asset("/größe.txt", |_| None);
    assert_eq!(r.status, 404);
    assert_eq!(headers(&r.headers), vec![("Content-Type", "text/plain; charset=utf-8")]);
    assert_eq!(r.body, "not found: größe.txt".as_bytes());
}

#[test]
fn climbing_request_reads_nothing() {
    let r = serve_asset("/a/../../etc", |_| panic!("read"));
    assert_eq!(r.status, 403);
    assert!(r.headers.is_empty());
    assert_eq!(r.body, b"forbidden");
}

#[test]
fn empty_file_is_served() {
    let r = asset_response("x", Some(vec![]));
    assert_eq!(r.status, 200);
    assert_eq!(r.headers[0].1, "application/octet-stream");
    assert!(r.body.is_empty());
}

#[test]
fn extensions_have_mime_types() {
    let cases = [
        ("html", "text/html; charset=utf-8"),
        ("htm", "text/html; charset=utf-8"),
        ("js", "application/javascript; charset=utf-8"),
        ("mjs", "application/javascript; charset=utf-8"),
        ("css", "text/css; charset=utf-8"),
        ("json", "application/json; charset=utf-8"),
        ("map", "application/json; charset=utf-8"),
        ("png", "image/png"),
        ("jpg", "image/jpeg"),
        ("jpeg", "image/jpeg"),
        ("gif", "image/gif"),
        ("svg", "image/svg+xml"),
        ("webp", "image/webp"),
        ("ico", "image/x-icon"),
        ("wasm", "application/wasm"),
        ("woff", "font/woff"),
        ("woff2", "font/woff2"),
        ("ttf", "font/ttf"),
        ("otf", "font/otf"),
        ("txt", "text/plain; charset=utf-8"),
        ("md", "text/plain; charset=utf-8"),
        ("exe", "application/octet-stream"),
        ("", "application/octet-stream"),
    ];
    for (ext, mime) in cases {
        assert_eq!(mime_for_extension(&Some(ext.to_string())), mime);
        assert_eq!(mime_for_extension(&Some(ext.to_ascii_uppercase())), mime);
        assert_eq!(mime_for(&format!("a.b/file.{}", ext)), mime);
    }
    assert_eq!(mime_for_extension(&None), "application/octet-stream");
}

#[test]
fn names_without_extension_are_octets() {
    assert_eq!(mime_for("html"), "application/octet-stream");
    assert_eq!(mime_for(".html"), "application/octet-stream");
    assert_eq!(mime_for("site.html/readme"), "application/octet-stream");
    assert_eq!(mime_for("a.tar.css"), "text/css; charset=utf-8");
    assert_eq!(mime_for(".x.css"), "text/css; charset=utf-8");
    assert_eq!(mime_for("trailing."), "application/octet-stream");
}

#[test]
fn directories_do_not_matter_for_the_mime_type() {
    for path in [
        "app.js",
        "/app.js",
        "/srv/dist/app.js",
        "a:b/app.js",
        "ab:c.js",
        "a\\b/app.js",
        "./x/../app.JS",
        "app.js/",
        "/srv/app.js//",
    ] {
        assert_eq!(mime_for(path), "application/javascript; charset=utf-8");
    }
    assert_eq!(mime_for("/srv/README"), "application/octet-stream");
    assert_eq!(mime_for("/srv/a.tar.gz"), "application/octet-stream");
}
