use ltengine::static_files::{get_mime_type, serve_static, static_answer};

#[test]
fn types_by_extension() {
    let types = [
        ("html", "text/html"),
        ("htm", "text/html"),
        ("css", "text/css"),
        ("js", "application/javascript"),
        ("json", "application/json"),
        ("svg", "image/svg+xml"),
        ("woff", "font/woff"),
        ("woff2", "font/woff2"),
        ("ttf", "font/ttf"),
        ("eot", "application/vnd.ms-fontobject"),
        ("png", "image/png"),
        ("jpg", "image/jpeg"),
        ("jpeg", "image/jpeg"),
        ("gif", "image/gif"),
        ("ico", "image/x-icon"),
        ("webp", "image/webp"),
        ("xml", "text/xml"),
        ("txt", "text/plain"),
        ("map", "application/json"),
        ("wasm", "application/octet-stream"),
        ("HTML", "application/octet-stream"),
        ("", "application/octet-stream"),
    ];
    for (ext, mime) in types {
        assert_eq!(get_mime_type(&format!("js/app.min.{}", ext)), mime);
        assert_eq!(get_mime_type(ext), mime);
    }
    assert_eq!(get_mime_type("a.css/b"), "application/octet-stream");
}

#[test]
fn files_of_paths() {
    let served = |path: &str| {
        let f = serve_static(path);
        (f.lookup, f.mime)
    };
    for directory in ["", "/", "/css/", "a/"] {
        assert_eq!(served(directory), ("index.html".to_string(), "text/html"));
    }
    assert_eq!(served("/css/main.css"), ("css/main.css".to_string(), "text/css"));
    assert_eq!(served("app.js"), ("app.js".to_string(), "application/javascript"));
    assert_eq!(served("//x.png"), ("/x.png".to_string(), "image/png"));
    assert_eq!(served("/LICENSE"), ("LICENSE".to_string(), "application/octet-stream"));
}

#[test]
fn files_and_missing_files() {
    let found = static_answer("/js/app.js", Some(vec![1, 0, 255]));
    assert_eq!(found.status, 200);
    assert_eq!(found.body, [1, 0, 255]);
    assert_eq!(found.mime, Some("application/javascript"));
    let start = static_answer("/", Some(Vec::new()));
    assert_eq!((start.status, start.mime), (200, Some("text/html")));
    assert!(start.body.is_empty());
    for path in ["/", "/nothing.png"] {
        let missing = static_answer(path, None);
        assert_eq!((missing.status, missing.mime), (404, None));
        assert!(missing.body.is_empty());
    }
}
