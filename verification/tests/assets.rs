use dbt_docs_server::assets::{asset_response, normalize_path, serve_asset};

#[test]
fn normalize_handles_root_and_bare_paths() {
    assert_eq!(normalize_path("/"), "index.html");
    assert_eq!(normalize_path(""), "index.html");
    assert_eq!(normalize_path("/assets/x.js"), "assets/x.js");
    assert_eq!(normalize_path("favicon.ico"), "favicon.ico");
}

#[test]
fn normalizing_twice_changes_nothing() {
    for path in ["", "///", "//a//b/", "x/", "\u{e9}.svg"] {
        let once = normalize_path(path);
        assert!(!once.is_empty() && !once.starts_with('/'));
        assert_eq!(normalize_path(&once), once);
    }
}

#[test]
fn media_type_follows_the_extension() {
    let reply = asset_response("assets/app.css", vec![1, 2], None);
    assert_eq!(reply.status, 200);
    assert_eq!(reply.content_type, "text/css");
    assert_eq!(reply.body, vec![1, 2]);
    assert_eq!(
        asset_response("data", vec![], None).content_type,
        "application/octet-stream"
    );
    assert_eq!(
        asset_response("a.css", vec![], Some("text/plain")).content_type,
        "text/plain"
    );
}

#[test]
fn a_missing_file_gets_the_start_page() {
    let found = serve_asset("a.css", Some(vec![1]), Some(vec![2])).unwrap();
    assert_eq!(found.body, vec![1]);
    assert_eq!(found.content_type, "text/css");
    let start = serve_asset("a.css", None, Some(vec![2])).unwrap();
    assert_eq!(start.body, vec![2]);
    assert_eq!(start.content_type, "text/html");
    assert_eq!(
        serve_asset("a.css", None, None).unwrap_err(),
        "dbt docs SPA bundle is empty"
    );
}
