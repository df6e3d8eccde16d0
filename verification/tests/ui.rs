use zoraxy_plugin::embed_webserver::{
    candidate_paths, is_html_path, render_html, sanitize_virtual_path, PluginUiRouter,
};

fn hello_assets() -> Vec<(String, Vec<u8>)> {
    vec![
        (
            "index.html".to_string(),
            b"<html><body>Hello World</body></html>".to_vec(),
        ),
        ("style.css".to_string(), b"body { color: red; }".to_vec()),
        (
            "admin/index.html".to_string(),
            b"<p>{{.csrfToken}}</p>".to_vec(),
        ),
    ]
}

#[test]
fn serves_index_html() {
    let router = PluginUiRouter::new(hello_assets(), "/");
    let response = router.serve_request("GET", "/", None);
    assert_eq!(response.status, 200);
    assert!(response
        .body
        .windows(11)
        .any(|window| window == b"Hello World"));
}

#[test]
fn returns_404_for_missing_asset() {
    let router = PluginUiRouter::new(hello_assets(), "/");
    let response = router.serve_request("GET", "/does-not-exist.js", None);
    assert_eq!(response.status, 404);
}

#[test]
fn not_found_body_names_the_path() {
    let router = PluginUiRouter::new(hello_assets(), "/");
    let response = router.serve_request("GET", "/missing", None);
    assert_eq!(response.status, 404);
    assert_eq!(response.body, b"/missing not found".to_vec());
}

#[test]
fn serves_under_prefix() {
    let router = PluginUiRouter::new(hello_assets(), "/ui/");
    assert_eq!(router.handler_prefix(), "/ui");
    let response = router.serve_request("GET", "/ui/style.css", None);
    assert_eq!(response.status, 200);
    assert_eq!(response.body, b"body { color: red; }".to_vec());
    let outside = router.serve_request("GET", "/style.css", None);
    assert_eq!(outside.status, 404);
}

#[test]
fn substitutes_csrf_token_in_html() {
    let router = PluginUiRouter::new(hello_assets(), "/");
    let response = router.serve_request("GET", "/admin/", Some("tok123"));
    assert_eq!(response.status, 200);
    assert_eq!(response.body, b"<p>tok123</p>".to_vec());
}

#[test]
fn missing_csrf_header_uses_stand_in() {
    let router = PluginUiRouter::new(hello_assets(), "/");
    let response = router.serve_request("GET", "/admin/", None);
    assert_eq!(response.body, b"<p>missing-csrf-token</p>".to_vec());
}

#[test]
fn css_is_served_verbatim_with_css_type() {
    let router = PluginUiRouter::new(hello_assets(), "/");
    let response = router.serve_request("GET", "/style.css", Some("tok"));
    assert_eq!(response.status, 200);
    let ct = response.content_type.unwrap();
    assert!(ct.starts_with("text/css"), "content type was {ct}");
}

#[test]
fn html_gets_html_content_type() {
    let router = PluginUiRouter::new(hello_assets(), "/");
    let response = router.serve_request("GET", "/", None);
    let ct = response.content_type.unwrap();
    assert!(ct.starts_with("text/html"), "content type was {ct}");
}

#[test]
fn head_request_has_empty_body_and_full_length() {
    let router = PluginUiRouter::new(hello_assets(), "/");
    let get = router.serve_request("GET", "/style.css", None);
    let head = router.serve_request("HEAD", "/style.css", None);
    assert_eq!(head.status, 200);
    assert!(head.body.is_empty());
    assert_eq!(head.content_length, get.body.len());
}

#[test]
fn sanitize_rejects_parent_dir() {
    assert!(sanitize_virtual_path("../secret").is_none());
    assert!(sanitize_virtual_path("a/../b").is_none());
}

#[test]
fn sanitize_drops_empty_and_current_dir_segments() {
    assert_eq!(sanitize_virtual_path("a/./b//c").unwrap(), "a/b/c");
    assert_eq!(sanitize_virtual_path("").unwrap(), "");
    assert_eq!(sanitize_virtual_path(".").unwrap(), "");
}

#[test]
fn candidate_paths_cases() {
    let empty = candidate_paths("");
    assert_eq!(empty, vec!["index.html".to_string()]);
    let nonempty = candidate_paths("docs/page");
    assert_eq!(
        nonempty,
        vec!["docs/page".to_string(), "docs/page/index.html".to_string()]
    );
}

#[test]
fn html_extension_is_detected_case_insensitively() {
    assert!(is_html_path("index.html"));
    assert!(is_html_path("a/b/Page.HTML"));
    assert!(!is_html_path("style.css"));
    assert!(!is_html_path("noextension"));
    assert!(!is_html_path(".html"));
}

#[test]
fn render_html_replaces_every_occurrence() {
    let body = b"a {{.csrfToken}} b {{.csrfToken}} c";
    let out = render_html(body, "T");
    assert_eq!(out, b"a T b T c".to_vec());
}

#[test]
fn render_html_without_placeholder_is_identity() {
    let body = b"plain text";
    let out = render_html(body, "T");
    assert_eq!(out, body.to_vec());
}
