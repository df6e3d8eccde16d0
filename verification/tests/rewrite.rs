use zoraxy_plugin::rewrite::{
    normalize_capture_path, normalize_ingress, normalize_prefix, rewrite_capture_path,
    strip_prefix,
};

#[test]
fn capture_rewrites_path() {
    let rewritten = rewrite_capture_path("/d_capture/", "/d_capture/some/path", Some("query=1"));
    assert_eq!(rewritten.unwrap(), "/some/path?query=1");
}

#[test]
fn capture_rewrite_collapses_slash_runs() {
    let rewritten = rewrite_capture_path("/d_capture/", "/d_capture/some//path", Some("q=1"));
    assert_eq!(rewritten.unwrap(), "/some/path?q=1");
}

#[test]
fn capture_rewrite_outside_ingress_is_left_alone() {
    let rewritten = rewrite_capture_path("/d_capture/", "/other/path", None);
    assert!(rewritten.is_none());
}

#[test]
fn capture_rewrite_of_bare_ingress_is_root() {
    let rewritten = rewrite_capture_path("/d_capture/", "/d_capture/", None);
    assert_eq!(rewritten.unwrap(), "/");
}

#[test]
fn normalize_ingress_adds_both_slashes() {
    assert_eq!(normalize_ingress("d_capture"), "/d_capture/");
    assert_eq!(normalize_ingress("/d_capture"), "/d_capture/");
    assert_eq!(normalize_ingress("/d_capture/"), "/d_capture/");
    assert_eq!(normalize_ingress("  /d_capture  "), "/d_capture/");
    assert_eq!(normalize_ingress(""), "/");
}

#[test]
fn normalize_prefix_strips_trailing_slashes() {
    assert_eq!(normalize_prefix("/ui/"), "/ui");
    assert_eq!(normalize_prefix("ui"), "/ui");
    assert_eq!(normalize_prefix("/"), "/");
    assert_eq!(normalize_prefix(""), "/");
    assert_eq!(normalize_prefix("///"), "/");
}

#[test]
fn normalize_capture_path_drops_one_trailing_slash() {
    assert_eq!(normalize_capture_path("/test_a/"), "/test_a");
    assert_eq!(normalize_capture_path("/test_a"), "/test_a");
    assert_eq!(normalize_capture_path("/"), "/");
}

#[test]
fn strip_prefix_cases() {
    assert_eq!(strip_prefix("/", "/anything").unwrap(), "/anything");
    assert_eq!(strip_prefix("/ui", "/ui").unwrap(), "/");
    assert_eq!(strip_prefix("/ui", "/ui/page").unwrap(), "/page");
    assert!(strip_prefix("/ui", "/uix").is_none());
    assert!(strip_prefix("/ui", "/other").is_none());
}
