use gj::checkout::{parse_branch_name, sanitize_branch_for_path};

#[test]
fn test_parse_branch_name_with_origin_prefix() {
    assert_eq!(parse_branch_name("origin/main"), "main");
    assert_eq!(parse_branch_name("origin/feature/foo"), "feature/foo");
}

#[test]
fn test_parse_branch_name_without_prefix() {
    assert_eq!(parse_branch_name("main"), "main");
    assert_eq!(parse_branch_name("feature/bar"), "feature/bar");
}

#[test]
fn test_parse_branch_name_empty() {
    assert_eq!(parse_branch_name(""), "");
}

#[test]
fn test_parse_branch_name_only_origin_slash() {
    // "origin/" should become empty string
    assert_eq!(parse_branch_name("origin/"), "");
}

#[test]
fn test_sanitize_branch_for_path_with_slashes() {
    assert_eq!(sanitize_branch_for_path("feature/foo"), "feature-foo");
    assert_eq!(
        sanitize_branch_for_path("feature/nested/deep"),
        "feature-nested-deep"
    );
}

#[test]
fn test_sanitize_branch_for_path_no_slashes() {
    assert_eq!(sanitize_branch_for_path("main"), "main");
    assert_eq!(sanitize_branch_for_path("develop"), "develop");
}

#[test]
fn test_sanitize_branch_for_path_empty() {
    assert_eq!(sanitize_branch_for_path(""), "");
}

#[test]
fn test_sanitize_branch_for_path_only_slashes() {
    assert_eq!(sanitize_branch_for_path("/"), "-");
    assert_eq!(sanitize_branch_for_path("//"), "--");
}
