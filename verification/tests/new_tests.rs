use gj::new::{compose_branch_name, generate_random_name, join_path, sanitize_name, suffix_from_input};

#[test]
fn test_sanitize_name() {
    assert_eq!(sanitize_name("feature"), "feature");
    assert_eq!(sanitize_name("my-feature"), "my-feature");
    assert_eq!(sanitize_name("my_feature"), "my_feature");
    assert_eq!(sanitize_name("my feature"), "my-feature");
    assert_eq!(sanitize_name("my/feature"), "my-feature");
    assert_eq!(sanitize_name("feature123"), "feature123");
}

#[test]
fn test_generate_random_name() {
    let name = generate_random_name();
    // Should contain exactly one hyphen (two words separated by hyphen)
    assert_eq!(
        name.matches('-').count(),
        1,
        "Expected format: word-word, got: {}",
        name
    );
    // Should not be empty
    assert!(!name.is_empty());
    // Should only contain lowercase letters and hyphens
    assert!(name.chars().all(|c| c.is_ascii_lowercase() || c == '-'));
}

#[test]
fn sanitize_output_holds_only_allowed_characters() {
    // Whatever comes in, only alphanumerics, '-' and '_' come out.
    let nasty = "spaces and/slashes\\and\"quotes!#€ünïcode_ok-42";
    let out = sanitize_name(nasty);
    assert_eq!(out.chars().count(), nasty.chars().count());
    assert!(out.chars().all(|c| c.is_alphanumeric() || c == '-' || c == '_'));
}

#[test]
fn branch_name_composition() {
    assert_eq!(
        compose_branch_name("gj", "20260205", "hello"),
        "gj/20260205_hello"
    );
}

#[test]
fn path_joining() {
    assert_eq!(join_path("/base", "leaf"), "/base/leaf");
}

#[test]
fn blank_input_falls_back_to_a_random_suffix() {
    let s = suffix_from_input("   ");
    assert_eq!(s.matches('-').count(), 1);
    assert!(s.chars().all(|c| c.is_ascii_lowercase() || c == '-'));
}

#[test]
fn typed_input_is_trimmed_and_sanitized() {
    assert_eq!(suffix_from_input("  my feature  "), "my-feature");
    assert_eq!(suffix_from_input("ok-name"), "ok-name");
}
