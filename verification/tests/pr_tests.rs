use gj::pr::pr_worktree_name;

#[test]
fn test_pr_worktree_name_single_digit() {
    assert_eq!(pr_worktree_name(1), "pr-1");
    assert_eq!(pr_worktree_name(9), "pr-9");
}

#[test]
fn test_pr_worktree_name_double_digit() {
    assert_eq!(pr_worktree_name(42), "pr-42");
    assert_eq!(pr_worktree_name(99), "pr-99");
}

#[test]
fn test_pr_worktree_name_large_number() {
    assert_eq!(pr_worktree_name(12345), "pr-12345");
    assert_eq!(pr_worktree_name(999999), "pr-999999");
}

#[test]
fn test_pr_worktree_name_zero() {
    // Edge case: PR #0 (unlikely but valid input)
    assert_eq!(pr_worktree_name(0), "pr-0");
}
