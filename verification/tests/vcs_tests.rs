use gj::vcs::{default_branch_of_ref, find_worktree_in_listing, pr_branch_from_output};

#[test]
fn listing_maps_branch_to_its_worktree() {
    let listing = "worktree /home/u/dev/r\nHEAD 0123\nbranch refs/heads/main\n\nworktree /base/r/feat\nHEAD 4567\nbranch refs/heads/feature/foo\n";
    assert_eq!(
        find_worktree_in_listing(listing, "main"),
        Some(String::from("/home/u/dev/r"))
    );
    assert_eq!(
        find_worktree_in_listing(listing, "feature/foo"),
        Some(String::from("/base/r/feat"))
    );
    assert_eq!(find_worktree_in_listing(listing, "absent"), None);
}

#[test]
fn listing_without_entries_finds_nothing() {
    assert_eq!(find_worktree_in_listing("", "main"), None);
    // A detached worktree has no branch line.
    let detached = "worktree /w\nHEAD 0123\ndetached\n";
    assert_eq!(find_worktree_in_listing(detached, "main"), None);
}

#[test]
fn default_branch_comes_from_the_symbolic_ref() {
    assert_eq!(
        default_branch_of_ref("refs/remotes/origin/main"),
        Some(String::from("main"))
    );
    assert_eq!(
        default_branch_of_ref("refs/remotes/origin/dev/next"),
        Some(String::from("dev/next"))
    );
    assert_eq!(default_branch_of_ref("refs/heads/main"), None);
}

#[test]
fn pr_branch_answer_is_trimmed_and_must_be_nonempty() {
    assert_eq!(
        pr_branch_from_output(42, "fix-thing\n").ok(),
        Some(String::from("fix-thing"))
    );
    let err = pr_branch_from_output(42, "  \n").err().map(|e| e.message());
    assert_eq!(
        err.as_deref(),
        Some("PR #42 not found or has no branch")
    );
}
