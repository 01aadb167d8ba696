use gj::errors::GjError;

#[test]
fn error_messages_are_the_documented_texts() {
    let e = GjError::NoMatch { name: String::from("foo") };
    assert_eq!(e.message(), "No worktree found matching 'foo'");

    let e = GjError::WorktreeGone { path: String::from("/w") };
    assert_eq!(e.message(), "Worktree no longer exists at /w");

    let e = GjError::Ambiguous { name: String::from("x"), candidates: vec![] };
    assert_eq!(e.message(), "Ambiguous worktree name");

    let e = GjError::DefaultBranchNotCheckedOut { branch: String::from("main") };
    assert_eq!(e.message(), "Default branch 'main' is not checked out in any worktree");

    let e = GjError::UnsupportedShell { shell: String::from("fish") };
    assert_eq!(e.message(), "Unsupported shell: fish. Supported shells: zsh, bash");

    let e = GjError::NoWorktrees;
    assert_eq!(e.message(), "No managed worktrees found. Create one with `gj new` or `gj pr`.");

    let e = GjError::NoExistingWorktrees;
    assert_eq!(e.message(), "No existing worktrees found.");

    let e = GjError::Backend { detail: String::from("boom") };
    assert_eq!(e.message(), "boom");
}
