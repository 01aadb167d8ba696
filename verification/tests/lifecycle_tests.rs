use gj::errors::GjError;
use gj::lifecycle::{
    CreateEvent, CreateFlow, CreateMode, ExitEvent, ExitFlow, VcsAction,
};
use gj::state::WorktreeState;

fn new_flow() -> CreateFlow {
    CreateFlow::start(
        CreateMode::NewBranch,
        String::from("/base/o/r/gj/20260101_x"),
        String::from("gj/20260101_x"),
        None,
        String::from("/home/u/dev/r"),
        1_700_000_000,
        String::from("gj/20260101_x"),
    )
}

fn exit_record() -> WorktreeState {
    WorktreeState::new(
        String::from("/base/o/r/gj/20260101_x"),
        String::from("/home/u/dev/r"),
        String::from("gj/20260101_x"),
        1_700_000_000,
    )
}

#[test]
fn existing_target_path_fails_without_any_backend_call() {
    let mut flow = new_flow();
    // The first and only request is the path probe.
    match flow.next_action() {
        Some(VcsAction::CheckPathExists { path }) => {
            assert_eq!(path, "/base/o/r/gj/20260101_x");
        }
        _ => panic!("expected the path probe"),
    }
    flow.step(CreateEvent::PathExists { exists: true });
    // No further action is requested: zero backend calls were made.
    assert!(flow.next_action().is_none());
    match flow.outcome() {
        Err(e) => {
            let msg = e.message();
            assert!(msg.contains("Worktree already exists at /base/o/r/gj/20260101_x"));
            assert!(msg.contains("gj cd gj/20260101_x"));
        }
        Ok(_) => panic!("expected the already-exists failure"),
    }
}

#[test]
fn failing_hook_still_reports_the_worktree_path() {
    let mut flow = new_flow();
    assert!(matches!(flow.next_action(), Some(VcsAction::CheckPathExists { .. })));
    flow.step(CreateEvent::PathExists { exists: false });
    assert!(matches!(flow.next_action(), Some(VcsAction::AddWorktreeNewBranch { .. })));
    flow.step(CreateEvent::ActionOk);
    match flow.next_action() {
        Some(VcsAction::SaveState { record }) => {
            assert_eq!(record.worktree_path, "/base/o/r/gj/20260101_x");
            assert_eq!(record.origin_repo, "/home/u/dev/r");
            assert_eq!(record.branch, "gj/20260101_x");
        }
        _ => panic!("expected the record save"),
    }
    flow.step(CreateEvent::ActionOk);
    assert!(matches!(flow.next_action(), Some(VcsAction::RunHooks)));
    // The hook pipeline fails: the worktree and its record stay, the flow
    // finishes successfully with a warning.
    flow.step(CreateEvent::HooksFinished {
        failure: Some(GjError::HookCommandFailed { command: String::from("false") }),
    });
    assert!(flow.next_action().is_none());
    match flow.outcome() {
        Ok((path, warning)) => {
            assert_eq!(path, "/base/o/r/gj/20260101_x");
            let w = warning.expect("the hook failure is reported as a warning");
            assert!(w.message().contains("Hook command failed: false"));
        }
        Err(_) => panic!("a hook failure must not fail the create"),
    }
}

#[test]
fn checkout_flow_fetches_then_checks_then_attaches() {
    let mut flow = CreateFlow::start(
        CreateMode::AtRef,
        String::from("/base/r/feature-foo"),
        String::from("feature/foo"),
        Some(String::from("origin/feature/foo")),
        String::from("/home/u/dev/r"),
        1_700_000_000,
        String::from("feature-foo"),
    );
    match flow.next_action() {
        Some(VcsAction::Fetch { refname }) => assert_eq!(refname, "origin/feature/foo"),
        _ => panic!("expected the fetch"),
    }
    flow.step(CreateEvent::ActionOk);
    assert!(matches!(flow.next_action(), Some(VcsAction::CheckPathExists { .. })));
    flow.step(CreateEvent::PathExists { exists: false });
    match flow.next_action() {
        Some(VcsAction::AddWorktreeAtRef { path, refname }) => {
            assert_eq!(path, "/base/r/feature-foo");
            assert_eq!(refname, "origin/feature/foo");
        }
        _ => panic!("expected the attach"),
    }
}

#[test]
fn pr_flow_sets_upstream_after_attaching() {
    let mut flow = CreateFlow::start(
        CreateMode::WithBranch,
        String::from("/base/o/r/pr-42"),
        String::from("fix-thing"),
        Some(String::from("origin/fix-thing")),
        String::from("/home/u/dev/r"),
        1_700_000_000,
        String::from("pr-42"),
    );
    assert!(matches!(flow.next_action(), Some(VcsAction::CheckPathExists { .. })));
    flow.step(CreateEvent::PathExists { exists: false });
    assert!(matches!(flow.next_action(), Some(VcsAction::Fetch { .. })));
    flow.step(CreateEvent::ActionOk);
    assert!(matches!(flow.next_action(), Some(VcsAction::AddWorktreeWithBranch { .. })));
    flow.step(CreateEvent::ActionOk);
    match flow.next_action() {
        Some(VcsAction::SetUpstream { path, branch, upstream }) => {
            assert_eq!(path, "/base/o/r/pr-42");
            assert_eq!(branch, "fix-thing");
            assert_eq!(upstream, "origin/fix-thing");
        }
        _ => panic!("expected the upstream step"),
    }
}

#[test]
fn merge_conflict_leaves_worktree_branch_and_record_untouched() {
    let mut flow = ExitFlow::start(Some(exit_record()), false, true);
    assert!(matches!(flow.next_action(), Some(VcsAction::QueryUncommitted)));
    flow.step(ExitEvent::DirtyStatus { dirty: false });
    assert!(matches!(flow.next_action(), Some(VcsAction::QueryDefaultBranch { .. })));
    flow.step(ExitEvent::DefaultBranch { name: String::from("main") });
    match flow.next_action() {
        Some(VcsAction::FindWorktreeForBranch { branch, repo }) => {
            assert_eq!(branch, "main");
            assert_eq!(repo, "/home/u/dev/r");
        }
        _ => panic!("expected the worktree lookup"),
    }
    flow.step(ExitEvent::TargetFound { path: Some(String::from("/home/u/dev/r")) });
    match flow.next_action() {
        Some(VcsAction::Merge { branch, workdir }) => {
            assert_eq!(branch, "gj/20260101_x");
            assert_eq!(workdir, "/home/u/dev/r");
        }
        _ => panic!("expected the merge"),
    }
    flow.step(ExitEvent::MergeOutcome {
        conflict: true,
        detail: String::from("CONFLICT (content): README.md"),
    });
    // The only remaining request is the merge abort.
    match flow.next_action() {
        Some(VcsAction::AbortMerge { workdir }) => assert_eq!(workdir, "/home/u/dev/r"),
        Some(_) => panic!("only the merge abort may be requested after a conflict"),
        None => panic!("expected the abort"),
    }
    flow.step(ExitEvent::ActionOk);
    assert!(flow.next_action().is_none());
    match flow.outcome() {
        Err(e) => {
            let msg = e.message();
            assert!(msg.contains("Merge failed. Conflict detected. Aborting merge."));
            assert!(msg.contains("CONFLICT (content): README.md"));
        }
        Ok(_) => panic!("a conflicted merge must fail"),
    }
}

#[test]
fn successful_merge_then_forced_removal_and_cleanup() {
    let mut flow = ExitFlow::start(Some(exit_record()), false, true);
    flow.step(ExitEvent::DirtyStatus { dirty: false });
    flow.step(ExitEvent::DefaultBranch { name: String::from("main") });
    flow.step(ExitEvent::TargetFound { path: Some(String::from("/home/u/dev/r")) });
    flow.step(ExitEvent::MergeOutcome { conflict: false, detail: String::new() });
    match flow.next_action() {
        Some(VcsAction::RemoveWorktree { path, force, repo }) => {
            assert_eq!(path, "/base/o/r/gj/20260101_x");
            assert!(force, "a completed merge forces the removal");
            assert_eq!(repo, "/home/u/dev/r");
        }
        _ => panic!("expected the removal"),
    }
    flow.step(ExitEvent::ActionOk);
    match flow.next_action() {
        Some(VcsAction::DeleteBranch { branch, force, .. }) => {
            assert_eq!(branch, "gj/20260101_x");
            assert!(force);
        }
        _ => panic!("expected the branch deletion"),
    }
    // Branch deletion failing is not fatal.
    flow.step(ExitEvent::ActionFailed { detail: String::from("branch is checked out") });
    assert!(matches!(flow.next_action(), Some(VcsAction::DeleteStateRecord { .. })));
    flow.step(ExitEvent::ActionOk);
    match flow.outcome() {
        Ok(target) => assert_eq!(target, "/home/u/dev/r"),
        Err(_) => panic!("expected a successful teardown"),
    }
}

#[test]
fn dirty_worktree_blocks_merge_and_plain_exit() {
    let mut flow = ExitFlow::start(Some(exit_record()), false, true);
    flow.step(ExitEvent::DirtyStatus { dirty: true });
    match flow.outcome() {
        Err(e) => assert!(e.message().contains("before using --merge")),
        Ok(_) => panic!("expected the dirty failure"),
    }

    let mut flow = ExitFlow::start(Some(exit_record()), false, false);
    flow.step(ExitEvent::DirtyStatus { dirty: true });
    match flow.outcome() {
        Err(e) => assert!(e.message().contains("Use --force to discard them")),
        Ok(_) => panic!("expected the dirty failure"),
    }

    // --force skips the check's veto.
    let mut flow = ExitFlow::start(Some(exit_record()), true, false);
    flow.step(ExitEvent::DirtyStatus { dirty: true });
    assert!(matches!(flow.next_action(), Some(VcsAction::RemoveWorktree { .. })));
}

#[test]
fn exit_outside_a_managed_worktree_fails_at_once() {
    let flow = ExitFlow::start(None, false, false);
    assert!(flow.next_action().is_none());
    match flow.outcome() {
        Err(e) => assert!(e.message().contains("Not in a gj-managed worktree")),
        Ok(_) => panic!("expected the not-in-worktree failure"),
    }
}
