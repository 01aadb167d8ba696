use gj::cd::{get_display_name, resolve_cd_target, CdResolution};
use gj::state::WorktreeState;

fn record(path: &str, branch: &str, ts: i64) -> WorktreeState {
    WorktreeState::new(
        String::from(path),
        String::from("/origin"),
        String::from(branch),
        ts,
    )
}

#[test]
fn test_get_display_name_with_worktrees() {
    let path = "/Users/test/.gj/worktrees/mirakui/my_repo/gj/20260205_hello";
    assert_eq!(get_display_name(path), "mirakui/my_repo/gj/20260205_hello");
}

#[test]
fn test_get_display_name_with_pr() {
    let path = "/Users/test/.gj/worktrees/mirakui/my_repo/pr-123";
    assert_eq!(get_display_name(path), "mirakui/my_repo/pr-123");
}

#[test]
fn test_get_display_name_fallback() {
    // Without "worktrees/" in path, falls back to last 2 components
    let path = "/a/b";
    assert_eq!(get_display_name(path), "a/b");
}

#[test]
fn resolve_reports_both_ambiguous_candidates() {
    // Two worktrees whose display names both end in "/app": the resolution
    // must name both and refuse to pick one.
    let states = vec![
        record("/home/u/.gj/worktrees/alice/app", "main", 100),
        record("/home/u/.gj/worktrees/bob/app", "main", 200),
        record("/home/u/.gj/worktrees/bob/other", "main", 300),
    ];
    match resolve_cd_target(&states, "app") {
        CdResolution::Ambiguous { indices } => {
            assert_eq!(indices, vec![0, 1]);
        }
        _ => panic!("expected an ambiguous resolution"),
    }
}

#[test]
fn resolve_unique_match_returns_its_path() {
    let states = vec![
        record("/home/u/.gj/worktrees/alice/app", "main", 100),
        record("/home/u/.gj/worktrees/bob/other", "dev", 200),
    ];
    match resolve_cd_target(&states, "other") {
        CdResolution::Unique { index } => {
            assert_eq!(index, 1);
            assert_eq!(states[index].worktree_path, "/home/u/.gj/worktrees/bob/other");
        }
        _ => panic!("expected a unique resolution"),
    }
}

#[test]
fn resolve_no_match_fails() {
    let states = vec![record("/home/u/.gj/worktrees/alice/app", "main", 100)];
    assert!(matches!(
        resolve_cd_target(&states, "missing"),
        CdResolution::NoMatch
    ));
}

#[test]
fn resolve_matches_last_segment_and_display_name() {
    let states = vec![record("/home/u/.gj/worktrees/alice/app", "main", 100)];
    // last path segment
    assert!(matches!(
        resolve_cd_target(&states, "app"),
        CdResolution::Unique { index: 0 }
    ));
    // full display name
    assert!(matches!(
        resolve_cd_target(&states, "alice/app"),
        CdResolution::Unique { index: 0 }
    ));
}

#[test]
fn selection_options_show_display_name_and_branch() {
    let states = vec![record("/home/u/.gj/worktrees/alice/app", "main", 100)];
    let options = gj::cd::selection_options(&states);
    assert_eq!(options, vec![String::from("alice/app (main)")]);
}

#[test]
fn existing_indices_keep_only_set_flags() {
    let flags = vec![true, false, true];
    assert_eq!(gj::cd::existing_indices(&flags), vec![0, 2]);
}
