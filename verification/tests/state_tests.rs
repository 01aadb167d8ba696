use gj::state::{encode, list_from_contents, path_hash, state_dir, state_file_path, WorktreeState};

#[test]
fn test_path_hash() {
    let hash1 = path_hash("/path/to/worktree");
    let hash2 = path_hash("/path/to/worktree");
    let hash3 = path_hash("/different/path");

    assert_eq!(hash1, hash2);
    assert_ne!(hash1, hash3);
    assert_eq!(hash1.len(), 16); // 8 bytes = 16 hex chars
}

#[test]
fn test_worktree_state_new() {
    let state = WorktreeState::new(
        String::from("/worktree"),
        String::from("/origin"),
        String::from("feature-branch"),
        1_700_000_000,
    );

    assert_eq!(state.worktree_path, "/worktree");
    assert_eq!(state.origin_repo, "/origin");
    assert_eq!(state.branch, "feature-branch");
}

#[test]
fn hex_encoding_two_digits_per_byte() {
    assert_eq!(encode(&[]), "");
    assert_eq!(encode(&[0x00, 0xff, 0x1a]), "00ff1a");
}

#[test]
fn path_hash_is_the_known_digest_prefix() {
    // SHA-256 of the empty string starts with e3b0c44298fc1c14.
    assert_eq!(path_hash(""), "e3b0c44298fc1c14");
}

#[test]
fn state_paths_under_home() {
    assert_eq!(state_dir("/home/u"), "/home/u/.gj/state");
    let p = state_file_path("/home/u", "/path/to/worktree");
    assert!(p.starts_with("/home/u/.gj/state/"));
    assert!(p.ends_with(".json"));
    assert_eq!(p, format!("/home/u/.gj/state/{}.json", path_hash("/path/to/worktree")));
}

fn record_json(path: &str, branch: &str, ts: i64) -> String {
    let st = WorktreeState::new(
        String::from(path),
        String::from("/origin"),
        String::from(branch),
        ts,
    );
    gj::codec::state_to_json(&st)
}

#[test]
fn three_valid_records_and_one_corrupt_file() {
    // Enumeration skips the unreadable file silently and returns the three
    // valid records, newest first.
    let contents = vec![
        record_json("/w/a", "a", 100),
        String::from("{ not json at all"),
        record_json("/w/b", "b", 300),
        record_json("/w/c", "c", 200),
    ];
    let out = list_from_contents(&contents);
    assert_eq!(out.len(), 3);
    assert_eq!(out[0].worktree_path, "/w/b");
    assert_eq!(out[1].worktree_path, "/w/c");
    assert_eq!(out[2].worktree_path, "/w/a");
    assert_eq!(out[0].created_at, 300);
    assert_eq!(out[1].created_at, 200);
    assert_eq!(out[2].created_at, 100);
}

#[test]
fn enumerating_nothing_yields_nothing() {
    let out = list_from_contents(&vec![]);
    assert!(out.is_empty());
}

#[test]
fn equal_timestamps_keep_input_order() {
    let contents = vec![record_json("/w/a", "a", 100), record_json("/w/b", "b", 100)];
    let out = list_from_contents(&contents);
    assert_eq!(out.len(), 2);
    assert_eq!(out[0].worktree_path, "/w/a");
    assert_eq!(out[1].worktree_path, "/w/b");
}
