use gj::codec::{parse_state_json, state_to_json};
use gj::state::WorktreeState;

fn record(path: &str, origin: &str, branch: &str, ts: i64) -> WorktreeState {
    WorktreeState::new(
        String::from(path),
        String::from(origin),
        String::from(branch),
        ts,
    )
}

#[test]
fn serialized_form_is_the_documented_object() {
    let st = record("/w", "/o", "main", 0);
    assert_eq!(
        state_to_json(&st),
        "{\"worktree_path\":\"/w\",\"origin_repo\":\"/o\",\"branch\":\"main\",\"created_at\":\"1970-01-01T00:00:00Z\"}"
    );
}

#[test]
fn save_then_load_restores_all_four_fields() {
    let st = record("/home/u/.gj/worktrees/o/r/gj/x", "/home/u/dev/r", "gj/20260101_x", 1_760_000_000);
    let text = state_to_json(&st);
    let back = parse_state_json(&text).expect("canonical text must parse");
    assert_eq!(back.worktree_path, st.worktree_path);
    assert_eq!(back.origin_repo, st.origin_repo);
    assert_eq!(back.branch, st.branch);
    assert_eq!(back.created_at, st.created_at);
}

#[test]
fn round_trip_survives_characters_that_need_escaping() {
    let st = record("/w\"ith\\quotes", "/o\nnewline", "bra\tnch\r", 42);
    let text = state_to_json(&st);
    let back = parse_state_json(&text).expect("escaped text must parse");
    assert_eq!(back.worktree_path, st.worktree_path);
    assert_eq!(back.origin_repo, st.origin_repo);
    assert_eq!(back.branch, st.branch);
    assert_eq!(back.created_at, st.created_at);
}

#[test]
fn whitespace_between_tokens_is_accepted() {
    let text = "  {\n  \"worktree_path\" : \"/w\" ,\n  \"origin_repo\" : \"/o\" ,\n  \"branch\" : \"b\" ,\n  \"created_at\" : \"1970-01-01T00:00:10Z\"\n}  ";
    let back = parse_state_json(text).expect("whitespace variant must parse");
    assert_eq!(back.worktree_path, "/w");
    assert_eq!(back.origin_repo, "/o");
    assert_eq!(back.branch, "b");
    assert_eq!(back.created_at, 10);
}

#[test]
fn corrupt_texts_are_rejected() {
    assert!(parse_state_json("").is_none());
    assert!(parse_state_json("{}").is_none());
    assert!(parse_state_json("not json").is_none());
    assert!(parse_state_json("{\"worktree_path\":\"/w\"}").is_none());
    let bad_date = "{\"worktree_path\":\"/w\",\"origin_repo\":\"/o\",\"branch\":\"b\",\"created_at\":\"yesterday\"}";
    assert!(parse_state_json(bad_date).is_none());
}

#[test]
fn timestamps_format_and_parse_as_iso_8601() {
    assert_eq!(gj::timefmt::format_timestamp(0), "1970-01-01T00:00:00Z");
    assert_eq!(gj::timefmt::format_timestamp(86400), "1970-01-02T00:00:00Z");
    assert_eq!(gj::timefmt::parse_timestamp("1970-01-01T00:00:00Z"), Some(0));
    assert_eq!(gj::timefmt::parse_timestamp("not a date"), None);
}
