use gj::list::{format_relative_time, get_display_name, render_list};
use gj::state::WorktreeState;

#[test]
fn test_get_display_name() {
    let path = "/Users/test/.gj/my-repo/feature-branch";
    assert_eq!(get_display_name(path), "my-repo/feature-branch");
}

#[test]
fn test_format_relative_time() {
    let now: i64 = 1_700_000_000;

    let just_now = now;
    assert_eq!(format_relative_time(now, just_now), "just now");

    let five_mins_ago = now - 5 * 60;
    assert_eq!(format_relative_time(now, five_mins_ago), "5 minutes ago");

    let one_hour_ago = now - 3600;
    assert_eq!(format_relative_time(now, one_hour_ago), "1 hour ago");

    let two_days_ago = now - 2 * 86400;
    assert_eq!(format_relative_time(now, two_days_ago), "2 days ago");
}

#[test]
fn singular_and_plural_wording() {
    let now: i64 = 1_700_000_000;
    assert_eq!(format_relative_time(now, now - 86400), "1 day ago");
    assert_eq!(format_relative_time(now, now - 60), "1 minute ago");
    assert_eq!(format_relative_time(now, now - 2 * 3600), "2 hours ago");
    assert_eq!(format_relative_time(now, now - 59), "just now");
}

#[test]
fn empty_listing_reports_no_managed_worktrees() {
    let lines = render_list(&vec![], &vec![], 1_700_000_000);
    assert_eq!(lines, vec![String::from("No managed worktrees found.")]);
}

#[test]
fn listing_shows_name_branch_age_and_missing_marker() {
    let now: i64 = 1_700_000_000;
    let states = vec![
        WorktreeState::new(
            String::from("/x/repo/feat"),
            String::from("/o"),
            String::from("feat"),
            now - 300,
        ),
        WorktreeState::new(
            String::from("/x/repo/gone"),
            String::from("/o"),
            String::from("old"),
            now - 86400,
        ),
    ];
    let lines = render_list(&states, &vec![true, false], now);
    assert_eq!(lines.len(), 2);
    assert!(lines[0].starts_with("repo/feat"));
    assert!(lines[0].contains("feat"));
    assert!(lines[0].ends_with("5 minutes ago"));
    assert!(lines[1].ends_with("1 day ago (not found)"));
}
