use gj::config::Hook;
use gj::errors::GjError;
use gj::hooks::{HookAction, HookEvent, HookPipeline};

fn copy_hook(from: &str, to: Option<&str>, required: bool) -> Hook {
    Hook::Copy {
        from: String::from(from),
        to: to.map(String::from),
        required,
    }
}

fn run_hook(command: &str) -> Hook {
    Hook::Run { command: String::from(command) }
}

#[test]
fn copy_hook_resolves_source_and_destination() {
    let hooks = vec![copy_hook(".env", None, false)];
    let p = HookPipeline::start(&hooks, "/origin", "/worktree");
    match p.current_action() {
        Some(HookAction::CopyFile { source, dest, required }) => {
            assert_eq!(source, "/origin/.env");
            assert_eq!(dest, "/worktree/.env");
            assert!(!required);
        }
        _ => panic!("expected a copy action"),
    }
}

#[test]
fn copy_hook_rename_changes_only_the_destination() {
    let hooks = vec![copy_hook(".env.local", Some(".env"), false)];
    let p = HookPipeline::start(&hooks, "/origin", "/worktree");
    match p.current_action() {
        Some(HookAction::CopyFile { source, dest, .. }) => {
            assert_eq!(source, "/origin/.env.local");
            assert_eq!(dest, "/worktree/.env");
        }
        _ => panic!("expected a copy action"),
    }
}

#[test]
fn missing_optional_source_is_skipped_silently() {
    let hooks = vec![copy_hook(".nonexistent", None, false), run_hook("echo hi")];
    let mut p = HookPipeline::start(&hooks, "/o", "/w");
    p.report(HookEvent::SourceMissing);
    // The pipeline moved on to the run hook.
    assert!(matches!(p.current_action(), Some(HookAction::RunCommand { .. })));
    p.report(HookEvent::Succeeded);
    assert!(p.current_action().is_none());
    assert!(p.outcome().is_none());
}

#[test]
fn missing_required_source_aborts_the_pipeline() {
    let hooks = vec![copy_hook(".nonexistent", None, true), run_hook("echo hi")];
    let mut p = HookPipeline::start(&hooks, "/o", "/w");
    p.report(HookEvent::SourceMissing);
    // Nothing further runs; the outcome is the required-file error.
    assert!(p.current_action().is_none());
    match p.outcome() {
        Some(e) => {
            let msg = e.message();
            assert!(msg.contains("Required file not found: /o/.nonexistent"));
        }
        None => panic!("expected a failure"),
    }
}

#[test]
fn failing_command_aborts_remaining_hooks() {
    let hooks = vec![run_hook("false"), run_hook("echo never")];
    let mut p = HookPipeline::start(&hooks, "/o", "/w");
    match p.current_action() {
        Some(HookAction::RunCommand { command, workdir }) => {
            assert_eq!(command, "false");
            assert_eq!(workdir, "/w");
        }
        _ => panic!("expected a run action"),
    }
    p.report(HookEvent::CommandFailed);
    assert!(p.current_action().is_none());
    match p.outcome() {
        Some(GjError::HookCommandFailed { command }) => assert_eq!(command, "false"),
        _ => panic!("expected the command failure"),
    }
}

#[test]
fn hooks_run_strictly_in_order() {
    let hooks = vec![run_hook("one"), run_hook("two"), run_hook("three")];
    let mut p = HookPipeline::start(&hooks, "/o", "/w");
    let mut seen: Vec<String> = Vec::new();
    loop {
        let cmd = match p.current_action() {
            Some(HookAction::RunCommand { command, .. }) => command.clone(),
            Some(_) => panic!("expected run actions only"),
            None => break,
        };
        seen.push(cmd);
        p.report(HookEvent::Succeeded);
    }
    assert_eq!(seen, vec!["one", "two", "three"]);
    assert!(p.outcome().is_none());
}
