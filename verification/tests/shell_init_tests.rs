use gj::shell_init::{bash_init_script, run, zsh_init_script};

#[test]
fn test_zsh_init_script_contains_function_definition() {
    let script = zsh_init_script();
    assert!(script.contains("function gj()"));
}

#[test]
fn test_zsh_init_script_contains_cd_logic() {
    let script = zsh_init_script();
    assert!(script.contains("cd \"$output\""));
}

#[test]
fn test_bash_init_script_contains_function_definition() {
    let script = bash_init_script();
    assert!(script.contains("function gj()"));
}

#[test]
fn test_bash_init_script_contains_exit_code_handling() {
    let script = bash_init_script();
    assert!(script.contains("exit_code"));
    assert!(script.contains("return $exit_code"));
}

#[test]
fn test_zsh_and_bash_scripts_are_identical() {
    // Both shells use the same script
    assert_eq!(zsh_init_script(), bash_init_script());
}

#[test]
fn test_run_with_unsupported_shell_returns_error() {
    let result = run("fish");
    assert!(result.is_err());
    let err = result.err().map(|e| e.message()).unwrap_or_default();
    assert!(err.contains("Unsupported shell"));
    assert!(err.contains("fish"));
}

#[test]
fn run_returns_the_script_for_supported_shells() {
    assert_eq!(run("zsh").ok().as_deref(), Some(zsh_init_script()));
    assert_eq!(run("bash").ok().as_deref(), Some(bash_init_script()));
}
