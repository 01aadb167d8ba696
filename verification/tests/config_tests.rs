use gj::config::{expand_tilde, Config, DefaultConfig, Hook, HooksConfig, RepoConfig, RepoEntry};

fn repo(path: &str, base_dir: Option<&str>, prefix: Option<&str>, hooks: Vec<Hook>) -> RepoConfig {
    RepoConfig {
        path: String::from(path),
        base_dir: base_dir.map(String::from),
        prefix: prefix.map(String::from),
        hooks: HooksConfig { post_create: hooks },
    }
}

#[test]
fn test_config_default() {
    let config = Config::default();
    assert!(config.repos.is_empty());
    assert!(config.default.base_dir.is_none());
    assert!(config.default.prefix.is_none());
}

#[test]
fn prefix_precedence_repo_over_default_over_fallback() {
    let config = Config {
        default: DefaultConfig {
            base_dir: None,
            prefix: Some(String::from("default-prefix")),
            hooks: HooksConfig { post_create: vec![] },
        },
        repos: vec![],
    };
    let with_prefix = repo("/path/with", None, Some("custom"), vec![]);
    let without_prefix = repo("/path/without", None, None, vec![]);

    assert_eq!(config.get_prefix(Some(&with_prefix)), "custom");
    assert_eq!(config.get_prefix(Some(&without_prefix)), "default-prefix");
    assert_eq!(config.get_prefix(None), "default-prefix");

    let config_no_default = Config::default();
    assert_eq!(config_no_default.get_prefix(None), "gj");
}

#[test]
fn base_dir_precedence_and_tilde_expansion() {
    let config = Config {
        default: DefaultConfig {
            base_dir: Some(String::from("~/trees")),
            prefix: None,
            hooks: HooksConfig { post_create: vec![] },
        },
        repos: vec![],
    };
    let with_override = repo("/p", Some("/explicit"), None, vec![]);
    let without_override = repo("/p", None, None, vec![]);

    assert_eq!(config.get_base_dir(Some(&with_override), "/home/u"), "/explicit");
    assert_eq!(config.get_base_dir(Some(&without_override), "/home/u"), "/home/u/trees");
    // No configuration at all: the fixed fallback, tilde-expanded.
    let bare = Config::default();
    assert_eq!(bare.get_base_dir(None, "/home/u"), "/home/u/.gj/worktrees");
}

#[test]
fn hooks_concatenate_defaults_first_never_reordered() {
    let config = Config {
        default: DefaultConfig {
            base_dir: None,
            prefix: None,
            hooks: HooksConfig {
                post_create: vec![
                    Hook::Run { command: String::from("echo one") },
                    Hook::Run { command: String::from("echo two") },
                ],
            },
        },
        repos: vec![],
    };
    let rc = repo(
        "/p",
        None,
        None,
        vec![
            Hook::Copy { from: String::from(".env"), to: None, required: true },
            Hook::Run { command: String::from("echo one") },
        ],
    );
    let hooks = config.get_hooks(Some(&rc));
    assert_eq!(hooks.len(), 4);
    assert!(matches!(&hooks[0], Hook::Run { command } if command == "echo one"));
    assert!(matches!(&hooks[1], Hook::Run { command } if command == "echo two"));
    assert!(matches!(&hooks[2], Hook::Copy { from, to: None, required: true } if from == ".env"));
    assert!(matches!(&hooks[3], Hook::Run { command } if command == "echo one"));
}

#[test]
fn find_repo_takes_first_exact_canonical_match() {
    let config = Config {
        default: DefaultConfig {
            base_dir: None,
            prefix: None,
            hooks: HooksConfig { post_create: vec![] },
        },
        repos: vec![
            RepoEntry { name: String::from("a"), settings: repo("~/a", None, None, vec![]) },
            RepoEntry { name: String::from("b"), settings: repo("~/b", None, None, vec![]) },
        ],
    };
    let canon = vec![Some(String::from("/home/u/a")), Some(String::from("/home/u/b"))];
    assert_eq!(config.find_repo("/home/u/b", &canon), Some(1));
    assert_eq!(config.find_repo("/home/u/a", &canon), Some(0));
    assert_eq!(config.find_repo("/home/u/c", &canon), None);
    let broken = vec![None, Some(String::from("/home/u/b"))];
    assert_eq!(config.find_repo("/home/u/a", &broken), None);
}

#[test]
fn load_required_demands_the_config_file() {
    assert!(Config::load_required("/home/u", true).is_ok());
    let err = Config::load_required("/home/u", false).err().map(|e| e.message());
    let msg = err.unwrap_or_default();
    assert!(msg.contains("Configuration file not found at /home/u/.gj/config.toml"));
    assert!(msg.contains("gj init"));
}

#[test]
fn config_paths_under_home() {
    assert_eq!(Config::config_dir("/home/u"), "/home/u/.gj");
    assert_eq!(Config::config_path("/home/u"), "/home/u/.gj/config.toml");
}

#[test]
fn tilde_expansion_rules() {
    assert_eq!(expand_tilde("~", "/home/u"), "/home/u");
    assert_eq!(expand_tilde("~/x/y", "/home/u"), "/home/u/x/y");
    assert_eq!(expand_tilde("/abs/x", "/home/u"), "/abs/x");
    assert_eq!(expand_tilde("~user/x", "/home/u"), "~user/x");
}
