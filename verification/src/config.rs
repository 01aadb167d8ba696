//! Layered configuration: global defaults plus per-repository overrides.
//!
//! The resolution rules are the contract: a repository-specific value wins
//! over the default, which wins over a fixed fallback; hook lists are
//! concatenated (defaults first), never replaced, deduplicated or reordered.
//!
//! Reading and parsing the configuration file is input/output and lives
//! outside the library; the library receives the already-parsed values.

use vstd::prelude::*;
use vstd::string::StringExecFns;

verus! {

/// One post-creation automation step.
pub enum Hook {
    /// Copy a file from the origin repository into the worktree.
    Copy { from: String, to: Option<String>, required: bool },
    /// Run a shell command inside the worktree.
    Run { command: String },
}

/// The mathematical value of a [`Hook`].
pub enum HookV {
    Copy { from: Seq<char>, to: Option<Seq<char>>, required: bool },
    Run { command: Seq<char> },
}

impl View for Hook {
    type V = HookV;

    open spec fn view(&self) -> HookV {
        match self {
            Hook::Copy { from, to, required } => HookV::Copy {
                from: from@,
                to: match to {
                    Some(t) => Some(t@),
                    None => None,
                },
                required: *required,
            },
            Hook::Run { command } => HookV::Run { command: command@ },
        }
    }
}

/// The views of a sequence of hooks.
pub open spec fn hooks_view(hs: Seq<Hook>) -> Seq<HookV> {
    hs.map_values(|h: Hook| h@)
}

/// Hooks grouped by the event that triggers them.
pub struct HooksConfig {
    /// Hooks executed after worktree creation, in order.
    pub post_create: Vec<Hook>,
}

/// Default settings applied to all repositories.
pub struct DefaultConfig {
    /// Base directory for worktrees, before tilde expansion.
    pub base_dir: Option<String>,
    /// Default branch prefix.
    pub prefix: Option<String>,
    /// Default hooks.
    pub hooks: HooksConfig,
}

/// Repository-specific settings.
pub struct RepoConfig {
    /// Path of the repository this entry matches, before tilde expansion.
    pub path: String,
    /// Override of the default base directory.
    pub base_dir: Option<String>,
    /// Override of the default branch prefix.
    pub prefix: Option<String>,
    /// Repository-specific hooks, run after the default ones.
    pub hooks: HooksConfig,
}

/// One named repository entry.
pub struct RepoEntry {
    /// The logical name of the repository.
    pub name: String,
    /// Its settings.
    pub settings: RepoConfig,
}

/// The whole configuration: defaults plus named repository entries.
pub struct Config {
    /// Settings applied when no repository entry overrides them.
    pub default: DefaultConfig,
    /// The configured repositories, in configuration order.
    pub repos: Vec<RepoEntry>,
}

impl Default for HooksConfig {
    fn default() -> (r: HooksConfig)
        ensures
            r.post_create@.len() == 0,
    {
        HooksConfig { post_create: Vec::new() }
    }
}

impl Default for DefaultConfig {
    fn default() -> (r: DefaultConfig)
        ensures
            r.base_dir is None,
            r.prefix is None,
            r.hooks.post_create@.len() == 0,
    {
        DefaultConfig { base_dir: None, prefix: None, hooks: HooksConfig { post_create: Vec::new() } }
    }
}

impl Default for Config {
    fn default() -> (r: Config)
        ensures
            r.default.base_dir is None,
            r.default.prefix is None,
            r.default.hooks.post_create@.len() == 0,
            r.repos@.len() == 0,
    {
        Config {
            default: DefaultConfig {
                base_dir: None,
                prefix: None,
                hooks: HooksConfig { post_create: Vec::new() },
            },
            repos: Vec::new(),
        }
    }
}

/// Home-directory expansion: a leading `~` alone, or `~/`, is replaced by
/// the home directory; anything else (including `~user`) is unchanged.
pub open spec fn spec_expand_tilde(s: Seq<char>, home: Seq<char>) -> Seq<char> {
    if s.len() >= 1 && s[0] == '~' && (s.len() == 1 || s[1] == '/') {
        home + s.skip(1)
    } else {
        s
    }
}

/// Expands a leading tilde to the home directory.
pub fn expand_tilde(s: &str, home: &str) -> (r: String)
    ensures
        r@ == spec_expand_tilde(s@, home@),
{
    let n = s.unicode_len();
    if n >= 1 && s.get_char(0) == '~' && (n == 1 || s.get_char(1) == '/') {
        let tail = s.substring_char(1, n);
        let r = String::from_str(home).concat(tail);
        proof {
            assert(home@ + s@.subrange(1, s@.len() as int) =~= home@ + s@.skip(1));
        }
        r
    } else {
        s.to_owned()
    }
}

/// The prefix a resolution falls back to when nothing is configured.
pub open spec fn fallback_prefix() -> Seq<char> {
    "gj"@
}

/// The base directory a resolution falls back to, before tilde expansion.
pub open spec fn fallback_base_dir() -> Seq<char> {
    "~/.gj/worktrees"@
}

/// The configured base directory before expansion: the repository override
/// if present, else the default, else the fixed fallback.
pub open spec fn spec_base_dir_choice(c: &Config, rc: Option<&RepoConfig>) -> Seq<char> {
    if rc is Some && rc->0.base_dir is Some {
        rc->0.base_dir->0@
    } else if c.default.base_dir is Some {
        c.default.base_dir->0@
    } else {
        fallback_base_dir()
    }
}

/// The effective prefix: the repository override if present, else the
/// default, else the fixed fallback.
pub open spec fn spec_prefix_choice(c: &Config, rc: Option<&RepoConfig>) -> Seq<char> {
    if rc is Some && rc->0.prefix is Some {
        rc->0.prefix->0@
    } else if c.default.prefix is Some {
        c.default.prefix->0@
    } else {
        fallback_prefix()
    }
}

/// The effective hook list: default hooks first, then repository hooks.
pub open spec fn spec_hooks_choice(c: &Config, rc: Option<&RepoConfig>) -> Seq<HookV> {
    hooks_view(c.default.hooks.post_create@) + (if rc is Some {
        hooks_view(rc->0.hooks.post_create@)
    } else {
        Seq::empty()
    })
}

impl Config {
    /// The configuration directory under the given home directory.
    pub fn config_dir(home: &str) -> (r: String)
        ensures
            r@ == home@ + "/.gj"@,
    {
        String::from_str(home).concat("/.gj")
    }

    /// The configuration file path under the given home directory.
    pub fn config_path(home: &str) -> (r: String)
        ensures
            r@ == home@ + "/.gj/config.toml"@,
    {
        let r = Self::config_dir(home).concat("/config.toml");
        proof {
            reveal_strlit("/.gj");
            reveal_strlit("/config.toml");
            reveal_strlit("/.gj/config.toml");
            assert((home@ + "/.gj"@) + "/config.toml"@ =~= home@ + "/.gj/config.toml"@);
        }
        r
    }

    /// The required-configuration check: when the configuration file is
    /// absent, loading must fail with an error that names the expected
    /// location and the initialization command to run.  The caller probes
    /// the filesystem and passes what it found.
    pub fn load_required(home: &str, config_file_exists: bool) -> (r: Result<(), crate::errors::GjError>)
        ensures
            match r {
                Ok(u) => config_file_exists,
                Err(e) => !config_file_exists && e@ == (crate::errors::GjErrorV::ConfigNotFound {
                    path: home@ + "/.gj/config.toml"@,
                }),
            },
    {
        if config_file_exists {
            Ok(())
        } else {
            Err(crate::errors::GjError::ConfigNotFound { path: Self::config_path(home) })
        }
    }

    /// Finds the repository entry whose canonical path equals the given
    /// canonical repository root.  The caller supplies, for each entry, the
    /// canonicalized form of its configured path (`None` where the path does
    /// not resolve); the first entry that matches wins.
    pub fn find_repo(&self, git_root: &str, canon_paths: &Vec<Option<String>>) -> (r: Option<
        usize,
    >)
        requires
            canon_paths@.len() == self.repos@.len(),
        ensures
            match r {
                Some(i) => i < self.repos@.len() && canon_paths@[i as int] is Some
                    && canon_paths@[i as int]->0@ == git_root@ && (forall|j: int|
                    0 <= j < i ==> !(canon_paths@[j] is Some && canon_paths@[j]->0@ == git_root@)),
                None => forall|j: int|
                    0 <= j < self.repos@.len() ==> !(canon_paths@[j] is Some
                        && canon_paths@[j]->0@ == git_root@),
            },
    {
        let mut i: usize = 0;
        while i < canon_paths.len()
            invariant
                canon_paths@.len() == self.repos@.len(),
                i <= canon_paths@.len(),
                forall|j: int|
                    0 <= j < i ==> !(canon_paths@[j] is Some && canon_paths@[j]->0@ == git_root@),
            decreases canon_paths@.len() - i,
        {
            match &canon_paths[i] {
                Some(p) => {
                    if crate::strutil::str_eq(p.as_str(), git_root) {
                        return Some(i);
                    }
                },
                None => {},
            }
            i = i + 1;
        }
        None
    }

    /// The effective base directory for worktrees, tilde-expanded.
    pub fn get_base_dir(&self, repo_config: Option<&RepoConfig>, home: &str) -> (r: String)
        ensures
            r@ == spec_expand_tilde(spec_base_dir_choice(self, repo_config), home@),
    {
        let chosen: &str = match repo_config {
            Some(rc) => match &rc.base_dir {
                Some(b) => b.as_str(),
                None => match &self.default.base_dir {
                    Some(b) => b.as_str(),
                    None => "~/.gj/worktrees",
                },
            },
            None => match &self.default.base_dir {
                Some(b) => b.as_str(),
                None => "~/.gj/worktrees",
            },
        };
        expand_tilde(chosen, home)
    }

    /// The effective branch prefix.
    pub fn get_prefix<'a>(&'a self, repo_config: Option<&'a RepoConfig>) -> (r: &'a str)
        ensures
            r@ == spec_prefix_choice(self, repo_config),
    {
        match repo_config {
            Some(rc) => match &rc.prefix {
                Some(p) => p.as_str(),
                None => match &self.default.prefix {
                    Some(p) => p.as_str(),
                    None => "gj",
                },
            },
            None => match &self.default.prefix {
                Some(p) => p.as_str(),
                None => "gj",
            },
        }
    }

    /// The effective hook list: default hooks followed by repository hooks,
    /// order preserved, nothing deduplicated.
    pub fn get_hooks(&self, repo_config: Option<&RepoConfig>) -> (r: Vec<Hook>)
        ensures
            hooks_view(r@) == spec_hooks_choice(self, repo_config),
    {
        let mut out: Vec<Hook> = Vec::new();
        append_hooks(&mut out, &self.default.hooks.post_create);
        match repo_config {
            Some(rc) => {
                append_hooks(&mut out, &rc.hooks.post_create);
            },
            None => {
                proof {
                    assert(hooks_view(out@) =~= spec_hooks_choice(self, repo_config));
                }
            },
        }
        proof {
            assert(hooks_view(out@) =~= spec_hooks_choice(self, repo_config));
        }
        out
    }
}

/// Duplicates a hook; the copy has the same value.
pub fn duplicate_hook(h: &Hook) -> (r: Hook)
    ensures
        r@ == h@,
{
    match h {
        Hook::Copy { from, to, required } => Hook::Copy {
            from: from.clone(),
            to: match to {
                Some(t) => Some(t.clone()),
                None => None,
            },
            required: *required,
        },
        Hook::Run { command } => Hook::Run { command: command.clone() },
    }
}

/// Appends copies of all hooks in `src_hooks` to `out`, in order.
fn append_hooks(out: &mut Vec<Hook>, src_hooks: &Vec<Hook>)
    ensures
        hooks_view(final(out)@) == hooks_view(old(out)@) + hooks_view(src_hooks@),
{
    let mut i: usize = 0;
    while i < src_hooks.len()
        invariant
            i <= src_hooks@.len(),
            hooks_view(out@) =~= hooks_view(old(out)@) + hooks_view(src_hooks@.take(i as int)),
        decreases src_hooks@.len() - i,
    {
        let h = duplicate_hook(&src_hooks[i]);
        proof {
            assert(hooks_view(out@.push(h)) =~= hooks_view(out@).push(h@));
            assert(hooks_view(src_hooks@.take(i + 1)) =~= hooks_view(src_hooks@.take(i as int)).push(
                src_hooks@[i as int]@,
            ));
        }
        out.push(h);
        i = i + 1;
    }
    proof {
        assert(src_hooks@.take(src_hooks@.len() as int) =~= src_hooks@);
        assert(hooks_view(out@) =~= hooks_view(old(out)@) + hooks_view(src_hooks@));
    }
}

/// Law: resolution precedence.  For every configuration and repository
/// entry, the effective prefix and base directory are the repository
/// override when present, else the default, else the fixed fallback; and
/// the effective hooks are the default hooks followed by the repository
/// hooks, order preserved.
pub proof fn lemma_resolution_precedence(c: &Config, rc: &RepoConfig)
    ensures
        rc.prefix is Some ==> spec_prefix_choice(c, Some(rc)) == rc.prefix->0@,
        rc.prefix is None && c.default.prefix is Some ==> spec_prefix_choice(c, Some(rc))
            == c.default.prefix->0@,
        rc.prefix is None && c.default.prefix is None ==> spec_prefix_choice(c, Some(rc))
            == fallback_prefix(),
        rc.base_dir is Some ==> spec_base_dir_choice(c, Some(rc)) == rc.base_dir->0@,
        rc.base_dir is None && c.default.base_dir is Some ==> spec_base_dir_choice(c, Some(rc))
            == c.default.base_dir->0@,
        rc.base_dir is None && c.default.base_dir is None ==> spec_base_dir_choice(c, Some(rc))
            == fallback_base_dir(),
        spec_hooks_choice(c, Some(rc)) == hooks_view(c.default.hooks.post_create@) + hooks_view(
            rc.hooks.post_create@,
        ),
        forall|i: int|
            0 <= i < c.default.hooks.post_create@.len() ==> spec_hooks_choice(c, Some(rc))[i]
                == c.default.hooks.post_create@[i]@,
        forall|i: int|
            0 <= i < rc.hooks.post_create@.len() ==> #[trigger] spec_hooks_choice(c, Some(rc))[
                c.default.hooks.post_create@.len() + i] == rc.hooks.post_create@[i]@,
{
    assert forall|i: int|
        0 <= i < c.default.hooks.post_create@.len() implies spec_hooks_choice(c, Some(rc))[i]
        == c.default.hooks.post_create@[i]@ by {
        assert(spec_hooks_choice(c, Some(rc))[i] == hooks_view(c.default.hooks.post_create@)[i]);
    }
}

} // verus!
