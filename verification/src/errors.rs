//! The library's error type.  Every fallible operation of the library
//! reports one of these variants; the user-facing text of each is produced
//! by [`GjError::message`], whose contract pins the exact wording.

use vstd::prelude::*;
use vstd::string::StringExecFns;

verus! {

/// One error of the worktree manager.
pub enum GjError {
    /// The configuration file is required but absent.
    ConfigNotFound { path: String },
    /// A worktree already occupies the target path.
    AlreadyExists { path: String, hint: String },
    /// No state record matches the requested name.
    NoMatch { name: String },
    /// A state record matches, but its directory is gone.
    WorktreeGone { path: String },
    /// Several state records match the requested name.
    Ambiguous { name: String, candidates: Vec<String> },
    /// The current directory is not a managed worktree.
    NotInWorktree,
    /// Uncommitted changes block a merge.
    UncommittedMerge,
    /// Uncommitted changes block removal without `--force`.
    Uncommitted,
    /// The default branch is not checked out anywhere.
    DefaultBranchNotCheckedOut { branch: String },
    /// A merge hit a conflict and was aborted.
    MergeConflict { detail: String },
    /// The version-control backend reported a failure.
    Backend { detail: String },
    /// Reading or writing a state record failed.
    StateError { detail: String },
    /// A required copy hook found no source file.
    HookRequiredFileMissing { source: String },
    /// A copy hook failed while copying.
    HookCopyFailed { detail: String },
    /// A run hook exited with a non-zero status.
    HookCommandFailed { command: String },
    /// The PR host reported no head branch for the requested number.
    PrBranchMissing { number: u32 },
    /// The shell given to `shell-init` is not supported.
    UnsupportedShell { shell: String },
    /// There are no managed worktrees at all.
    NoWorktrees,
    /// There are records, but none of their directories still exists.
    NoExistingWorktrees,
}

/// The mathematical value of a [`GjError`].
pub enum GjErrorV {
    ConfigNotFound { path: Seq<char> },
    AlreadyExists { path: Seq<char>, hint: Seq<char> },
    NoMatch { name: Seq<char> },
    WorktreeGone { path: Seq<char> },
    Ambiguous { name: Seq<char>, candidates: Seq<Seq<char>> },
    NotInWorktree,
    UncommittedMerge,
    Uncommitted,
    DefaultBranchNotCheckedOut { branch: Seq<char> },
    MergeConflict { detail: Seq<char> },
    Backend { detail: Seq<char> },
    StateError { detail: Seq<char> },
    HookRequiredFileMissing { source: Seq<char> },
    HookCopyFailed { detail: Seq<char> },
    HookCommandFailed { command: Seq<char> },
    PrBranchMissing { number: u32 },
    UnsupportedShell { shell: Seq<char> },
    NoWorktrees,
    NoExistingWorktrees,
}

impl View for GjError {
    type V = GjErrorV;

    open spec fn view(&self) -> GjErrorV {
        match self {
            GjError::ConfigNotFound { path } => GjErrorV::ConfigNotFound { path: path@ },
            GjError::AlreadyExists { path, hint } => GjErrorV::AlreadyExists {
                path: path@,
                hint: hint@,
            },
            GjError::NoMatch { name } => GjErrorV::NoMatch { name: name@ },
            GjError::WorktreeGone { path } => GjErrorV::WorktreeGone { path: path@ },
            GjError::Ambiguous { name, candidates } => GjErrorV::Ambiguous {
                name: name@,
                candidates: candidates@.map_values(|c: String| c@),
            },
            GjError::NotInWorktree => GjErrorV::NotInWorktree,
            GjError::UncommittedMerge => GjErrorV::UncommittedMerge,
            GjError::Uncommitted => GjErrorV::Uncommitted,
            GjError::DefaultBranchNotCheckedOut { branch } => GjErrorV::DefaultBranchNotCheckedOut {
                branch: branch@,
            },
            GjError::MergeConflict { detail } => GjErrorV::MergeConflict { detail: detail@ },
            GjError::Backend { detail } => GjErrorV::Backend { detail: detail@ },
            GjError::StateError { detail } => GjErrorV::StateError { detail: detail@ },
            GjError::HookRequiredFileMissing { source } => GjErrorV::HookRequiredFileMissing {
                source: source@,
            },
            GjError::HookCopyFailed { detail } => GjErrorV::HookCopyFailed { detail: detail@ },
            GjError::HookCommandFailed { command } => GjErrorV::HookCommandFailed {
                command: command@,
            },
            GjError::PrBranchMissing { number } => GjErrorV::PrBranchMissing { number: *number },
            GjError::UnsupportedShell { shell } => GjErrorV::UnsupportedShell { shell: shell@ },
            GjError::NoWorktrees => GjErrorV::NoWorktrees,
            GjError::NoExistingWorktrees => GjErrorV::NoExistingWorktrees,
        }
    }
}

/// The user-facing text of an error, as a sequence of characters.
pub open spec fn spec_message(e: GjErrorV) -> Seq<char> {
    match e {
        GjErrorV::ConfigNotFound { path } => "Configuration file not found at "@ + path
            + "\n\nRun `gj init` to create a configuration file."@,
        GjErrorV::AlreadyExists { path, hint } => "Worktree already exists at "@ + path
            + ". Use `gj cd "@ + hint + "` to switch to it."@,
        GjErrorV::NoMatch { name } => "No worktree found matching '"@ + name + "'"@,
        GjErrorV::WorktreeGone { path } => "Worktree no longer exists at "@ + path,
        GjErrorV::Ambiguous { .. } => "Ambiguous worktree name"@,
        GjErrorV::NotInWorktree =>
            "Not in a gj-managed worktree. Use this command inside a worktree created by gj."@,
        GjErrorV::UncommittedMerge =>
            "Worktree has uncommitted changes. Commit or stash them before using --merge."@,
        GjErrorV::Uncommitted =>
            "Worktree has uncommitted changes. Use --force to discard them, or commit/stash first."@,
        GjErrorV::DefaultBranchNotCheckedOut { branch } => "Default branch '"@ + branch
            + "' is not checked out in any worktree"@,
        GjErrorV::MergeConflict { detail } =>
            "Merge failed. Conflict detected. Aborting merge.\nError: "@ + detail,
        GjErrorV::Backend { detail } => detail,
        GjErrorV::StateError { detail } => detail,
        GjErrorV::HookRequiredFileMissing { source } => "Required file not found: "@ + source
            + " (from origin repo)"@,
        GjErrorV::HookCopyFailed { detail } => detail,
        GjErrorV::HookCommandFailed { command } => "Hook command failed: "@ + command,
        GjErrorV::PrBranchMissing { number } => "PR #"@ + crate::strutil::spec_dec(number as nat)
            + " not found or has no branch"@,
        GjErrorV::UnsupportedShell { shell } => "Unsupported shell: "@ + shell
            + ". Supported shells: zsh, bash"@,
        GjErrorV::NoWorktrees =>
            "No managed worktrees found. Create one with `gj new` or `gj pr`."@,
        GjErrorV::NoExistingWorktrees => "No existing worktrees found."@,
    }
}

impl GjError {
    /// The user-facing text of this error.
    pub fn message(&self) -> (r: String)
        ensures
            r@ == spec_message(self@),
    {
        match self {
            GjError::ConfigNotFound { path } => String::from_str(
                "Configuration file not found at ",
            ).concat(path.as_str()).concat("\n\nRun `gj init` to create a configuration file."),
            GjError::AlreadyExists { path, hint } => String::from_str("Worktree already exists at ")
                .concat(path.as_str()).concat(". Use `gj cd ").concat(hint.as_str()).concat(
                "` to switch to it.",
            ),
            GjError::NoMatch { name } => String::from_str("No worktree found matching '").concat(
                name.as_str(),
            ).concat("'"),
            GjError::WorktreeGone { path } => String::from_str("Worktree no longer exists at ")
                .concat(path.as_str()),
            GjError::Ambiguous { .. } => String::from_str("Ambiguous worktree name"),
            GjError::NotInWorktree => String::from_str(
                "Not in a gj-managed worktree. Use this command inside a worktree created by gj.",
            ),
            GjError::UncommittedMerge => String::from_str(
                "Worktree has uncommitted changes. Commit or stash them before using --merge.",
            ),
            GjError::Uncommitted => String::from_str(
                "Worktree has uncommitted changes. Use --force to discard them, or commit/stash first.",
            ),
            GjError::DefaultBranchNotCheckedOut { branch } => String::from_str("Default branch '")
                .concat(branch.as_str()).concat("' is not checked out in any worktree"),
            GjError::MergeConflict { detail } => String::from_str(
                "Merge failed. Conflict detected. Aborting merge.\nError: ",
            ).concat(detail.as_str()),
            GjError::Backend { detail } => detail.clone(),
            GjError::StateError { detail } => detail.clone(),
            GjError::HookRequiredFileMissing { source } => String::from_str(
                "Required file not found: ",
            ).concat(source.as_str()).concat(" (from origin repo)"),
            GjError::HookCopyFailed { detail } => detail.clone(),
            GjError::HookCommandFailed { command } => String::from_str("Hook command failed: ")
                .concat(command.as_str()),
            GjError::PrBranchMissing { number } => String::from_str("PR #").concat(
                crate::strutil::u64_to_dec(*number as u64).as_str(),
            ).concat(" not found or has no branch"),
            GjError::UnsupportedShell { shell } => String::from_str("Unsupported shell: ").concat(
                shell.as_str(),
            ).concat(". Supported shells: zsh, bash"),
            GjError::NoWorktrees => String::from_str(
                "No managed worktrees found. Create one with `gj new` or `gj pr`.",
            ),
            GjError::NoExistingWorktrees => String::from_str("No existing worktrees found."),
        }
    }
}

} // verus!
