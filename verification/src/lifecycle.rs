//! The worktree lifecycle: two state machines that sequence the calls to
//! the version-control backend.
//!
//! The library decides; the caller acts.  Each machine hands out one
//! [`VcsAction`] at a time and absorbs the observed outcome.  The create
//! machine refuses to touch the backend when the target path already
//! exists, and treats a hook failure as a warning on an otherwise
//! successful creation.  The exit machine aborts a conflicted merge and
//! then refuses every destructive step, so a failed merge leaves the
//! worktree, the branch and the state record untouched.

use vstd::prelude::*;
use crate::errors::{GjError, GjErrorV};
use crate::state::WorktreeState;
use crate::timefmt::ts_wf;

verus! {

/// One request to the caller: an operation of the version-control
/// backend, a filesystem probe, or a step of the library's own store.
pub enum VcsAction {
    /// Probe whether a path exists on disk.
    CheckPathExists { path: String },
    /// Fetch a ref from the remote.
    Fetch { refname: String },
    /// Create a worktree on a new branch.
    AddWorktreeNewBranch { path: String, branch: String },
    /// Create a worktree at a ref.
    AddWorktreeAtRef { path: String, refname: String },
    /// Create a worktree on a new branch starting at a ref.
    AddWorktreeWithBranch { path: String, branch: String, refname: String },
    /// Set the upstream of a branch inside a worktree.
    SetUpstream { path: String, branch: String, upstream: String },
    /// Persist a state record.
    SaveState { record: WorktreeState },
    /// Run the hook pipeline against the new worktree.
    RunHooks,
    /// Ask whether the current worktree has uncommitted changes.
    QueryUncommitted,
    /// Ask for the default branch of a repository.
    QueryDefaultBranch { repo: String },
    /// Find the worktree that has a branch checked out.
    FindWorktreeForBranch { branch: String, repo: String },
    /// Merge a branch into the checkout at `workdir`.
    Merge { branch: String, workdir: String },
    /// Abort the in-progress merge at `workdir`.
    AbortMerge { workdir: String },
    /// Remove a worktree.
    RemoveWorktree { path: String, force: bool, repo: String },
    /// Delete a branch (best effort).
    DeleteBranch { branch: String, force: bool, repo: String },
    /// Delete the state record of a worktree path.
    DeleteStateRecord { worktree_path: String },
}

/// The mathematical value of a [`VcsAction`].
pub enum VcsActionV {
    CheckPathExists { path: Seq<char> },
    Fetch { refname: Seq<char> },
    AddWorktreeNewBranch { path: Seq<char>, branch: Seq<char> },
    AddWorktreeAtRef { path: Seq<char>, refname: Seq<char> },
    AddWorktreeWithBranch { path: Seq<char>, branch: Seq<char>, refname: Seq<char> },
    SetUpstream { path: Seq<char>, branch: Seq<char>, upstream: Seq<char> },
    SaveState { record: crate::state::StateV },
    RunHooks,
    QueryUncommitted,
    QueryDefaultBranch { repo: Seq<char> },
    FindWorktreeForBranch { branch: Seq<char>, repo: Seq<char> },
    Merge { branch: Seq<char>, workdir: Seq<char> },
    AbortMerge { workdir: Seq<char> },
    RemoveWorktree { path: Seq<char>, force: bool, repo: Seq<char> },
    DeleteBranch { branch: Seq<char>, force: bool, repo: Seq<char> },
    DeleteStateRecord { worktree_path: Seq<char> },
}

impl View for VcsAction {
    type V = VcsActionV;

    open spec fn view(&self) -> VcsActionV {
        match self {
            VcsAction::CheckPathExists { path } => VcsActionV::CheckPathExists { path: path@ },
            VcsAction::Fetch { refname } => VcsActionV::Fetch { refname: refname@ },
            VcsAction::AddWorktreeNewBranch { path, branch } => VcsActionV::AddWorktreeNewBranch {
                path: path@,
                branch: branch@,
            },
            VcsAction::AddWorktreeAtRef { path, refname } => VcsActionV::AddWorktreeAtRef {
                path: path@,
                refname: refname@,
            },
            VcsAction::AddWorktreeWithBranch { path, branch, refname } =>
                VcsActionV::AddWorktreeWithBranch {
                path: path@,
                branch: branch@,
                refname: refname@,
            },
            VcsAction::SetUpstream { path, branch, upstream } => VcsActionV::SetUpstream {
                path: path@,
                branch: branch@,
                upstream: upstream@,
            },
            VcsAction::SaveState { record } => VcsActionV::SaveState { record: record@ },
            VcsAction::RunHooks => VcsActionV::RunHooks,
            VcsAction::QueryUncommitted => VcsActionV::QueryUncommitted,
            VcsAction::QueryDefaultBranch { repo } => VcsActionV::QueryDefaultBranch {
                repo: repo@,
            },
            VcsAction::FindWorktreeForBranch { branch, repo } => VcsActionV::FindWorktreeForBranch {
                branch: branch@,
                repo: repo@,
            },
            VcsAction::Merge { branch, workdir } => VcsActionV::Merge {
                branch: branch@,
                workdir: workdir@,
            },
            VcsAction::AbortMerge { workdir } => VcsActionV::AbortMerge { workdir: workdir@ },
            VcsAction::RemoveWorktree { path, force, repo } => VcsActionV::RemoveWorktree {
                path: path@,
                force: *force,
                repo: repo@,
            },
            VcsAction::DeleteBranch { branch, force, repo } => VcsActionV::DeleteBranch {
                branch: branch@,
                force: *force,
                repo: repo@,
            },
            VcsAction::DeleteStateRecord { worktree_path } => VcsActionV::DeleteStateRecord {
                worktree_path: worktree_path@,
            },
        }
    }
}

/// Whether an action destroys something: removes the worktree, deletes
/// the branch, or deletes the state record.
pub open spec fn destructive(a: VcsActionV) -> bool {
    a is RemoveWorktree || a is DeleteBranch || a is DeleteStateRecord
}

/// How a worktree is attached to its starting point when created.
pub enum CreateMode {
    /// A brand-new branch (the `new` operation).
    NewBranch,
    /// Attached to a fetched ref without a new branch (`checkout`).
    AtRef,
    /// A new branch starting at a fetched ref (`pr`).
    WithBranch,
}

/// Where a create flow stands.
pub enum CreatePhase {
    Fetching,
    CheckingPath,
    Adding,
    SettingUpstream,
    SavingState,
    RunningHooks,
    Done,
    Failed,
}

/// The create state machine: checks the target path, materializes the
/// worktree, saves the record, runs hooks, and reports the path.
pub struct CreateFlow {
    /// How the worktree is attached.
    pub mode: CreateMode,
    /// The target path of the new worktree.
    pub worktree_path: String,
    /// The branch recorded for the worktree.
    pub branch: String,
    /// The remote ref to fetch and attach to, where the mode uses one.
    pub refname: Option<String>,
    /// The origin repository.
    pub origin_repo: String,
    /// The creation timestamp for the record.
    pub created_at: i64,
    /// The name suggested to the user for `cd` in the already-exists error.
    pub hint: String,
    /// Where the flow stands.
    pub phase: CreatePhase,
    /// The hook failure, when hooks failed on an otherwise successful run.
    pub warning: Option<GjError>,
    /// Why the flow failed.
    pub error: Option<GjError>,
}

/// Well-formedness of a create flow.
pub open spec fn create_wf(f: &CreateFlow) -> bool {
    &&& (f.mode is AtRef || f.mode is WithBranch) ==> f.refname is Some
    &&& f.phase is Fetching ==> (f.mode is AtRef || f.mode is WithBranch)
    &&& f.phase is SettingUpstream ==> f.mode is WithBranch
    &&& ts_wf(f.created_at)
    &&& (f.error is Some <==> f.phase is Failed)
    &&& f.warning is Some ==> f.phase is Done
}

/// What the caller observed while performing the requested action.
pub enum CreateEvent {
    /// Outcome of the path probe.
    PathExists { exists: bool },
    /// The action completed.
    ActionOk,
    /// The action failed; the caller's description of the failure.
    ActionFailed { detail: String },
    /// The hook pipeline finished, perhaps with a failure.
    HooksFinished { failure: Option<GjError> },
}

/// Which events may be reported in which phase.
pub open spec fn create_event_fits(f: &CreateFlow, ev: CreateEvent) -> bool {
    match ev {
        CreateEvent::PathExists { exists } => f.phase is CheckingPath,
        CreateEvent::ActionOk => f.phase is Fetching || f.phase is Adding
            || f.phase is SettingUpstream || f.phase is SavingState,
        CreateEvent::ActionFailed { detail } => f.phase is Fetching || f.phase is Adding
            || f.phase is SettingUpstream || f.phase is SavingState,
        CreateEvent::HooksFinished { failure } => f.phase is RunningHooks,
    }
}

/// Whether the flow is finished.
pub open spec fn create_done(f: &CreateFlow) -> bool {
    f.phase is Done || f.phase is Failed
}

impl CreateFlow {
    /// Starts a create flow.  `hint` is the name shown in the
    /// already-exists error as the `cd` argument to reach the existing
    /// worktree.
    pub fn start(
        mode: CreateMode,
        worktree_path: String,
        branch: String,
        refname: Option<String>,
        origin_repo: String,
        created_at: i64,
        hint: String,
    ) -> (r: CreateFlow)
        requires
            (mode is AtRef || mode is WithBranch) ==> refname is Some,
            ts_wf(created_at),
        ensures
            create_wf(&r),
            r.mode == mode,
            r.worktree_path == worktree_path,
            r.branch == branch,
            r.refname == refname,
            r.origin_repo == origin_repo,
            r.created_at == created_at,
            r.hint == hint,
            mode is AtRef ==> r.phase is Fetching,
            !(mode is AtRef) ==> r.phase is CheckingPath,
            r.warning is None && r.error is None,
    {
        let phase = match mode {
            CreateMode::AtRef => CreatePhase::Fetching,
            _ => CreatePhase::CheckingPath,
        };
        CreateFlow {
            mode,
            worktree_path,
            branch,
            refname,
            origin_repo,
            created_at,
            hint,
            phase,
            warning: None,
            error: None,
        }
    }

    /// The action the caller should perform now, or nothing when the flow
    /// is finished.
    pub fn next_action(&self) -> (r: Option<VcsAction>)
        requires
            create_wf(self),
        ensures
            match r {
                Some(a) => !create_done(self) && a@ == spec_create_action(self),
                None => create_done(self),
            },
    {
        match self.phase {
            CreatePhase::Fetching => {
                let refname = match &self.refname {
                    Some(s) => s.clone(),
                    None => String::new(),
                };
                Some(VcsAction::Fetch { refname })
            },
            CreatePhase::CheckingPath => Some(
                VcsAction::CheckPathExists { path: self.worktree_path.clone() },
            ),
            CreatePhase::Adding => match self.mode {
                CreateMode::NewBranch => Some(
                    VcsAction::AddWorktreeNewBranch {
                        path: self.worktree_path.clone(),
                        branch: self.branch.clone(),
                    },
                ),
                CreateMode::AtRef => {
                    let refname = match &self.refname {
                        Some(s) => s.clone(),
                        None => String::new(),
                    };
                    Some(VcsAction::AddWorktreeAtRef { path: self.worktree_path.clone(), refname })
                },
                CreateMode::WithBranch => {
                    let refname = match &self.refname {
                        Some(s) => s.clone(),
                        None => String::new(),
                    };
                    Some(
                        VcsAction::AddWorktreeWithBranch {
                            path: self.worktree_path.clone(),
                            branch: self.branch.clone(),
                            refname,
                        },
                    )
                },
            },
            CreatePhase::SettingUpstream => {
                let upstream = match &self.refname {
                    Some(s) => s.clone(),
                    None => String::new(),
                };
                Some(
                    VcsAction::SetUpstream {
                        path: self.worktree_path.clone(),
                        branch: self.branch.clone(),
                        upstream,
                    },
                )
            },
            CreatePhase::SavingState => Some(
                VcsAction::SaveState {
                    record: WorktreeState::new(
                        self.worktree_path.clone(),
                        self.origin_repo.clone(),
                        self.branch.clone(),
                        self.created_at,
                    ),
                },
            ),
            CreatePhase::RunningHooks => Some(VcsAction::RunHooks),
            CreatePhase::Done => None,
            CreatePhase::Failed => None,
        }
    }

    /// Absorbs the outcome of the requested action.
    pub fn step(&mut self, ev: CreateEvent)
        requires
            create_wf(old(self)),
            !create_done(old(self)),
            create_event_fits(old(self), ev),
        ensures
            create_wf(final(self)),
            final(self).mode == old(self).mode,
            final(self).worktree_path == old(self).worktree_path,
            final(self).branch == old(self).branch,
            final(self).refname == old(self).refname,
            final(self).origin_repo == old(self).origin_repo,
            final(self).created_at == old(self).created_at,
            final(self).hint == old(self).hint,
            old(self).phase is CheckingPath ==> (ev matches CreateEvent::PathExists { exists: true }
                ==> final(self).phase is Failed && final(self).error is Some && final(self).error->0@ == (GjErrorV::AlreadyExists {
                path: old(self).worktree_path@,
                hint: old(self).hint@,
            })),
            old(self).phase is CheckingPath ==> (ev matches CreateEvent::PathExists { exists: false }
                ==> final(self).error is None && (if old(self).mode is WithBranch {
                final(self).phase is Fetching
            } else {
                final(self).phase is Adding
            })),
            old(self).phase is Fetching && ev is ActionOk ==> final(self).error is None && (if old(self).mode is AtRef {
                final(self).phase is CheckingPath
            } else {
                final(self).phase is Adding
            }),
            old(self).phase is Adding && ev is ActionOk ==> final(self).error is None && (if old(self).mode is WithBranch {
                final(self).phase is SettingUpstream
            } else {
                final(self).phase is SavingState
            }),
            old(self).phase is SettingUpstream && ev is ActionOk ==> final(self).error is None
                && final(self).phase is SavingState,
            old(self).phase is SavingState && ev is ActionOk ==> final(self).error is None && final(self).phase is RunningHooks,
            (old(self).phase is Fetching || old(self).phase is Adding || old(self).phase is SettingUpstream) ==> (ev matches CreateEvent::ActionFailed { detail }
                ==> final(self).phase is Failed && final(self).error is Some && final(self).error->0@
                == (GjErrorV::Backend { detail: detail@ })),
            old(self).phase is SavingState ==> (ev matches CreateEvent::ActionFailed { detail }
                ==> final(self).phase is Failed && final(self).error is Some && final(self).error->0@
                == (GjErrorV::StateError { detail: detail@ })),
            old(self).phase is RunningHooks ==> (ev matches CreateEvent::HooksFinished { failure }
                ==> final(self).phase is Done && final(self).warning == failure && final(self).error is None),
    {
        match ev {
            CreateEvent::PathExists { exists } => {
                if exists {
                    self.error = Some(
                        GjError::AlreadyExists {
                            path: self.worktree_path.clone(),
                            hint: self.hint.clone(),
                        },
                    );
                    self.phase = CreatePhase::Failed;
                } else {
                    self.phase = match self.mode {
                        CreateMode::WithBranch => CreatePhase::Fetching,
                        _ => CreatePhase::Adding,
                    };
                }
            },
            CreateEvent::ActionOk => {
                self.phase = match self.phase {
                    CreatePhase::Fetching => match self.mode {
                        CreateMode::AtRef => CreatePhase::CheckingPath,
                        _ => CreatePhase::Adding,
                    },
                    CreatePhase::Adding => match self.mode {
                        CreateMode::WithBranch => CreatePhase::SettingUpstream,
                        _ => CreatePhase::SavingState,
                    },
                    CreatePhase::SettingUpstream => CreatePhase::SavingState,
                    _ => CreatePhase::RunningHooks,
                };
            },
            CreateEvent::ActionFailed { detail } => {
                let is_save = match self.phase {
                    CreatePhase::SavingState => true,
                    _ => false,
                };
                if is_save {
                    self.error = Some(GjError::StateError { detail });
                } else {
                    self.error = Some(GjError::Backend { detail });
                }
                self.phase = CreatePhase::Failed;
            },
            CreateEvent::HooksFinished { failure } => {
                self.warning = failure;
                self.phase = CreatePhase::Done;
            },
        }
    }

    /// The overall outcome once the flow is finished: the worktree path
    /// and, on a partial success, the hook failure as a warning.
    pub fn outcome(self) -> (r: Result<(String, Option<GjError>), GjError>)
        requires
            create_wf(&self),
            create_done(&self),
        ensures
            match r {
                Ok(p) => self.phase is Done && p.0 == self.worktree_path && p.1 == self.warning,
                Err(e) => self.phase is Failed && self.error is Some && e == self.error->0,
            },
    {
        match self.error {
            Some(e) => Err(e),
            None => Ok((self.worktree_path, self.warning)),
        }
    }
}

/// The action a create flow requests in its current phase.
pub open spec fn spec_create_action(f: &CreateFlow) -> VcsActionV {
    match f.phase {
        CreatePhase::Fetching => VcsActionV::Fetch { refname: f.refname->0@ },
        CreatePhase::CheckingPath => VcsActionV::CheckPathExists { path: f.worktree_path@ },
        CreatePhase::Adding => match f.mode {
            CreateMode::NewBranch => VcsActionV::AddWorktreeNewBranch {
                path: f.worktree_path@,
                branch: f.branch@,
            },
            CreateMode::AtRef => VcsActionV::AddWorktreeAtRef {
                path: f.worktree_path@,
                refname: f.refname->0@,
            },
            CreateMode::WithBranch => VcsActionV::AddWorktreeWithBranch {
                path: f.worktree_path@,
                branch: f.branch@,
                refname: f.refname->0@,
            },
        },
        CreatePhase::SettingUpstream => VcsActionV::SetUpstream {
            path: f.worktree_path@,
            branch: f.branch@,
            upstream: f.refname->0@,
        },
        CreatePhase::SavingState => VcsActionV::SaveState {
            record: crate::state::StateV {
                worktree_path: f.worktree_path@,
                origin_repo: f.origin_repo@,
                branch: f.branch@,
                created_at: f.created_at,
            },
        },
        CreatePhase::RunningHooks => VcsActionV::RunHooks,
        CreatePhase::Done => VcsActionV::RunHooks,
        CreatePhase::Failed => VcsActionV::RunHooks,
    }
}

/// Where an exit flow stands.
pub enum ExitPhase {
    CheckingDirty,
    GettingDefaultBranch,
    FindingTarget,
    Merging,
    AbortingMerge,
    Removing,
    DeletingBranch,
    DeletingState,
    Done,
    Failed,
}

/// The exit state machine: checks for uncommitted changes, optionally
/// merges the worktree's branch into the default branch's checkout, and
/// only then removes the worktree, deletes the branch (best effort) and
/// deletes the state record.
pub struct ExitFlow {
    /// Remove even with uncommitted changes, and force the removal.
    pub force: bool,
    /// Merge the branch into the default branch before removal.
    pub merge: bool,
    /// The record of the worktree being torn down.
    pub state: Option<WorktreeState>,
    /// The default branch, once the backend reported it.
    pub default_branch: Option<String>,
    /// The checkout the merge goes into, once found.
    pub merge_target: Option<String>,
    /// The backend's description of the merge conflict, if one happened.
    pub conflict_detail: Option<String>,
    /// Whether the merge completed.
    pub merged: bool,
    /// Where the flow stands.
    pub phase: ExitPhase,
    /// Why the flow failed.
    pub error: Option<GjError>,
}

/// Well-formedness of an exit flow.
pub open spec fn exit_wf(f: &ExitFlow) -> bool {
    &&& (f.error is Some <==> f.phase is Failed)
    &&& !(f.phase is Failed) ==> f.state is Some
    &&& f.phase is FindingTarget ==> f.default_branch is Some
    &&& (f.phase is Merging || f.phase is AbortingMerge) ==> f.merge_target is Some
    &&& f.phase is AbortingMerge ==> f.conflict_detail is Some
    &&& f.merged ==> (f.merge && f.merge_target is Some)
    &&& (f.phase is GettingDefaultBranch || f.phase is FindingTarget || f.phase is Merging
        || f.phase is AbortingMerge) ==> f.merge
}

/// Whether the flow is finished.
pub open spec fn exit_done(f: &ExitFlow) -> bool {
    f.phase is Done || f.phase is Failed
}

/// What the caller observed while performing the requested action.
pub enum ExitEvent {
    /// Whether the worktree has uncommitted changes.
    DirtyStatus { dirty: bool },
    /// The repository's default branch.
    DefaultBranch { name: String },
    /// The worktree that has the default branch checked out, if any.
    TargetFound { path: Option<String> },
    /// Whether the merge conflicted, with the backend's description.
    MergeOutcome { conflict: bool, detail: String },
    /// The action completed.
    ActionOk,
    /// The action failed; the caller's description of the failure.
    ActionFailed { detail: String },
}

/// Which events may be reported in which phase.
pub open spec fn exit_event_fits(f: &ExitFlow, ev: ExitEvent) -> bool {
    match ev {
        ExitEvent::DirtyStatus { dirty } => f.phase is CheckingDirty,
        ExitEvent::DefaultBranch { name } => f.phase is GettingDefaultBranch,
        ExitEvent::TargetFound { path } => f.phase is FindingTarget,
        ExitEvent::MergeOutcome { conflict, detail } => f.phase is Merging,
        ExitEvent::ActionOk => f.phase is AbortingMerge || f.phase is Removing
            || f.phase is DeletingBranch || f.phase is DeletingState,
        ExitEvent::ActionFailed { detail } => f.phase is CheckingDirty
            || f.phase is GettingDefaultBranch || f.phase is FindingTarget
            || f.phase is AbortingMerge || f.phase is Removing || f.phase is DeletingBranch
            || f.phase is DeletingState,
    }
}

/// The action an exit flow requests in its current phase.
pub open spec fn spec_exit_action(f: &ExitFlow) -> VcsActionV {
    let st = f.state->0@;
    match f.phase {
        ExitPhase::CheckingDirty => VcsActionV::QueryUncommitted,
        ExitPhase::GettingDefaultBranch => VcsActionV::QueryDefaultBranch {
            repo: st.origin_repo,
        },
        ExitPhase::FindingTarget => VcsActionV::FindWorktreeForBranch {
            branch: f.default_branch->0@,
            repo: st.origin_repo,
        },
        ExitPhase::Merging => VcsActionV::Merge {
            branch: st.branch,
            workdir: f.merge_target->0@,
        },
        ExitPhase::AbortingMerge => VcsActionV::AbortMerge { workdir: f.merge_target->0@ },
        ExitPhase::Removing => VcsActionV::RemoveWorktree {
            path: st.worktree_path,
            force: f.force || f.merged,
            repo: st.origin_repo,
        },
        ExitPhase::DeletingBranch => VcsActionV::DeleteBranch {
            branch: st.branch,
            force: f.force || f.merge,
            repo: st.origin_repo,
        },
        ExitPhase::DeletingState => VcsActionV::DeleteStateRecord {
            worktree_path: st.worktree_path,
        },
        ExitPhase::Done => VcsActionV::QueryUncommitted,
        ExitPhase::Failed => VcsActionV::QueryUncommitted,
    }
}

impl ExitFlow {
    /// Starts an exit flow from the record of the current worktree; with
    /// no record, the flow fails at once: the caller is not inside a
    /// managed worktree.
    pub fn start(state: Option<WorktreeState>, force: bool, merge: bool) -> (r: ExitFlow)
        ensures
            exit_wf(&r),
            r.force == force && r.merge == merge,
            r.state == state,
            r.merged == false,
            state is Some ==> r.phase is CheckingDirty && r.error is None,
            state is None ==> r.phase is Failed && r.error is Some && r.error->0@
                == GjErrorV::NotInWorktree,
    {
        match state {
            Some(st) => ExitFlow {
                force,
                merge,
                state: Some(st),
                default_branch: None,
                merge_target: None,
                conflict_detail: None,
                merged: false,
                phase: ExitPhase::CheckingDirty,
                error: None,
            },
            None => ExitFlow {
                force,
                merge,
                state: None,
                default_branch: None,
                merge_target: None,
                conflict_detail: None,
                merged: false,
                phase: ExitPhase::Failed,
                error: Some(GjError::NotInWorktree),
            },
        }
    }

    /// The action the caller should perform now, or nothing when the flow
    /// is finished.
    pub fn next_action(&self) -> (r: Option<VcsAction>)
        requires
            exit_wf(self),
        ensures
            match r {
                Some(a) => !exit_done(self) && a@ == spec_exit_action(self),
                None => exit_done(self),
            },
    {
        let st = match &self.state {
            Some(st) => st,
            None => {
                return None;
            },
        };
        match self.phase {
            ExitPhase::CheckingDirty => Some(VcsAction::QueryUncommitted),
            ExitPhase::GettingDefaultBranch => Some(
                VcsAction::QueryDefaultBranch { repo: st.origin_repo.clone() },
            ),
            ExitPhase::FindingTarget => {
                let branch = match &self.default_branch {
                    Some(b) => b.clone(),
                    None => String::new(),
                };
                Some(VcsAction::FindWorktreeForBranch { branch, repo: st.origin_repo.clone() })
            },
            ExitPhase::Merging => {
                let workdir = match &self.merge_target {
                    Some(p) => p.clone(),
                    None => String::new(),
                };
                Some(VcsAction::Merge { branch: st.branch.clone(), workdir })
            },
            ExitPhase::AbortingMerge => {
                let workdir = match &self.merge_target {
                    Some(p) => p.clone(),
                    None => String::new(),
                };
                Some(VcsAction::AbortMerge { workdir })
            },
            ExitPhase::Removing => Some(
                VcsAction::RemoveWorktree {
                    path: st.worktree_path.clone(),
                    force: self.force || self.merged,
                    repo: st.origin_repo.clone(),
                },
            ),
            ExitPhase::DeletingBranch => Some(
                VcsAction::DeleteBranch {
                    branch: st.branch.clone(),
                    force: self.force || self.merge,
                    repo: st.origin_repo.clone(),
                },
            ),
            ExitPhase::DeletingState => Some(
                VcsAction::DeleteStateRecord { worktree_path: st.worktree_path.clone() },
            ),
            ExitPhase::Done => None,
            ExitPhase::Failed => None,
        }
    }

    /// Absorbs the outcome of the requested action.
    pub fn step(&mut self, ev: ExitEvent)
        requires
            exit_wf(old(self)),
            !exit_done(old(self)),
            exit_event_fits(old(self), ev),
        ensures
            exit_wf(final(self)),
            final(self).force == old(self).force,
            final(self).merge == old(self).merge,
            final(self).state == old(self).state,
            old(self).phase is CheckingDirty ==> (ev matches ExitEvent::DirtyStatus { dirty }
                ==> ({
                    if old(self).merge && dirty {
                        final(self).phase is Failed && final(self).error is Some && final(self).error->0@ == GjErrorV::UncommittedMerge
                    } else if !old(self).force && !old(self).merge && dirty {
                        final(self).phase is Failed && final(self).error is Some && final(self).error->0@ == GjErrorV::Uncommitted
                    } else if old(self).merge {
                        final(self).phase is GettingDefaultBranch && final(self).error is None
                    } else {
                        final(self).phase is Removing && final(self).error is None
                    }
                })),
            old(self).phase is GettingDefaultBranch ==> (ev matches ExitEvent::DefaultBranch {
                name,
            } ==> final(self).phase is FindingTarget && final(self).default_branch == Some(name)),
            old(self).phase is FindingTarget ==> (ev matches ExitEvent::TargetFound { path }
                ==> ({
                    if path is Some {
                        final(self).phase is Merging && final(self).merge_target == path
                    } else {
                        final(self).phase is Failed && final(self).error is Some && final(self).error->0@ == (GjErrorV::DefaultBranchNotCheckedOut {
                            branch: old(self).default_branch->0@,
                        })
                    }
                })),
            old(self).phase is Merging ==> (ev matches ExitEvent::MergeOutcome { conflict, detail }
                ==> ({
                    if conflict {
                        final(self).phase is AbortingMerge && final(self).conflict_detail == Some(
                            detail,
                        ) && final(self).merged == old(self).merged
                    } else {
                        final(self).phase is Removing && final(self).merged
                    }
                })),
            old(self).phase is AbortingMerge ==> final(self).phase is Failed && final(self).error is Some && final(self).error->0@ == (GjErrorV::MergeConflict {
                detail: old(self).conflict_detail->0@,
            }),
            old(self).phase is Removing ==> (ev is ActionOk ==> final(self).phase is DeletingBranch && final(self).error is None),
            old(self).phase is DeletingBranch ==> final(self).phase is DeletingState && final(self).error is None,
            old(self).phase is DeletingState ==> (ev is ActionOk ==> final(self).phase is Done
                && final(self).error is None),
            (old(self).phase is CheckingDirty || old(self).phase is GettingDefaultBranch || old(self).phase is FindingTarget || old(self).phase is Removing) ==> (ev matches
                ExitEvent::ActionFailed { detail } ==> final(self).phase is Failed && final(self).error is Some && final(self).error->0@ == (GjErrorV::Backend { detail: detail@ })),
            old(self).phase is DeletingState ==> (ev matches ExitEvent::ActionFailed { detail }
                ==> final(self).phase is Failed && final(self).error is Some && final(self).error->0@ == (GjErrorV::StateError { detail: detail@ })),
            !(old(self).phase is Merging) ==> final(self).merged == old(self).merged,
    {
        match ev {
            ExitEvent::DirtyStatus { dirty } => {
                if self.merge && dirty {
                    self.error = Some(GjError::UncommittedMerge);
                    self.phase = ExitPhase::Failed;
                } else if !self.force && !self.merge && dirty {
                    self.error = Some(GjError::Uncommitted);
                    self.phase = ExitPhase::Failed;
                } else if self.merge {
                    self.phase = ExitPhase::GettingDefaultBranch;
                } else {
                    self.phase = ExitPhase::Removing;
                }
            },
            ExitEvent::DefaultBranch { name } => {
                self.default_branch = Some(name);
                self.phase = ExitPhase::FindingTarget;
            },
            ExitEvent::TargetFound { path } => {
                match path {
                    Some(p) => {
                        self.merge_target = Some(p);
                        self.phase = ExitPhase::Merging;
                    },
                    None => {
                        let branch = match &self.default_branch {
                            Some(b) => b.clone(),
                            None => String::new(),
                        };
                        self.error = Some(GjError::DefaultBranchNotCheckedOut { branch });
                        self.phase = ExitPhase::Failed;
                    },
                }
            },
            ExitEvent::MergeOutcome { conflict, detail } => {
                if conflict {
                    self.conflict_detail = Some(detail);
                    self.phase = ExitPhase::AbortingMerge;
                } else {
                    self.merged = true;
                    self.phase = ExitPhase::Removing;
                }
            },
            ExitEvent::ActionOk => {
                match self.phase {
                    ExitPhase::AbortingMerge => {
                        let detail = match &self.conflict_detail {
                            Some(d) => d.clone(),
                            None => String::new(),
                        };
                        self.error = Some(GjError::MergeConflict { detail });
                        self.phase = ExitPhase::Failed;
                    },
                    ExitPhase::Removing => {
                        self.phase = ExitPhase::DeletingBranch;
                    },
                    ExitPhase::DeletingBranch => {
                        self.phase = ExitPhase::DeletingState;
                    },
                    _ => {
                        self.phase = ExitPhase::Done;
                    },
                }
            },
            ExitEvent::ActionFailed { detail } => {
                match self.phase {
                    ExitPhase::AbortingMerge => {
                        let d = match &self.conflict_detail {
                            Some(d) => d.clone(),
                            None => String::new(),
                        };
                        self.error = Some(GjError::MergeConflict { detail: d });
                        self.phase = ExitPhase::Failed;
                    },
                    ExitPhase::DeletingBranch => {
                        self.phase = ExitPhase::DeletingState;
                    },
                    ExitPhase::DeletingState => {
                        self.error = Some(GjError::StateError { detail });
                        self.phase = ExitPhase::Failed;
                    },
                    _ => {
                        self.error = Some(GjError::Backend { detail });
                        self.phase = ExitPhase::Failed;
                    },
                }
            },
        }
    }

    /// The overall outcome once the flow is finished: the directory the
    /// caller should move to — the merge target after a merge, else the
    /// origin repository — or the error.
    pub fn outcome(self) -> (r: Result<String, GjError>)
        requires
            exit_wf(&self),
            exit_done(&self),
        ensures
            match r {
                Ok(p) => self.phase is Done && (if self.merged {
                    p == self.merge_target->0
                } else {
                    p == self.state->0.origin_repo
                }),
                Err(e) => self.phase is Failed && self.error is Some && e == self.error->0,
            },
    {
        match self.error {
            Some(e) => Err(e),
            None => {
                if self.merged {
                    match self.merge_target {
                        Some(p) => Ok(p),
                        None => Ok(String::new()),
                    }
                } else {
                    match self.state {
                        Some(st) => Ok(st.origin_repo),
                        None => Ok(String::new()),
                    }
                }
            },
        }
    }
}

/// Law: while the create flow is probing the target path it has asked
/// for nothing else, and a positive probe makes it terminal (see
/// [`CreateFlow::step`]), so an occupied target path is reported without
/// a single backend call.
pub proof fn lemma_occupied_path_needs_no_backend(f: &CreateFlow)
    requires
        create_wf(f),
        f.phase is CheckingPath,
    ensures
        spec_create_action(f) is CheckPathExists,
        !destructive(spec_create_action(f)),
{
}

/// Law: a conflicted merge only ever aborts.  In the aborting phase the
/// one requested action is the merge abort — nothing destructive — and
/// whatever the abort reports, the flow fails with the conflict error, so
/// the worktree, the branch and the state record are never touched.
pub proof fn lemma_conflict_aborts_only(f: &ExitFlow)
    requires
        exit_wf(f),
        f.phase is AbortingMerge,
    ensures
        spec_exit_action(f) is AbortMerge,
        !destructive(spec_exit_action(f)),
{
}


} // verus!
