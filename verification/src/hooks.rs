//! The hook-execution pipeline.
//!
//! The library decides; the caller acts.  A [`HookPipeline`] turns an
//! ordered hook list into resolved actions, hands them out one at a time,
//! and absorbs the outcome of each: hooks run strictly in order, a
//! missing optional copy source is skipped silently, and the first real
//! failure stops everything after it.

use vstd::prelude::*;
use crate::config::{Hook, HookV};
use crate::errors::{GjError, GjErrorV};
use crate::new::join_path;
use vstd::string::StringExecFns;

verus! {

/// One resolved automation step against a concrete worktree.
pub enum HookAction {
    /// Copy a file from the origin repository into the worktree.
    CopyFile { source: String, dest: String, required: bool },
    /// Run a shell command inside the worktree.
    RunCommand { command: String, workdir: String },
}

/// The mathematical value of a [`HookAction`].
pub enum HookActionV {
    CopyFile { source: Seq<char>, dest: Seq<char>, required: bool },
    RunCommand { command: Seq<char>, workdir: Seq<char> },
}

impl View for HookAction {
    type V = HookActionV;

    open spec fn view(&self) -> HookActionV {
        match self {
            HookAction::CopyFile { source, dest, required } => HookActionV::CopyFile {
                source: source@,
                dest: dest@,
                required: *required,
            },
            HookAction::RunCommand { command, workdir } => HookActionV::RunCommand {
                command: command@,
                workdir: workdir@,
            },
        }
    }
}

/// The action a hook resolves to: the copy source below the origin
/// repository, the destination below the worktree (under the alternative
/// name when one is given), or the command with the worktree as its
/// working directory.
pub open spec fn spec_resolve_hook(h: HookV, origin: Seq<char>, workspace: Seq<char>) -> HookActionV {
    match h {
        HookV::Copy { from, to, required } => HookActionV::CopyFile {
            source: origin + "/"@ + from,
            dest: workspace + "/"@ + (if to is Some {
                to->0
            } else {
                from
            }),
            required: required,
        },
        HookV::Run { command } => HookActionV::RunCommand { command: command, workdir: workspace },
    }
}

/// Resolves one hook against an (origin, worktree) pair.
pub fn resolve_hook(h: &Hook, origin: &str, workspace: &str) -> (r: HookAction)
    ensures
        r@ == spec_resolve_hook(h@, origin@, workspace@),
{
    match h {
        Hook::Copy { from, to, required } => {
            let source = join_path(origin, from.as_str());
            let dest = match to {
                Some(t) => join_path(workspace, t.as_str()),
                None => join_path(workspace, from.as_str()),
            };
            HookAction::CopyFile { source, dest, required: *required }
        },
        Hook::Run { command } => HookAction::RunCommand {
            command: command.clone(),
            workdir: String::from_str(workspace),
        },
    }
}

/// What the caller observed while performing one action.
pub enum HookEvent {
    /// The action completed.
    Succeeded,
    /// The copy source does not exist.
    SourceMissing,
    /// The copy itself failed; the caller's description of the failure.
    CopyFailed { detail: String },
    /// The command exited with a non-zero status.
    CommandFailed,
}

/// Which events may be reported for which action.
pub open spec fn event_fits(a: HookActionV, ev: HookEvent) -> bool {
    match ev {
        HookEvent::Succeeded => true,
        HookEvent::SourceMissing => a is CopyFile,
        HookEvent::CopyFailed { detail } => a is CopyFile,
        HookEvent::CommandFailed => a is RunCommand,
    }
}

/// The ordered hook actions for one freshly created worktree, with the
/// position of the next action to perform and the first failure, if one
/// happened.
pub struct HookPipeline {
    /// The resolved actions, in execution order.
    pub actions: Vec<HookAction>,
    /// How many actions have been disposed of.
    pub next: usize,
    /// The failure that stopped the pipeline, if any.
    pub failure: Option<GjError>,
}

/// Well-formedness of a pipeline.
pub open spec fn pipeline_wf(p: &HookPipeline) -> bool {
    p.next <= p.actions@.len()
}

/// Whether the pipeline has nothing left to do.
pub open spec fn pipeline_done(p: &HookPipeline) -> bool {
    p.next == p.actions@.len() || p.failure is Some
}

impl HookPipeline {
    /// Resolves an effective hook list (see
    /// [`crate::config::Config::get_hooks`]) into a fresh pipeline.
    pub fn start(hooks: &Vec<Hook>, origin: &str, workspace: &str) -> (r: HookPipeline)
        ensures
            pipeline_wf(&r),
            r.actions@.len() == hooks@.len(),
            forall|i: int|
                0 <= i < hooks@.len() ==> (#[trigger] r.actions@[i])@ == spec_resolve_hook(
                    hooks@[i]@,
                    origin@,
                    workspace@,
                ),
            r.next == 0,
            r.failure is None,
    {
        let mut actions: Vec<HookAction> = Vec::new();
        let mut i: usize = 0;
        while i < hooks.len()
            invariant
                i <= hooks@.len(),
                actions@.len() == i,
                forall|k: int|
                    0 <= k < i ==> (#[trigger] actions@[k])@ == spec_resolve_hook(
                        hooks@[k]@,
                        origin@,
                        workspace@,
                    ),
            decreases hooks@.len() - i,
        {
            let a = resolve_hook(&hooks[i], origin, workspace);
            actions.push(a);
            i = i + 1;
        }
        HookPipeline { actions, next: 0, failure: None }
    }

    /// The action to perform now, or nothing when the pipeline is done.
    pub fn current_action<'a>(&'a self) -> (r: Option<&'a HookAction>)
        requires
            pipeline_wf(self),
        ensures
            match r {
                Some(a) => !pipeline_done(self) && a@ == self.actions@[self.next as int]@,
                None => pipeline_done(self),
            },
    {
        if self.next < self.actions.len() && self.failure.is_none() {
            Some(&self.actions[self.next])
        } else {
            None
        }
    }

    /// Absorbs the outcome of the current action: success moves on, a
    /// missing source is skipped for an optional copy and fatal for a
    /// required one, and any other failure stops the pipeline with the
    /// matching error.
    pub fn report(&mut self, ev: HookEvent)
        requires
            pipeline_wf(old(self)),
            !pipeline_done(old(self)),
            event_fits(old(self).actions@[old(self).next as int]@, ev),
        ensures
            pipeline_wf(final(self)),
            final(self).actions == old(self).actions,
            ({
                let a = old(self).actions@[old(self).next as int]@;
                match ev {
                    HookEvent::Succeeded => final(self).next == old(self).next + 1
                        && final(self).failure is None,
                    HookEvent::SourceMissing => {
                        &&& a is CopyFile
                        &&& a->CopyFile_required ==> final(self).next == old(self).next
                            && final(self).failure is Some && final(self).failure->0@
                            == (GjErrorV::HookRequiredFileMissing { source: a->CopyFile_source })
                        &&& !a->CopyFile_required ==> final(self).next == old(self).next + 1
                            && final(self).failure is None
                    },
                    HookEvent::CopyFailed { detail } => final(self).next == old(self).next
                        && final(self).failure is Some && final(self).failure->0@
                        == (GjErrorV::HookCopyFailed { detail: detail@ }),
                    HookEvent::CommandFailed => final(self).next == old(self).next
                        && final(self).failure is Some && final(self).failure->0@
                        == (GjErrorV::HookCommandFailed { command: a->RunCommand_command }),
                }
            }),
    {
        let n = self.actions.len();
        assert(self.next < n);
        match ev {
            HookEvent::Succeeded => {
                self.next = self.next + 1;
            },
            HookEvent::SourceMissing => {
                let (required, source) = match &self.actions[self.next] {
                    HookAction::CopyFile { source, dest, required } => (*required, source.clone()),
                    HookAction::RunCommand { command, workdir } => (false, String::new()),
                };
                if required {
                    self.failure = Some(GjError::HookRequiredFileMissing { source });
                } else {
                    self.next = self.next + 1;
                }
            },
            HookEvent::CopyFailed { detail } => {
                self.failure = Some(GjError::HookCopyFailed { detail });
            },
            HookEvent::CommandFailed => {
                let command = match &self.actions[self.next] {
                    HookAction::RunCommand { command, workdir } => command.clone(),
                    HookAction::CopyFile { source, dest, required } => String::new(),
                };
                self.failure = Some(GjError::HookCommandFailed { command });
            },
        }
    }

    /// The overall outcome once the pipeline is done: the first failure,
    /// or success when every hook went through.
    pub fn outcome(self) -> (r: Option<GjError>)
        requires
            pipeline_wf(&self),
            pipeline_done(&self),
        ensures
            match r {
                Some(e) => self.failure is Some && e == self.failure->0,
                None => self.failure is None && self.next == self.actions@.len(),
            },
    {
        self.failure
    }
}

/// Law: a failed pipeline is finished — after a failure no further action
/// is handed out, so the hooks after the failing one never run.
pub proof fn lemma_failure_stops_pipeline(p: &HookPipeline)
    requires
        p.failure is Some,
    ensures
        pipeline_done(p),
{
}

} // verus!
