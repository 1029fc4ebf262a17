use vstd::prelude::*;

verus! {

/// How often loading tries to copy an artifact that is not there yet before it
/// gives up.
pub const MAX_COPY_ATTEMPTS: u32 = 1000;

/// The next thing that loading a build does.
#[derive(Clone, Copy, Debug, PartialEq, Eq, Structural)]
pub enum LoadAction {
    /// Hand the private copy to the loading primitive.
    LoadCopy,
    /// Create the private copy's directory and copy the artifact into it.
    CopyArtifact,
    /// Report the copy's I/O error.
    Fail,
}

/// How an attempt to copy the artifact to its private path ended.
#[derive(Clone, Copy, Debug, PartialEq, Eq, Structural)]
pub enum CopyOutcome {
    /// The private copy is in place.
    Copied,
    /// The artifact is not on disk yet.
    SourceMissing,
    /// Any other I/O error.
    Failed,
}

/// What loading does first: a private copy that is already there is loaded as it
/// is, else the artifact is copied.
pub open spec fn load_action_of(copy_present: bool) -> LoadAction {
    if copy_present {
        LoadAction::LoadCopy
    } else {
        LoadAction::CopyArtifact
    }
}

/// What loading does first, given whether the private copy is on disk.
pub fn load_action(copy_present: bool) -> (r: LoadAction)
    ensures
        r == load_action_of(copy_present),
{
    if copy_present {
        LoadAction::LoadCopy
    } else {
        LoadAction::CopyArtifact
    }
}

/// What loading does after its `attempts`-th copy attempt ended in `outcome`: a
/// missing artifact is tried again, up to `MAX_COPY_ATTEMPTS` attempts in all; any
/// other error ends the load.
pub fn after_copy(outcome: CopyOutcome, attempts: u32) -> (r: LoadAction)
    ensures
        r == match outcome {
            CopyOutcome::Copied => LoadAction::LoadCopy,
            CopyOutcome::SourceMissing => if attempts < MAX_COPY_ATTEMPTS {
                LoadAction::CopyArtifact
            } else {
                LoadAction::Fail
            },
            CopyOutcome::Failed => LoadAction::Fail,
        },
{
    match outcome {
        CopyOutcome::Copied => LoadAction::LoadCopy,
        CopyOutcome::SourceMissing => {
            if attempts < MAX_COPY_ATTEMPTS {
                LoadAction::CopyArtifact
            } else {
                LoadAction::Fail
            }
        },
        CopyOutcome::Failed => LoadAction::Fail,
    }
}

/// A step of tearing down a loaded private copy.
#[derive(Clone, Copy, Debug, PartialEq, Eq, Structural)]
pub enum DisposalStep {
    /// Release the loaded-code handle.
    ReleaseHandle,
    /// Delete the private copy, ignoring a failure to do so.
    RemoveFile,
}

/// Where a loaded private copy stands: whether its handle is still held and
/// whether its file is still meant to be on disk.
#[derive(Clone, Copy, Debug, PartialEq, Eq, Structural)]
pub struct CopyLifecycle {
    pub handle_held: bool,
    pub file_present: bool,
}

/// The step that comes next from `c`: the handle goes first, then the file.
pub open spec fn next_step_of(c: CopyLifecycle) -> Option<DisposalStep> {
    if c.handle_held {
        Some(DisposalStep::ReleaseHandle)
    } else if c.file_present {
        Some(DisposalStep::RemoveFile)
    } else {
        None
    }
}

/// The state that `step` leads to from `c`.
pub open spec fn after_step_of(c: CopyLifecycle, step: DisposalStep) -> CopyLifecycle {
    match step {
        DisposalStep::ReleaseHandle => CopyLifecycle { handle_held: false, ..c },
        DisposalStep::RemoveFile => CopyLifecycle { file_present: false, ..c },
    }
}

impl CopyLifecycle {
    /// The file behind a handle stays on disk as long as the handle is held.
    pub open spec fn wf(self) -> bool {
        self.handle_held ==> self.file_present
    }

    /// A freshly loaded copy: handle held, file on disk.
    pub fn loaded() -> (r: CopyLifecycle)
        ensures
            r.handle_held,
            r.file_present,
            r.wf(),
    {
        CopyLifecycle { handle_held: true, file_present: true }
    }

    /// The next step of the teardown, if any is left.
    pub fn next_step(&self) -> (r: Option<DisposalStep>)
        ensures
            r == next_step_of(*self),
    {
        if self.handle_held {
            Some(DisposalStep::ReleaseHandle)
        } else if self.file_present {
            Some(DisposalStep::RemoveFile)
        } else {
            None
        }
    }

    /// Records that `step`, the next one, was taken.
    pub fn apply(&mut self, step: DisposalStep)
        requires
            old(self).wf(),
            next_step_of(*old(self)) == Some(step),
        ensures
            *final(self) == after_step_of(*old(self), step),
            final(self).wf(),
    {
        match step {
            DisposalStep::ReleaseHandle => {
                self.handle_held = false;
            },
            DisposalStep::RemoveFile => {
                self.file_present = false;
            },
        }
    }
}

} // verus!
