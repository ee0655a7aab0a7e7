//! The order in which a job's files are written and its source removed.
//!
//! The caller does the writing and removing; this module decides what comes
//! next from how the last step went.

use vstd::prelude::*;
use crate::error::CropError;

verus! {

/// How far a job has come with its files.
#[derive(Clone, Copy, Debug, PartialEq, Eq, Structural)]
pub enum Stage {
    /// Nothing is written yet.
    Ready,
    /// The cropped image is written.
    CroppedWritten,
    /// The cropped image and the archive copy are written.
    Archived,
    /// Both files are written and the source is removed.
    Finished,
    /// Both files are written; the source was gone already.
    FinishedSourceMissing,
    /// A file could not be written; the source is left where it is.
    Abandoned,
}

/// What the caller is to do next.
#[derive(Clone, Copy, Debug, PartialEq, Eq, Structural)]
pub enum Action {
    /// Write the cropped image into the results directory.
    WriteCropped,
    /// Write the archive copy into the processed directory.
    WriteArchive,
    /// Remove the source file if it is still there.
    RemoveSource,
    /// Nothing: the job is over.
    Stop,
}

/// The step that a stage asks for.
pub open spec fn action_of(stage: Stage) -> Action {
    match stage {
        Stage::Ready => Action::WriteCropped,
        Stage::CroppedWritten => Action::WriteArchive,
        Stage::Archived => Action::RemoveSource,
        Stage::Finished => Action::Stop,
        Stage::FinishedSourceMissing => Action::Stop,
        Stage::Abandoned => Action::Stop,
    }
}

/// The stage after the step that `stage` asked for. `done` says that the
/// file was written, or, for the removal, that the source was still there
/// and is removed.
pub open spec fn advanced(stage: Stage, done: bool) -> Stage {
    match stage {
        Stage::Ready => if done {
            Stage::CroppedWritten
        } else {
            Stage::Abandoned
        },
        Stage::CroppedWritten => if done {
            Stage::Archived
        } else {
            Stage::Abandoned
        },
        Stage::Archived => if done {
            Stage::Finished
        } else {
            Stage::FinishedSourceMissing
        },
        Stage::Finished => Stage::Finished,
        Stage::FinishedSourceMissing => Stage::FinishedSourceMissing,
        Stage::Abandoned => Stage::Abandoned,
    }
}

/// What a job that is over reports: success, or the failure to write.
/// A source that was gone at removal is no failure.
pub open spec fn verdict(stage: Stage) -> Option<Result<(), CropError>> {
    match stage {
        Stage::Finished => Some(Ok(())),
        Stage::FinishedSourceMissing => Some(Ok(())),
        Stage::Abandoned => Some(Err(CropError::Write)),
        _ => None,
    }
}

/// The stage that a job reaches from `stage` when its steps go as `steps` say.
pub open spec fn stage_after(stage: Stage, steps: Seq<bool>) -> Stage
    decreases steps.len(),
{
    if steps.len() == 0 {
        stage
    } else {
        stage_after(advanced(stage, steps[0]), steps.drop_first())
    }
}

/// A job that is over stays as it is, whatever is reported to it.
pub proof fn law_over_is_final(stage: Stage, steps: Seq<bool>)
    requires
        action_of(stage) == Action::Stop,
    ensures
        stage_after(stage, steps) == stage,
    decreases steps.len(),
{
    if steps.len() > 0 {
        law_over_is_final(advanced(stage, steps[0]), steps.drop_first());
    }
}

/// The source is removed only after both files were written: whenever a job
/// that started afresh is asked to remove its source, or has done so, its
/// first two steps, the two writes, succeeded. And a job one of whose writes
/// failed ends abandoned, with the failure to write as its report.
pub proof fn law_removal_follows_both_writes(steps: Seq<bool>)
    ensures
        ({
            let end = stage_after(Stage::Ready, steps);
            &&& (end == Stage::Archived || end == Stage::Finished || end
                == Stage::FinishedSourceMissing) ==> steps.len() >= 2 && steps[0] && steps[1]
            &&& (steps.len() >= 1 && !steps[0]) || (steps.len() >= 2 && !steps[1]) ==> end
                == Stage::Abandoned
        }),
{
    if steps.len() >= 1 {
        let rest = steps.drop_first();
        if !steps[0] {
            law_over_is_final(Stage::Abandoned, rest);
        } else if rest.len() >= 1 {
            let tail = rest.drop_first();
            assert(rest[0] == steps[1]);
            assert(stage_after(Stage::CroppedWritten, rest) == stage_after(
                advanced(Stage::CroppedWritten, rest[0]),
                tail,
            ));
            if !rest[0] {
                law_over_is_final(Stage::Abandoned, tail);
            }
        } else {
            assert(stage_after(Stage::CroppedWritten, rest) == Stage::CroppedWritten);
        }
    }
}

impl Stage {
    /// The stage of a job whose output is computed and not yet written.
    pub fn start() -> (r: Stage)
        ensures
            r == Stage::Ready,
    {
        Stage::Ready
    }

    /// The step to take at this stage.
    pub fn action(&self) -> (r: Action)
        ensures
            r == action_of(*self),
    {
        match self {
            Stage::Ready => Action::WriteCropped,
            Stage::CroppedWritten => Action::WriteArchive,
            Stage::Archived => Action::RemoveSource,
            Stage::Finished => Action::Stop,
            Stage::FinishedSourceMissing => Action::Stop,
            Stage::Abandoned => Action::Stop,
        }
    }

    /// The stage after the step was taken. `done` says that the file was
    /// written, or, for the removal, that the source was still there and is
    /// removed.
    pub fn advance(self, done: bool) -> (r: Stage)
        ensures
            r == advanced(self, done),
    {
        match self {
            Stage::Ready => if done {
                Stage::CroppedWritten
            } else {
                Stage::Abandoned
            },
            Stage::CroppedWritten => if done {
                Stage::Archived
            } else {
                Stage::Abandoned
            },
            Stage::Archived => if done {
                Stage::Finished
            } else {
                Stage::FinishedSourceMissing
            },
            Stage::Finished => Stage::Finished,
            Stage::FinishedSourceMissing => Stage::FinishedSourceMissing,
            Stage::Abandoned => Stage::Abandoned,
        }
    }

    /// What the job reports once it is over; `None` while steps remain.
    pub fn report(&self) -> (r: Option<Result<(), CropError>>)
        ensures
            r == verdict(*self),
            r is None <==> action_of(*self) != Action::Stop,
    {
        match self {
            Stage::Finished => Some(Ok(())),
            Stage::FinishedSourceMissing => Some(Ok(())),
            Stage::Abandoned => Some(Err(CropError::Write)),
            _ => None,
        }
    }
}

} // verus!
