//! The decisions of a run that sit between I/O operations: where each input's
//! text goes, and the strict order of an in-place edit, in which every step
//! must succeed before the next one touches the file system.
use vstd::prelude::*;

use crate::error::SubError;
use crate::job::Input;

verus! {

/// Where the text of one input goes.
#[derive(Debug, Clone, Copy, PartialEq, Eq, Structural)]
pub enum Route {
    /// The input is a directory: a warning is printed and the input skipped.
    SkipDirectory,
    /// The text goes to standard output; through a buffer unless the output
    /// is an interactive terminal.
    ToOutput { buffered: bool },
    /// The file is rewritten in place.
    InPlace,
}

/// The route of one input. Standard input always goes to standard output;
/// a file that is a directory is skipped; other files are rewritten in place
/// in in-place mode and go to standard output otherwise.
pub open spec fn route_of(
    input: Input,
    in_place: bool,
    is_directory: bool,
    output_is_terminal: bool,
) -> Route {
    match input {
        Input::StdIn => Route::ToOutput { buffered: !output_is_terminal },
        Input::File(_) => {
            if is_directory {
                Route::SkipDirectory
            } else if in_place {
                Route::InPlace
            } else {
                Route::ToOutput { buffered: !output_is_terminal }
            }
        },
    }
}

/// Decides the route of one input, given whether its path names a directory
/// and whether standard output is an interactive terminal.
pub fn route(input: &Input, in_place: bool, is_directory: bool, output_is_terminal: bool) -> (r:
    Route)
    ensures
        r == route_of(*input, in_place, is_directory, output_is_terminal),
{
    match input {
        Input::StdIn => Route::ToOutput { buffered: !output_is_terminal },
        Input::File(_) => {
            if is_directory {
                Route::SkipDirectory
            } else if in_place {
                Route::InPlace
            } else {
                Route::ToOutput { buffered: !output_is_terminal }
            }
        },
    }
}

/// The steps of an in-place edit, in the order they run.
#[derive(Debug, Clone, Copy, PartialEq, Eq, Structural)]
pub enum EditStep {
    /// Open the original file for reading.
    OpenOriginal,
    /// Create a fresh temporary file, away from the original path.
    CreateTemp,
    /// Transcode the original into the temporary file.
    Transcode,
    /// Flush and close the temporary file's writer.
    CloseTemp,
    /// Read the original file's permissions.
    ReadPermissions,
    /// Give the temporary file those permissions.
    ApplyPermissions,
    /// Copy the temporary file over the original: the commit. From here on
    /// the original is being overwritten; a copy is not atomic, so an
    /// interruption may leave it partly rewritten.
    CopyBack,
    /// The edit is complete.
    Finished,
}

/// The step that follows `step`.
pub open spec fn step_after(step: EditStep) -> EditStep {
    match step {
        EditStep::OpenOriginal => EditStep::CreateTemp,
        EditStep::CreateTemp => EditStep::Transcode,
        EditStep::Transcode => EditStep::CloseTemp,
        EditStep::CloseTemp => EditStep::ReadPermissions,
        EditStep::ReadPermissions => EditStep::ApplyPermissions,
        EditStep::ApplyPermissions => EditStep::CopyBack,
        EditStep::CopyBack => EditStep::Finished,
        EditStep::Finished => EditStep::Finished,
    }
}

/// The position of a step in the edit.
pub open spec fn step_rank(step: EditStep) -> nat {
    match step {
        EditStep::OpenOriginal => 0,
        EditStep::CreateTemp => 1,
        EditStep::Transcode => 2,
        EditStep::CloseTemp => 3,
        EditStep::ReadPermissions => 4,
        EditStep::ApplyPermissions => 5,
        EditStep::CopyBack => 6,
        EditStep::Finished => 7,
    }
}

/// Whether `e` is the error that names a failure of `step`.
pub open spec fn failure_of(step: EditStep, e: SubError) -> bool {
    match step {
        EditStep::OpenOriginal => e is CouldNotOpenFile,
        EditStep::CreateTemp => e is CouldNotCreateTempFile,
        EditStep::Transcode => e is FailedToWrite,
        EditStep::CloseTemp => e is FailedToWrite,
        EditStep::ReadPermissions => e is CouldNotReadMetadata,
        EditStep::ApplyPermissions => e is CouldNotSetPermissions,
        EditStep::CopyBack => e is CouldNotModifyInplace,
        EditStep::Finished => false,
    }
}

impl EditStep {
    /// Moves past this step given the outcome of its I/O: on success to the
    /// next step, on failure to the error that names this step, and no
    /// further.
    pub fn advance(self, outcome: Result<(), std::io::Error>) -> (r: Result<EditStep, SubError>)
        requires
            self != EditStep::Finished,
        ensures
            outcome is Ok ==> r == Ok::<EditStep, SubError>(step_after(self)),
            outcome is Err ==> (r matches Err(e) && failure_of(self, e)),
    {
        match outcome {
            Ok(()) => Ok(
                match self {
                    EditStep::OpenOriginal => EditStep::CreateTemp,
                    EditStep::CreateTemp => EditStep::Transcode,
                    EditStep::Transcode => EditStep::CloseTemp,
                    EditStep::CloseTemp => EditStep::ReadPermissions,
                    EditStep::ReadPermissions => EditStep::ApplyPermissions,
                    EditStep::ApplyPermissions => EditStep::CopyBack,
                    EditStep::CopyBack => EditStep::Finished,
                    EditStep::Finished => EditStep::Finished,
                },
            ),
            Err(cause) => Err(
                match self {
                    EditStep::OpenOriginal => SubError::CouldNotOpenFile(cause),
                    EditStep::CreateTemp => SubError::CouldNotCreateTempFile(cause),
                    EditStep::Transcode => SubError::FailedToWrite(cause),
                    EditStep::CloseTemp => SubError::FailedToWrite(cause),
                    EditStep::ReadPermissions => SubError::CouldNotReadMetadata(cause),
                    EditStep::ApplyPermissions => SubError::CouldNotSetPermissions(cause),
                    EditStep::CopyBack => SubError::CouldNotModifyInplace(cause),
                    EditStep::Finished => SubError::CouldNotModifyInplace(cause),
                },
            ),
        }
    }
}

/// The steps run in a fixed order: each success moves exactly one step on,
/// so the original file is touched (at `CopyBack`) only after every earlier
/// step has succeeded.
pub proof fn lemma_steps_in_order(step: EditStep)
    requires
        step != EditStep::Finished,
    ensures
        step_rank(step_after(step)) == step_rank(step) + 1,
        step_rank(step) < step_rank(EditStep::CopyBack) ==> step_after(step) != EditStep::Finished,
{
}

/// A directory among the inputs is skipped, never transcoded or edited.
pub proof fn lemma_directory_skipped(
    path: String,
    in_place: bool,
    output_is_terminal: bool,
)
    ensures
        route_of(Input::File(path), in_place, true, output_is_terminal) == Route::SkipDirectory,
{
}

} // verus!
