//! The errors a run can end with.

use vstd::prelude::*;

verus! {

/// Why the two directories given on the command line were refused.
#[derive(Debug, Clone, Copy, PartialEq, Eq, Structural)]
pub enum InvalidInput {
    /// The source does not exist or is not a directory.
    NotADirectory,
    /// Source and destination are the same location.
    SamePath,
}

impl InvalidInput {
    /// The sentence that tells the user why the directories were refused.
    pub fn message(&self) -> (message: &'static str)
        ensures
            message@ == match self {
                InvalidInput::NotADirectory => "Input directory is not a directory."@,
                InvalidInput::SamePath => "Output and input directory were the same."@,
            },
    {
        match self {
            InvalidInput::NotADirectory => "Input directory is not a directory.",
            InvalidInput::SamePath => "Output and input directory were the same.",
        }
    }
}

/// The step of a run at which the file system reported a failure.
#[derive(Debug, Clone, Copy, PartialEq, Eq, Structural)]
pub enum Stage {
    /// Reading the entries of the source directory.
    ReadDir,
    /// Creating the destination directory.
    CreateDir,
    /// Copying a selected file to the destination.
    Copy,
    /// Deleting the source of a moved file.
    Delete,
}

/// A failed file system operation: where it happened and what the
/// operating system said about it.
#[derive(Debug, PartialEq, Eq)]
pub struct IoFailure {
    /// The step that failed.
    pub stage: Stage,
    /// The position in the plan of the action that failed, for the steps
    /// that belong to one action.
    pub action: Option<usize>,
    /// The reason as reported by the operating system.
    pub reason: String,
}

/// The mathematical value of an [`IoFailure`].
pub struct IoFailureView {
    pub stage: Stage,
    pub action: Option<usize>,
    pub reason: Seq<char>,
}

impl View for IoFailure {
    type V = IoFailureView;

    open spec fn view(&self) -> IoFailureView {
        IoFailureView { stage: self.stage, action: self.action, reason: self.reason@ }
    }
}

impl Clone for IoFailure {
    fn clone(&self) -> (copy: Self)
        ensures
            copy == *self,
    {
        IoFailure { stage: self.stage, action: self.action, reason: self.reason.clone() }
    }
}

/// Everything that can make a run fail.
#[derive(Debug, PartialEq, Eq)]
pub enum RandSelectError {
    /// The directories were refused before anything was read.
    InvalidInput(InvalidInput),
    /// The file system reported a failure.
    IoError(IoFailure),
}

/// The mathematical value of a [`RandSelectError`].
pub enum RandSelectErrorView {
    InvalidInput(InvalidInput),
    IoError(IoFailureView),
}

impl View for RandSelectError {
    type V = RandSelectErrorView;

    open spec fn view(&self) -> RandSelectErrorView {
        match self {
            RandSelectError::InvalidInput(kind) => RandSelectErrorView::InvalidInput(*kind),
            RandSelectError::IoError(failure) => RandSelectErrorView::IoError(failure@),
        }
    }
}

impl RandSelectError {
    /// The sentence that tells the user what went wrong: for refused
    /// directories the reason of the refusal, for a failure of the file
    /// system the reason that was reported.
    pub fn message(&self) -> (message: String)
        ensures
            message@ == match self@ {
                RandSelectErrorView::InvalidInput(InvalidInput::NotADirectory) =>
                    "Input directory is not a directory."@,
                RandSelectErrorView::InvalidInput(InvalidInput::SamePath) =>
                    "Output and input directory were the same."@,
                RandSelectErrorView::IoError(failure) => failure.reason,
            },
    {
        match self {
            RandSelectError::InvalidInput(kind) => kind.message().to_owned(),
            RandSelectError::IoError(failure) => failure.reason.clone(),
        }
    }
}

impl Clone for RandSelectError {
    fn clone(&self) -> (copy: Self)
        ensures
            copy == *self,
    {
        match self {
            RandSelectError::InvalidInput(kind) => RandSelectError::InvalidInput(*kind),
            RandSelectError::IoError(failure) => RandSelectError::IoError(failure.clone()),
        }
    }
}

} // verus!
