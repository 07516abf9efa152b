//! What can go wrong, and how a run ends.

use vstd::prelude::*;
use crate::views::{option_view, result_view};

verus! {

/// Why the operating system refused a request, as far as the rules here care.
#[derive(Clone, Copy, Debug, PartialEq, Eq, Structural)]
pub enum FailureKind {
    /// The thing asked for is not there.
    NotFound,
    /// The caller may not do what it asked.
    PermissionDenied,
    /// Anything else.
    Other,
}

/// A request that the operating system refused.
#[derive(Debug, PartialEq, Eq)]
pub struct Failure {
    pub kind: FailureKind,
    /// The operating system's own words.
    pub message: String,
}

/// A [`Failure`] with its text as a sequence of characters.
pub struct FailureView {
    pub kind: FailureKind,
    pub message: Seq<char>,
}

impl View for Failure {
    type V = FailureView;

    open spec fn view(&self) -> FailureView {
        FailureView { kind: self.kind, message: self.message@ }
    }
}

/// The ways in which an operation on a project fails.
#[derive(Debug, PartialEq, Eq)]
pub enum ProjectError {
    /// Neither a name nor a path says where the project is to be.
    Usage,
    /// The place for a new project is taken.
    PathAlreadyExists { path: String },
    /// There is no project of that name.
    PathNotFound { name: String },
    /// The directory could not be created or removed. `notice` is the line
    /// that says so, `cause` the operating system's message.
    FilesystemOperationFailed { notice: String, cause: String },
    /// The process that was to source the activation script did not start.
    ProcessSpawnFailed { kind: FailureKind },
}

/// A [`ProjectError`] with its texts as sequences of characters.
pub enum ProjectErrorView {
    Usage,
    PathAlreadyExists { path: Seq<char> },
    PathNotFound { name: Seq<char> },
    FilesystemOperationFailed { notice: Seq<char>, cause: Seq<char> },
    ProcessSpawnFailed { kind: FailureKind },
}

impl View for ProjectError {
    type V = ProjectErrorView;

    open spec fn view(&self) -> ProjectErrorView {
        match self {
            ProjectError::Usage => ProjectErrorView::Usage,
            ProjectError::PathAlreadyExists { path } => ProjectErrorView::PathAlreadyExists {
                path: path@,
            },
            ProjectError::PathNotFound { name } => ProjectErrorView::PathNotFound { name: name@ },
            ProjectError::FilesystemOperationFailed {
                notice,
                cause,
            } => ProjectErrorView::FilesystemOperationFailed { notice: notice@, cause: cause@ },
            ProjectError::ProcessSpawnFailed { kind } => ProjectErrorView::ProcessSpawnFailed {
                kind: *kind,
            },
        }
    }
}

/// How the process ends.
#[derive(Debug, PartialEq, Eq)]
pub enum Termination {
    /// It exits with this status.
    Exit { code: i32 },
    /// It terminates abnormally, with this message on standard error.
    Abort { message: String },
}

/// A [`Termination`] with its text as a sequence of characters.
pub enum TerminationView {
    Exit { code: i32 },
    Abort { message: Seq<char> },
}

impl View for Termination {
    type V = TerminationView;

    open spec fn view(&self) -> TerminationView {
        match self {
            Termination::Exit { code } => TerminationView::Exit { code: *code },
            Termination::Abort { message } => TerminationView::Abort { message: message@ },
        }
    }
}

/// The last things a run does: it prints `line`, if there is one, and ends
/// as `end` says.
#[derive(Debug, PartialEq, Eq)]
pub struct Ending {
    pub line: Option<String>,
    pub end: Termination,
}

/// An [`Ending`] with its texts as sequences of characters.
pub struct EndingView {
    pub line: Option<Seq<char>>,
    pub end: TerminationView,
}

impl View for Ending {
    type V = EndingView;

    open spec fn view(&self) -> EndingView {
        EndingView {
            line: option_view(self.line),
            end: self.end@,
        }
    }
}

/// The status of a run that did what it was asked.
pub const EXIT_SUCCESS: i32 = 0;

/// The status of a run that reported an error.
pub const EXIT_FAILURE: i32 = 1;

/// The status of a run that was not told what to do.
pub const EXIT_USAGE: i32 = 2;

/// The line that reports a program which did not start.
pub open spec fn spawn_failure_line(kind: FailureKind) -> Seq<char> {
    match kind {
        FailureKind::NotFound => "Failed to activate the virtualenv: not found"@,
        FailureKind::PermissionDenied => "Failed to activate the virtualenv: permission denied"@,
        FailureKind::Other => "Failed to activate the virtualenv"@,
    }
}

impl ProjectErrorView {
    /// How a run ends on this error.
    ///
    /// A missing project and a program that did not start are reported in a
    /// line, and the run exits with [`EXIT_FAILURE`]. The others end the run
    /// abnormally: a missing target and a taken path with their own message,
    /// a refused directory operation with the operating system's message,
    /// after the line that says what failed.
    pub open spec fn ending(self) -> EndingView {
        match self {
            ProjectErrorView::Usage => EndingView {
                line: None,
                end: TerminationView::Abort { message: "Either a name or path must be given"@ },
            },
            ProjectErrorView::PathAlreadyExists { path } => EndingView {
                line: None,
                end: TerminationView::Abort { message: path + " already exists"@ },
            },
            ProjectErrorView::PathNotFound { name } => EndingView {
                line: Some(name + " is not a project"@),
                end: TerminationView::Exit { code: EXIT_FAILURE },
            },
            ProjectErrorView::FilesystemOperationFailed { notice, cause } => EndingView {
                line: Some(notice),
                end: TerminationView::Abort { message: cause },
            },
            ProjectErrorView::ProcessSpawnFailed { kind } => EndingView {
                line: Some(spawn_failure_line(kind)),
                end: TerminationView::Exit { code: EXIT_FAILURE },
            },
        }
    }
}

/// How a run ends on the outcome of its operation: on success it prints the
/// line and exits with [`EXIT_SUCCESS`], on an error as
/// [`ProjectErrorView::ending`] says.
pub open spec fn ending_of(outcome: Result<Seq<char>, ProjectErrorView>) -> EndingView {
    match outcome {
        Ok(line) => EndingView {
            line: Some(line),
            end: TerminationView::Exit { code: EXIT_SUCCESS },
        },
        Err(e) => e.ending(),
    }
}

impl ProjectError {
    /// How a run ends on this error: see [`ProjectErrorView::ending`].
    pub fn ending(self) -> (r: Ending)
        ensures
            r@ == self@.ending(),
    {
        match self {
            ProjectError::Usage => Ending {
                line: None,
                end: Termination::Abort {
                    message: String::from_str("Either a name or path must be given"),
                },
            },
            ProjectError::PathAlreadyExists { path } => Ending {
                line: None,
                end: Termination::Abort { message: path.concat(" already exists") },
            },
            ProjectError::PathNotFound { name } => Ending {
                line: Some(name.concat(" is not a project")),
                end: Termination::Exit { code: EXIT_FAILURE },
            },
            ProjectError::FilesystemOperationFailed { notice, cause } => Ending {
                line: Some(notice),
                end: Termination::Abort { message: cause },
            },
            ProjectError::ProcessSpawnFailed { kind } => {
                let line = match kind {
                    FailureKind::NotFound => String::from_str(
                        "Failed to activate the virtualenv: not found",
                    ),
                    FailureKind::PermissionDenied => String::from_str(
                        "Failed to activate the virtualenv: permission denied",
                    ),
                    FailureKind::Other => String::from_str("Failed to activate the virtualenv"),
                };
                Ending { line: Some(line), end: Termination::Exit { code: EXIT_FAILURE } }
            },
        }
    }
}

/// Ends a run on the outcome of its operation: see [`ending_of`].
pub fn ending(outcome: Result<String, ProjectError>) -> (r: Ending)
    ensures
        r@ == ending_of(result_view(outcome)),
{
    match outcome {
        Ok(line) => Ending { line: Some(line), end: Termination::Exit { code: EXIT_SUCCESS } },
        Err(e) => e.ending(),
    }
}

} // verus!
