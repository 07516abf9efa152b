//! The operations on a project: create, remove, activate.
//!
//! Each operation is decided here and carried out elsewhere. A function of
//! this module takes what its caller saw of the directory tree and answers
//! with the one [`Action`] to perform, or with the reason why there is none.
//! [`report`] then turns the action's outcome into the line to print or into
//! the error to fail with.

use vstd::prelude::*;
use crate::error::{Failure, FailureView, ProjectError, ProjectErrorView};
use crate::views::{option_view, result_view};

verus! {

/// The one thing that an operation asks its caller to do.
#[derive(Debug, PartialEq, Eq)]
pub enum Action {
    /// Create the directory `path`, and no directory above it, for the
    /// project `name` where it has one.
    CreateDir { name: Option<String>, path: String },
    /// Remove the directory `path` with everything below it.
    RemoveDirAll { path: String },
    /// Start `program` with the one argument `argument` and do not wait for
    /// it.
    Spawn { program: String, argument: String },
}

/// An [`Action`] with its texts as sequences of characters.
pub enum ActionView {
    CreateDir { name: Option<Seq<char>>, path: Seq<char> },
    RemoveDirAll { path: Seq<char> },
    Spawn { program: Seq<char>, argument: Seq<char> },
}

impl View for Action {
    type V = ActionView;

    open spec fn view(&self) -> ActionView {
        match self {
            Action::CreateDir { name, path } => ActionView::CreateDir {
                name: option_view(*name),
                path: path@,
            },
            Action::RemoveDirAll { path } => ActionView::RemoveDirAll { path: path@ },
            Action::Spawn { program, argument } => ActionView::Spawn {
                program: program@,
                argument: argument@,
            },
        }
    }
}

/// Where a project is: at the explicit path if there is one, else in the
/// directory named after it, relative to where the caller stands. `None` if
/// neither is given.
pub open spec fn project_target(
    name: Option<Seq<char>>,
    path_buffer: Option<Seq<char>>,
) -> Option<Seq<char>> {
    match path_buffer {
        Some(path) => Some(path),
        None => name,
    }
}

/// The answer of [`check_path_exists`].
pub open spec fn check_free(path: Seq<char>, exists: bool) -> Result<(), ProjectErrorView> {
    if exists {
        Err(ProjectErrorView::PathAlreadyExists { path })
    } else {
        Ok(())
    }
}

/// The answer of [`create_project`].
pub open spec fn create_plan(
    name: Option<Seq<char>>,
    path_buffer: Option<Seq<char>>,
    exists: bool,
) -> Result<ActionView, ProjectErrorView> {
    match project_target(name, path_buffer) {
        None => Err(ProjectErrorView::Usage),
        Some(path) => match check_free(path, exists) {
            Err(e) => Err(e),
            Ok(_) => Ok(ActionView::CreateDir { name, path }),
        },
    }
}

/// The answer of [`remove_project`].
pub open spec fn remove_plan(name: Seq<char>, exists: bool) -> Result<
    ActionView,
    ProjectErrorView,
> {
    if exists {
        Ok(ActionView::RemoveDirAll { path: name })
    } else {
        Err(ProjectErrorView::PathNotFound { name })
    }
}

/// Resolves the path of a project from its name and an optional override.
///
/// Fails with [`ProjectError::Usage`] exactly when both are missing.
pub fn project_path(name: &Option<String>, path_buffer: &Option<String>) -> (r: Result<
    String,
    ProjectError,
>)
    ensures
        result_view(r) == match project_target(option_view(*name), option_view(*path_buffer)) {
            Some(path) => Ok(path),
            None => Err(ProjectErrorView::Usage),
        },
{
    match path_buffer {
        Some(path) => Ok(path.clone()),
        None => match name {
            Some(n) => Ok(n.clone()),
            None => Err(ProjectError::Usage),
        },
    }
}

/// Refuses a path that is taken.
///
/// `exists` says whether anything is at `path`. The answer is
/// [`ProjectError::PathAlreadyExists`] with that path if so, and `Ok` if not.
pub fn check_path_exists(path: &String, exists: bool) -> (r: Result<(), ProjectError>)
    ensures
        result_view(r) == check_free(path@, exists),
{
    if exists {
        Err(ProjectError::PathAlreadyExists { path: path.clone() })
    } else {
        Ok(())
    }
}

/// Plans the creation of a project.
///
/// `exists` says whether anything is at the project's path, which is
/// [`project_path`] of the same `name` and `path_buffer`. With neither of
/// them the answer is [`ProjectError::Usage`]; with the path taken it is
/// [`ProjectError::PathAlreadyExists`], and nothing is to be done to the
/// tree; otherwise the one directory at that path is to be created, and the
/// action keeps the name for the line that confirms it.
pub fn create_project(name: Option<String>, path_buffer: Option<String>, exists: bool) -> (r:
    Result<Action, ProjectError>)
    ensures
        result_view(r) == create_plan(option_view(name), option_view(path_buffer), exists),
{
    let path = match project_path(&name, &path_buffer) {
        Ok(path) => path,
        Err(e) => {
            return Err(e);
        },
    };
    match check_path_exists(&path, exists) {
        Ok(_) => Ok(Action::CreateDir { name, path }),
        Err(e) => Err(e),
    }
}

/// Plans the removal of the project `name`, which lies in the directory of
/// that name.
///
/// `exists` says whether anything is at that path. If so the directory is to
/// be removed with all that it holds; if not the answer is
/// [`ProjectError::PathNotFound`], and nothing is to be done to the tree.
pub fn remove_project(name: String, exists: bool) -> (r: Result<Action, ProjectError>)
    ensures
        result_view(r) == remove_plan(name@, exists),
{
    if exists {
        Ok(Action::RemoveDirAll { path: name })
    } else {
        Err(ProjectError::PathNotFound { name })
    }
}

/// The directory in which a virtual environment is looked for: that of the
/// project `name`, or the one where the caller stands.
pub open spec fn venv_home(name: Option<Seq<char>>) -> Seq<char> {
    match name {
        Some(n) => n,
        None => "."@,
    }
}

/// The directory that holds a virtual environment.
pub open spec fn venv_dir(name: Option<Seq<char>>) -> Seq<char> {
    venv_home(name) + "/venv"@
}

/// The script that activates a virtual environment.
pub open spec fn activation_script(name: Option<Seq<char>>) -> Seq<char> {
    venv_home(name) + "/venv/bin/activate"@
}

/// The answer of [`activate`].
pub open spec fn activate_plan(name: Option<Seq<char>>, venv_present: bool) -> Option<
    ActionView,
> {
    if name is Some || venv_present {
        Some(ActionView::Spawn { program: "source"@, argument: activation_script(name) })
    } else {
        None
    }
}

/// The line that confirms a created project: it names the project, where it
/// has a name, and the path.
pub open spec fn creation_line(name: Option<Seq<char>>, path: Seq<char>) -> Seq<char> {
    match name {
        Some(n) => "Creating new project "@ + n + " in "@ + path,
        None => "Creating new project in "@ + path,
    }
}

/// The line that confirms a created project holds the project's name,
/// right after its opening words, and ends with the path.
pub proof fn lemma_creation_line_names_both(name: Seq<char>, path: Seq<char>)
    ensures
        ({
            let line = creation_line(Some(name), path);
            let at = "Creating new project "@.len() as int;
            &&& line.subrange(at, at + name.len()) == name
            &&& line.subrange(line.len() - path.len(), line.len() as int) == path
        }),
{
    let line = creation_line(Some(name), path);
    let at = "Creating new project "@.len() as int;
    assert(line.subrange(at, at + name.len()) =~= name);
    assert(line.subrange(line.len() - path.len(), line.len() as int) =~= path);
}

/// The answer of [`report`].
pub open spec fn report_of(action: ActionView, outcome: Result<(), FailureView>) -> Result<
    Seq<char>,
    ProjectErrorView,
> {
    match action {
        ActionView::CreateDir { name, path } => match outcome {
            Ok(_) => Ok(creation_line(name, path)),
            Err(failure) => Err(
                ProjectErrorView::FilesystemOperationFailed {
                    notice: "Failed to create new project in "@ + path,
                    cause: failure.message,
                },
            ),
        },
        ActionView::RemoveDirAll { path } => match outcome {
            Ok(_) => Ok("Removing "@ + path + " in "@ + path),
            Err(failure) => Err(
                ProjectErrorView::FilesystemOperationFailed {
                    notice: "Failed to remove "@ + path + " in "@ + path,
                    cause: failure.message,
                },
            ),
        },
        ActionView::Spawn { program, argument } => match outcome {
            Ok(_) => Ok("Sourcing "@ + argument),
            Err(failure) => Err(ProjectErrorView::ProcessSpawnFailed { kind: failure.kind }),
        },
    }
}

/// The directory whose presence [`activate`] wants to know of, or `None`
/// if it does not ask: with a project named, the script is tried whether or
/// not it is there.
pub fn venv_path(name: &Option<String>) -> (r: Option<String>)
    ensures
        option_view(r) == (if name is Some {
            None
        } else {
            Some(venv_dir(None))
        }),
{
    match name {
        Some(_) => None,
        None => Some(String::from_str(".").concat("/venv")),
    }
}

/// Plans the activation of a virtual environment.
///
/// With a project named, its script `venv/bin/activate` is to be sourced
/// without a look at the tree, and `venv_present` is not read. With none,
/// `venv_present` says whether `./venv` is there: if so its script is to be
/// sourced, if not the answer is `None` and nothing is to be done.
///
/// The action starts a program of its own. A process cannot change the
/// environment of the shell that started it, so sourcing the script this way
/// leaves the caller's shell as it was; the plan says what is attempted, and
/// [`report`] only whether the program started.
pub fn activate(name: Option<String>, venv_present: bool) -> (r: Option<Action>)
    ensures
        option_view(r) == activate_plan(option_view(name), venv_present),
{
    match name {
        Some(n) => Some(
            Action::Spawn {
                program: String::from_str("source"),
                argument: n.concat("/venv/bin/activate"),
            },
        ),
        None => if venv_present {
            Some(
                Action::Spawn {
                    program: String::from_str("source"),
                    argument: String::from_str(".").concat("/venv/bin/activate"),
                },
            )
        } else {
            None
        },
    }
}

/// Says how an action went.
///
/// `outcome` is what the caller got when it performed `action`. Success gives
/// the line that confirms it; for a created project that line names the
/// project, where it has a name, and the path. A directory that could not be created or
/// removed gives [`ProjectError::FilesystemOperationFailed`], which carries
/// the line that says so and the operating system's message; a program that
/// did not start gives [`ProjectError::ProcessSpawnFailed`] with the kind of
/// the failure.
pub fn report(action: &Action, outcome: Result<(), Failure>) -> (r: Result<String, ProjectError>)
    ensures
        result_view(r) == report_of(action@, result_view(outcome)),
{
    match action {
        Action::CreateDir { name, path } => match outcome {
            Ok(_) => match name {
                Some(n) => Ok(
                    String::from_str("Creating new project ").concat(n.as_str()).concat(
                        " in ",
                    ).concat(path.as_str()),
                ),
                None => Ok(String::from_str("Creating new project in ").concat(path.as_str())),
            },
            Err(failure) => Err(
                ProjectError::FilesystemOperationFailed {
                    notice: String::from_str("Failed to create new project in ").concat(
                        path.as_str(),
                    ),
                    cause: failure.message,
                },
            ),
        },
        Action::RemoveDirAll { path } => match outcome {
            Ok(_) => Ok(
                String::from_str("Removing ").concat(path.as_str()).concat(" in ").concat(
                    path.as_str(),
                ),
            ),
            Err(failure) => Err(
                ProjectError::FilesystemOperationFailed {
                    notice: String::from_str("Failed to remove ").concat(path.as_str()).concat(
                        " in ",
                    ).concat(path.as_str()),
                    cause: failure.message,
                },
            ),
        },
        Action::Spawn { program, argument } => match outcome {
            Ok(_) => Ok(String::from_str("Sourcing ").concat(argument.as_str())),
            Err(failure) => Err(ProjectError::ProcessSpawnFailed { kind: failure.kind }),
        },
    }
}

} // verus!
