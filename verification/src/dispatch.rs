//! From a parsed command line to what is to be done.
//!
//! A run takes three steps. [`probe`] names the path, if any, whose presence
//! decides the command. [`dispatch`] takes the answer and gives the [`Step`]:
//! an action to perform, or the way to end at once. The outcome of a
//! performed action goes through [`crate::project::report`] and
//! [`crate::error::ending`].

use vstd::prelude::*;
use crate::error::{
    Ending, EndingView, ProjectError, ProjectErrorView, Termination, TerminationView,
    EXIT_SUCCESS, EXIT_USAGE,
};
use crate::parser::cli::{Cli, CliView, Commands, CommandsView};
use crate::project::{
    activate, activate_plan, create_plan, create_project, project_target, remove_plan,
    remove_project, venv_dir, venv_path, Action, ActionView,
};
use crate::views::{option_view, result_view};

verus! {

/// What a run does once it knows whether its path is there.
#[derive(Debug, PartialEq, Eq)]
pub enum Step {
    /// Perform the action and report how it went.
    Perform { action: Action },
    /// Touch nothing and end.
    Finish { ending: Ending },
    /// Print the help and exit with `code`.
    Help { code: i32 },
}

/// A [`Step`] with its texts as sequences of characters.
pub enum StepView {
    Perform { action: ActionView },
    Finish { ending: EndingView },
    Help { code: i32 },
}

impl View for Step {
    type V = StepView;

    open spec fn view(&self) -> StepView {
        match self {
            Step::Perform { action } => StepView::Perform { action: action@ },
            Step::Finish { ending } => StepView::Finish { ending: ending@ },
            Step::Help { code } => StepView::Help { code: *code },
        }
    }
}

/// The path whose presence decides the command: the target of a new
/// project, the directory of one to delete, `./venv` for an activation
/// that names no project. `None` where the command is decided without a
/// look at the tree.
pub open spec fn probe_of(cli: CliView) -> Option<Seq<char>> {
    match cli.command {
        Some(CommandsView::New { name, path }) => project_target(Some(name), path),
        Some(CommandsView::Delete { name }) => Some(name),
        Some(CommandsView::Activate(activate)) => if activate.name is Some {
            None
        } else {
            Some(venv_dir(None))
        },
        None => None,
    }
}

/// How a run ends when it finds no virtual environment: it says so and
/// exits with [`EXIT_SUCCESS`].
pub open spec fn no_virtualenv() -> EndingView {
    EndingView {
        line: Some("No virtualenv found"@),
        end: TerminationView::Exit { code: EXIT_SUCCESS },
    }
}

/// The step for a plan that may fail: its action, or the ending on its
/// error.
pub open spec fn step_of_plan(plan: Result<ActionView, ProjectErrorView>) -> StepView {
    match plan {
        Ok(action) => StepView::Perform { action },
        Err(e) => StepView::Finish { ending: e.ending() },
    }
}

/// The answer of [`dispatch`]: each command goes to its operation, with
/// `exists` as what was seen at [`probe_of`]; no command at all asks for the
/// help and [`EXIT_USAGE`].
pub open spec fn step_of(cli: CliView, exists: bool) -> StepView {
    match cli.command {
        Some(CommandsView::New { name, path }) => step_of_plan(
            create_plan(Some(name), path, exists),
        ),
        Some(CommandsView::Delete { name }) => step_of_plan(remove_plan(name, exists)),
        Some(CommandsView::Activate(activate)) => match activate_plan(activate.name, exists) {
            Some(action) => StepView::Perform { action },
            None => StepView::Finish { ending: no_virtualenv() },
        },
        None => StepView::Help { code: EXIT_USAGE },
    }
}

/// Names the path whose presence the caller is to find out before it calls
/// [`dispatch`], or `None` if there is nothing to find out.
pub fn probe(cli: &Cli) -> (r: Option<String>)
    ensures
        option_view(r) == probe_of(cli@),
{
    match &cli.command {
        Some(Commands::New { name, path }) => match path {
            Some(p) => Some(p.clone()),
            None => Some(name.clone()),
        },
        Some(Commands::Delete { name }) => Some(name.clone()),
        Some(Commands::Activate(activate)) => venv_path(&activate.name),
        None => None,
    }
}

/// Decides what a run does.
///
/// `exists` says whether anything is at the path that [`probe`] names for
/// this command line; where it names none, `exists` is not read.
pub fn dispatch(cli: Cli, exists: bool) -> (r: Step)
    ensures
        r@ == step_of(cli@, exists),
{
    match cli.command {
        Some(Commands::New { name, path }) => step(create_project(Some(name), path, exists)),
        Some(Commands::Delete { name }) => step(remove_project(name, exists)),
        Some(Commands::Activate(activation)) => match activate(activation.name, exists) {
            Some(action) => Step::Perform { action },
            None => Step::Finish {
                ending: Ending {
                    line: Some(String::from_str("No virtualenv found")),
                    end: Termination::Exit { code: EXIT_SUCCESS },
                },
            },
        },
        None => Step::Help { code: EXIT_USAGE },
    }
}

/// Turns a plan into a step: its action is to be performed, its error ends
/// the run.
fn step(plan: Result<Action, ProjectError>) -> (r: Step)
    ensures
        r@ == step_of_plan(result_view(plan)),
{
    match plan {
        Ok(action) => Step::Perform { action },
        Err(e) => Step::Finish { ending: e.ending() },
    }
}

} // verus!
