//! The commands that the program takes.
//!
//! These are the values that a parsed command line comes to. How the
//! arguments are read is not decided here.

use vstd::prelude::*;
use crate::views::option_view;

verus! {

/// A parsed command line.
#[derive(Debug, PartialEq, Eq)]
pub struct Cli {
    /// The subcommand, if one was given.
    pub command: Option<Commands>,
}

/// The subcommands.
#[derive(Debug, PartialEq, Eq)]
pub enum Commands {
    /// Create a new project.
    New {
        /// The name of the project.
        name: String,
        /// Where to create the project, in place of the directory of its
        /// name.
        path: Option<String>,
    },
    /// Delete a project.
    Delete {
        /// The name of the project.
        name: String,
    },
    /// Activate the virtual environment of a project.
    Activate(Activate),
}

/// The arguments of `activate`.
#[derive(Debug, PartialEq, Eq)]
pub struct Activate {
    /// The name of the project. Without one the directory where the caller
    /// stands is used.
    pub name: Option<String>,
    /// Whether dependencies are to be installed where a list of them is
    /// found.
    pub install_deps: bool,
}

/// An [`Activate`] with its text as a sequence of characters.
pub struct ActivateView {
    pub name: Option<Seq<char>>,
    pub install_deps: bool,
}

impl View for Activate {
    type V = ActivateView;

    open spec fn view(&self) -> ActivateView {
        ActivateView { name: option_view(self.name), install_deps: self.install_deps }
    }
}

/// A [`Commands`] with its texts as sequences of characters.
pub enum CommandsView {
    New { name: Seq<char>, path: Option<Seq<char>> },
    Delete { name: Seq<char> },
    Activate(ActivateView),
}

impl View for Commands {
    type V = CommandsView;

    open spec fn view(&self) -> CommandsView {
        match self {
            Commands::New { name, path } => CommandsView::New {
                name: name@,
                path: option_view(*path),
            },
            Commands::Delete { name } => CommandsView::Delete { name: name@ },
            Commands::Activate(activate) => CommandsView::Activate(activate@),
        }
    }
}

/// A [`Cli`] with its texts as sequences of characters.
pub struct CliView {
    pub command: Option<CommandsView>,
}

impl View for Cli {
    type V = CliView;

    open spec fn view(&self) -> CliView {
        CliView { command: option_view(self.command) }
    }
}

} // verus!
