//! What the plans do to a directory tree.
//!
//! The tree itself is out of the library's reach, so it is stood for by the
//! set of paths at which something exists, each path taken as its text.
//! [`ActionView::effect`] gives the tree after an action that succeeded. The
//! lemmas then say what a planned operation, carried out, makes of a tree. They
//! hold of the plans: that a caller performs an action as `effect` says is
//! not proved here.

use vstd::prelude::*;
use crate::dispatch::{no_virtualenv, probe_of, step_of, StepView};
use crate::error::ProjectErrorView;
use crate::parser::cli::{ActivateView, CliView, CommandsView};
use crate::project::{
    activate_plan, create_plan, project_target, remove_plan, report_of, ActionView,
};

verus! {

/// Whether `path` is `root` or lies below it.
pub open spec fn within(path: Seq<char>, root: Seq<char>) -> bool {
    path == root || (root + "/"@).is_prefix_of(path)
}

impl ActionView {
    /// The tree after the action was performed with success: a created
    /// directory is there, a removed one is gone with all below it, and a
    /// started program leaves the tree alone.
    pub open spec fn effect(self, tree: Set<Seq<char>>) -> Set<Seq<char>> {
        match self {
            ActionView::CreateDir { path, .. } => tree.insert(path),
            ActionView::RemoveDirAll { path } => tree.filter(|p: Seq<char>| !within(p, path)),
            ActionView::Spawn { .. } => tree,
        }
    }
}

/// The tree after a plan was carried out with success: the effect of its
/// action, or the same tree where the plan holds none.
pub open spec fn carried_out(
    plan: Result<ActionView, ProjectErrorView>,
    tree: Set<Seq<char>>,
) -> Set<Seq<char>> {
    match plan {
        Ok(action) => action.effect(tree),
        Err(_) => tree,
    }
}

/// Creating a project whose path is free is planned as the creation of that
/// one directory, is confirmed once performed, and the path is there
/// afterwards.
pub proof fn lemma_create_at_free_path(
    tree: Set<Seq<char>>,
    name: Option<Seq<char>>,
    path_buffer: Option<Seq<char>>,
)
    requires
        project_target(name, path_buffer) is Some,
        !tree.contains(project_target(name, path_buffer)->0),
    ensures
        ({
            let path = project_target(name, path_buffer)->0;
            let plan = create_plan(name, path_buffer, tree.contains(path));
            &&& plan == Ok::<ActionView, ProjectErrorView>(ActionView::CreateDir { name, path })
            &&& report_of(plan->Ok_0, Ok(())) is Ok
            &&& carried_out(plan, tree).contains(path)
        }),
{
}

/// Creating a project whose path is taken fails with that path, and the tree
/// stays as it was.
pub proof fn lemma_create_at_taken_path(
    tree: Set<Seq<char>>,
    name: Option<Seq<char>>,
    path_buffer: Option<Seq<char>>,
)
    requires
        project_target(name, path_buffer) is Some,
        tree.contains(project_target(name, path_buffer)->0),
    ensures
        ({
            let path = project_target(name, path_buffer)->0;
            let plan = create_plan(name, path_buffer, tree.contains(path));
            &&& plan == Err::<ActionView, ProjectErrorView>(
                ProjectErrorView::PathAlreadyExists { path },
            )
            &&& carried_out(plan, tree) == tree
        }),
{
}

/// Deleting a project that is there is planned as the removal of its
/// directory, is confirmed once performed, and the path is gone afterwards.
pub proof fn lemma_remove_existing(tree: Set<Seq<char>>, name: Seq<char>)
    requires
        tree.contains(name),
    ensures
        ({
            let plan = remove_plan(name, tree.contains(name));
            &&& plan == Ok::<ActionView, ProjectErrorView>(ActionView::RemoveDirAll { path: name })
            &&& report_of(plan->Ok_0, Ok(())) is Ok
            &&& !carried_out(plan, tree).contains(name)
        }),
{
}

/// Deleting a project that is not there fails with its name, and the tree
/// stays as it was.
pub proof fn lemma_remove_missing(tree: Set<Seq<char>>, name: Seq<char>)
    requires
        !tree.contains(name),
    ensures
        ({
            let plan = remove_plan(name, tree.contains(name));
            &&& plan == Err::<ActionView, ProjectErrorView>(ProjectErrorView::PathNotFound { name })
            &&& carried_out(plan, tree) == tree
        }),
{
}

/// A project created under a fresh name and then deleted is gone: both
/// operations are planned on the same path, and where nothing was at or
/// below it before, the tree is back as it was.
pub proof fn lemma_create_then_remove(tree: Set<Seq<char>>, name: Seq<char>)
    requires
        !tree.contains(name),
    ensures
        ({
            let created = carried_out(create_plan(Some(name), None, tree.contains(name)), tree);
            let removed = carried_out(remove_plan(name, created.contains(name)), created);
            &&& created.contains(name)
            &&& !removed.contains(name)
            &&& (forall|p: Seq<char>| within(p, name) ==> !tree.contains(p)) ==> removed == tree
        }),
{
    let created = carried_out(create_plan(Some(name), None, tree.contains(name)), tree);
    let removed = carried_out(remove_plan(name, created.contains(name)), created);
    if forall|p: Seq<char>| within(p, name) ==> !tree.contains(p) {
        assert(removed =~= tree);
    }
}

/// An activation that names no project and finds no virtual environment
/// plans no action: the run says that none was found and exits with success.
pub proof fn lemma_activate_without_venv(install_deps: bool)
    ensures
        activate_plan(None, false) is None,
        step_of(
            CliView {
                command: Some(CommandsView::Activate(ActivateView { name: None, install_deps })),
            },
            false,
        ) == (StepView::Finish { ending: no_virtualenv() }),
{
}

/// Where no path is to be probed, the step does not depend on what the
/// caller says of the tree.
pub proof fn lemma_step_without_probe(cli: CliView)
    requires
        probe_of(cli) is None,
    ensures
        step_of(cli, true) == step_of(cli, false),
{
}

} // verus!
