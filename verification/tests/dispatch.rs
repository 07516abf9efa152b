use pyproj::dispatch::{dispatch, probe, Step};
use pyproj::error::{
    ending, Ending, FailureKind, ProjectError, Termination, EXIT_FAILURE, EXIT_SUCCESS,
    EXIT_USAGE,
};
use pyproj::parser::cli::{Activate, Cli, Commands};
use pyproj::project::Action;

fn new(name: &str, path: Option<&str>) -> Cli {
    Cli {
        command: Some(Commands::New { name: name.to_string(), path: path.map(str::to_string) }),
    }
}

fn delete(name: &str) -> Cli {
    Cli { command: Some(Commands::Delete { name: name.to_string() }) }
}

fn activation(name: Option<&str>, install_deps: bool) -> Cli {
    Cli {
        command: Some(Commands::Activate(Activate {
            name: name.map(str::to_string),
            install_deps,
        })),
    }
}

#[test]
fn exit_statuses() {
    assert_eq!(EXIT_SUCCESS, 0);
    assert_eq!(EXIT_FAILURE, 1);
    assert_eq!(EXIT_USAGE, 2);
}

#[test]
fn probe_names_the_target_of_a_new_project() {
    assert_eq!(probe(&new("proj", None)), Some("proj".to_string()));
    assert_eq!(probe(&new("proj", Some("/srv/work"))), Some("/srv/work".to_string()));
}

#[test]
fn probe_names_the_directory_to_delete() {
    assert_eq!(probe(&delete("proj")), Some("proj".to_string()));
}

#[test]
fn probe_names_the_local_venv_only_without_a_project() {
    assert_eq!(probe(&activation(None, true)), Some("./venv".to_string()));
    assert_eq!(probe(&activation(Some("proj"), true)), None);
}

#[test]
fn probe_of_no_command_is_nothing() {
    assert_eq!(probe(&Cli { command: None }), None);
}

#[test]
fn no_command_asks_for_help() {
    assert_eq!(dispatch(Cli { command: None }, false), Step::Help { code: 2 });
    assert_eq!(dispatch(Cli { command: None }, true), Step::Help { code: 2 });
}

#[test]
fn new_in_an_empty_directory_creates_it() {
    let step = dispatch(new("proj", None), false);
    assert_eq!(
        step,
        Step::Perform {
            action: Action::CreateDir {
                name: Some("proj".to_string()),
                path: "proj".to_string(),
            },
        }
    );
}

#[test]
fn new_with_a_path_creates_there() {
    let step = dispatch(new("proj", Some("/srv/work")), false);
    assert_eq!(
        step,
        Step::Perform {
            action: Action::CreateDir {
                name: Some("proj".to_string()),
                path: "/srv/work".to_string(),
            },
        }
    );
}

#[test]
fn new_on_a_taken_path_ends_abnormally() {
    let step = dispatch(new("proj", None), true);
    assert_eq!(
        step,
        Step::Finish {
            ending: Ending {
                line: None,
                end: Termination::Abort { message: "proj already exists".to_string() },
            },
        }
    );
}

#[test]
fn delete_of_an_existing_project_removes_it() {
    let step = dispatch(delete("proj"), true);
    assert_eq!(
        step,
        Step::Perform { action: Action::RemoveDirAll { path: "proj".to_string() } }
    );
}

#[test]
fn delete_of_a_ghost_reports_and_exits_with_failure() {
    let step = dispatch(delete("ghost"), false);
    assert_eq!(
        step,
        Step::Finish {
            ending: Ending {
                line: Some("ghost is not a project".to_string()),
                end: Termination::Exit { code: 1 },
            },
        }
    );
}

#[test]
fn activate_without_a_venv_says_so_and_exits_with_success() {
    for install_deps in [true, false] {
        let step = dispatch(activation(None, install_deps), false);
        assert_eq!(
            step,
            Step::Finish {
                ending: Ending {
                    line: Some("No virtualenv found".to_string()),
                    end: Termination::Exit { code: 0 },
                },
            }
        );
    }
}

#[test]
fn activate_with_a_venv_sources_its_script() {
    let step = dispatch(activation(None, true), true);
    assert_eq!(
        step,
        Step::Perform {
            action: Action::Spawn {
                program: "source".to_string(),
                argument: "./venv/bin/activate".to_string(),
            },
        }
    );
}

#[test]
fn activate_of_a_named_project_tries_without_looking() {
    for seen in [true, false] {
        let step = dispatch(activation(Some("proj"), true), seen);
        assert_eq!(
            step,
            Step::Perform {
                action: Action::Spawn {
                    program: "source".to_string(),
                    argument: "proj/venv/bin/activate".to_string(),
                },
            }
        );
    }
}

#[test]
fn a_confirmed_operation_exits_with_success() {
    assert_eq!(
        ending(Ok("Creating new project proj in proj".to_string())),
        Ending {
            line: Some("Creating new project proj in proj".to_string()),
            end: Termination::Exit { code: 0 },
        }
    );
}

#[test]
fn a_usage_error_ends_abnormally() {
    assert_eq!(
        ProjectError::Usage.ending(),
        Ending {
            line: None,
            end: Termination::Abort {
                message: "Either a name or path must be given".to_string(),
            },
        }
    );
}

#[test]
fn a_taken_path_ends_abnormally() {
    assert_eq!(
        ProjectError::PathAlreadyExists { path: "/srv/work".to_string() }.ending(),
        Ending {
            line: None,
            end: Termination::Abort { message: "/srv/work already exists".to_string() },
        }
    );
}

#[test]
fn a_missing_project_is_reported() {
    assert_eq!(
        ending(Err(ProjectError::PathNotFound { name: "ghost".to_string() })),
        Ending {
            line: Some("ghost is not a project".to_string()),
            end: Termination::Exit { code: 1 },
        }
    );
}

#[test]
fn a_refused_directory_operation_ends_with_its_cause() {
    let error = ProjectError::FilesystemOperationFailed {
        notice: "Failed to create new project in a/b".to_string(),
        cause: "No such file or directory (os error 2)".to_string(),
    };
    assert_eq!(
        error.ending(),
        Ending {
            line: Some("Failed to create new project in a/b".to_string()),
            end: Termination::Abort {
                message: "No such file or directory (os error 2)".to_string(),
            },
        }
    );
}

#[test]
fn a_program_that_did_not_start_is_reported_by_kind() {
    let lines = [
        (FailureKind::NotFound, "Failed to activate the virtualenv: not found"),
        (FailureKind::PermissionDenied, "Failed to activate the virtualenv: permission denied"),
        (FailureKind::Other, "Failed to activate the virtualenv"),
    ];
    for (kind, line) in lines {
        assert_eq!(
            ProjectError::ProcessSpawnFailed { kind }.ending(),
            Ending { line: Some(line.to_string()), end: Termination::Exit { code: 1 } }
        );
    }
}
