use scaffolder::action::{Action, ProjectPath};
use scaffolder::report::{exit_status, failure_message, EXIT_FAILURE, EXIT_SUCCESS};
use scaffolder::template::Dependency;
use scaffolder::workflow::{Outcome, ScaffoldRequest, Stage, Step};

fn path(components: &[&str]) -> ProjectPath {
    ProjectPath { components: components.iter().map(|part| part.to_string()).collect() }
}

fn addition(stage: Stage, name: &str) -> Step {
    Step {
        stage,
        action: Action::AddDependency {
            project: "shop".to_string(),
            dependency: Dependency { name: name.to_string(), feature: None },
        },
    }
}

#[test]
fn a_path_is_shown_with_slashes() {
    assert_eq!(path(&["shop", "src", "main.rs"]).display(), "shop/src/main.rs");
    assert_eq!(path(&["shop"]).display(), "shop");
    assert_eq!(path(&[]).display(), "");
    assert_eq!(path(&["", "x"]).display(), "/x");
}

#[test]
fn a_failed_creation_names_the_project() {
    let step = Step {
        stage: Stage::CreateProject,
        action: Action::CreateProject { name: "shop".to_string() },
    };
    assert_eq!(failure_message(&step), "Failed to create project 'shop'");
}

#[test]
fn a_failed_addition_names_the_dependency() {
    assert_eq!(
        failure_message(&addition(Stage::AddFramework, "axum")),
        "Failed to add framework dependency 'axum'"
    );
    assert_eq!(
        failure_message(&addition(Stage::AddRequested, "dotenvy")),
        "Failed to add dependency 'dotenvy'"
    );
    assert_eq!(
        failure_message(&addition(Stage::AddRequired, "tokio")),
        "Failed to add dependency 'tokio'"
    );
}

#[test]
fn a_failed_write_names_the_path() {
    let write = Step {
        stage: Stage::WriteMainSource,
        action: Action::WriteFile {
            path: path(&["shop", "src", "main.rs"]),
            body: "fn main() {}".to_string(),
        },
    };
    assert_eq!(failure_message(&write), "Failed to write shop/src/main.rs");
    let directory = Step {
        stage: Stage::CreateModules,
        action: Action::CreateDirectory { path: path(&["shop", "src", "routes"]) },
    };
    assert_eq!(failure_message(&directory), "Failed to create directory shop/src/routes");
}

#[test]
fn a_failed_repository_is_named() {
    let step = Step {
        stage: Stage::InitRepository,
        action: Action::InitRepository { project: "shop".to_string() },
    };
    assert_eq!(failure_message(&step), "Failed to initialize git repository");
}

#[test]
fn every_step_of_a_plan_has_a_message() {
    let request = ScaffoldRequest {
        project_name: "shop".to_string(),
        framework_identifier: "axum".to_string(),
        additional_dependencies: Some(vec!["dotenvy".to_string()]),
    };
    for step in request.plan() {
        assert!(failure_message(&step).starts_with("Failed to "));
    }
}

#[test]
fn the_status_is_zero_only_without_a_reported_failure() {
    assert_eq!(EXIT_SUCCESS, 0);
    assert_eq!(EXIT_FAILURE, 1);
    assert_eq!(exit_status(false), 0);
    assert_eq!(exit_status(true), 1);
}

#[test]
fn only_a_run_without_failure_exits_with_zero() {
    let failed = Step {
        stage: Stage::CreateProject,
        action: Action::CreateProject { name: "shop".to_string() },
    };
    let scaffolded = Outcome::Scaffolded { repository_initialized: true };
    assert!(!scaffolded.reports_failure());
    assert_eq!(scaffolded.exit_status(), 0);

    let unversioned = Outcome::Scaffolded { repository_initialized: false };
    assert!(unversioned.reports_failure());
    assert_eq!(unversioned.exit_status(), 1);

    let aborted = Outcome::Aborted { failed: failed.clone() };
    assert!(aborted.reports_failure());
    assert_eq!(aborted.exit_status(), 1);

    let fatal = Outcome::Fatal { failed };
    assert!(fatal.reports_failure());
    assert_eq!(fatal.exit_status(), 1);
}
