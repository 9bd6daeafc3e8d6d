use scaffolder::action::{Action, ProjectPath};
use scaffolder::layout::IGNORE_BODY;
use scaffolder::template::{get_main_content, Dependency};
use scaffolder::workflow::{
    scaffold_project, Outcome, Progress, ScaffoldRequest, Stage, Step, Workflow,
};

fn request(name: &str, framework: &str, deps: Option<&[&str]>) -> ScaffoldRequest {
    ScaffoldRequest {
        project_name: name.to_string(),
        framework_identifier: framework.to_string(),
        additional_dependencies: deps.map(|names| {
            names.iter().map(|name| name.to_string()).collect()
        }),
    }
}

fn path(components: &[&str]) -> ProjectPath {
    ProjectPath { components: components.iter().map(|part| part.to_string()).collect() }
}

fn create(name: &str) -> Action {
    Action::CreateProject { name: name.to_string() }
}

fn add(project: &str, name: &str, feature: Option<&str>) -> Action {
    Action::AddDependency {
        project: project.to_string(),
        dependency: Dependency {
            name: name.to_string(),
            feature: feature.map(|feature| feature.to_string()),
        },
    }
}

fn directory(components: &[&str]) -> Action {
    Action::CreateDirectory { path: path(components) }
}

fn file(components: &[&str], body: &str) -> Action {
    Action::WriteFile { path: path(components), body: body.to_string() }
}

fn init(project: &str) -> Action {
    Action::InitRepository { project: project.to_string() }
}

fn step(stage: Stage, action: Action) -> Step {
    Step { stage, action }
}

/// Runs a workflow to its end, asking `succeeds` for the result of each
/// step, and returns the steps that were handed out and the outcome.
fn drive(mut workflow: Workflow, mut succeeds: impl FnMut(&Step) -> bool) -> (Vec<Step>, Outcome) {
    let mut performed = Vec::new();
    let mut progress = workflow.progress();
    loop {
        match progress {
            Progress::Perform(step) => {
                let succeeded = succeeds(&step);
                performed.push(step);
                progress = workflow.advance(succeeded);
            },
            Progress::Finished(outcome) => return (performed, outcome),
        }
    }
}

fn actions(steps: &[Step]) -> Vec<Action> {
    steps.iter().map(|step| step.action.clone()).collect()
}

fn additions(steps: &[Step]) -> usize {
    steps.iter().filter(|step| matches!(step.action, Action::AddDependency { .. })).count()
}

fn axum_actions(project: &str) -> Vec<Action> {
    vec![
        create(project),
        add(project, "axum", None),
        file(&[project, "src", "main.rs"], get_main_content("axum")),
        add(project, "serde", Some("derive")),
        add(project, "tokio", Some("full")),
        directory(&[project, "src", "services"]),
        file(&[project, "src", "services", "mod.rs"], ""),
        directory(&[project, "src", "models"]),
        file(&[project, "src", "models", "mod.rs"], ""),
        directory(&[project, "src", "handlers"]),
        file(&[project, "src", "handlers", "mod.rs"], ""),
        directory(&[project, "src", "routes"]),
        file(&[project, "src", "routes", "mod.rs"], ""),
        file(&[project, ".gitignore"], IGNORE_BODY),
        init(project),
    ]
}

#[test]
fn an_existing_directory_aborts_before_any_dependency_is_added() {
    let mut calls = 0;
    let (performed, outcome) = drive(Workflow::begin(&request("shop", "axum", Some(&["dotenvy"]))), |_| {
        calls += 1;
        false
    });
    assert_eq!(calls, 1);
    assert_eq!(actions(&performed), vec![create("shop")]);
    assert_eq!(additions(&performed), 0);
    assert_eq!(outcome, Outcome::Aborted { failed: step(Stage::CreateProject, create("shop")) });
}

#[test]
fn axum_is_scaffolded_by_these_actions_in_this_order() {
    let (performed, outcome) = drive(Workflow::begin(&request("shop", "axum", None)), |_| true);
    assert_eq!(actions(&performed), axum_actions("shop"));
    assert_eq!(outcome, Outcome::Scaffolded { repository_initialized: true });
}

#[test]
fn axum_adapter_calls_are_counted_by_kind() {
    let (performed, _) = drive(Workflow::begin(&request("shop", "axum", None)), |_| true);
    let performed = actions(&performed);
    let package_manager: Vec<Action> = performed
        .iter()
        .filter(|action| action.invocation().is_some())
        .map(|action| action.clone())
        .collect();
    assert_eq!(
        package_manager,
        vec![
            create("shop"),
            add("shop", "axum", None),
            add("shop", "serde", Some("derive")),
            add("shop", "tokio", Some("full")),
        ]
    );
    let directories =
        performed.iter().filter(|action| matches!(action, Action::CreateDirectory { .. })).count();
    assert_eq!(directories, 4);
    let ignore_files = performed
        .iter()
        .filter(|action| **action == file(&["shop", ".gitignore"], IGNORE_BODY))
        .count();
    assert_eq!(ignore_files, 1);
    let repositories =
        performed.iter().filter(|action| matches!(action, Action::InitRepository { .. })).count();
    assert_eq!(repositories, 1);
    assert_eq!(performed.last(), Some(&init("shop")));
}

#[test]
fn stages_are_attached_to_the_steps() {
    let stages: Vec<Stage> = request("shop", "actix-web", Some(&["dotenvy", "anyhow"]))
        .plan()
        .iter()
        .map(|step| step.stage)
        .collect();
    assert_eq!(
        stages,
        vec![
            Stage::CreateProject,
            Stage::AddFramework,
            Stage::AddRequested,
            Stage::AddRequested,
            Stage::WriteMainSource,
            Stage::AddRequired,
            Stage::AddRequired,
            Stage::CreateModules,
            Stage::CreateModules,
            Stage::CreateModules,
            Stage::CreateModules,
            Stage::CreateModules,
            Stage::CreateModules,
            Stage::CreateModules,
            Stage::CreateModules,
            Stage::WriteIgnoreFile,
            Stage::InitRepository,
        ]
    );
}

#[test]
fn stages_never_go_back() {
    for framework in ["axum", "actix-web", "rocket"] {
        let plan = request("shop", framework, Some(&["a", "b", "c"])).plan();
        for pair in plan.windows(2) {
            assert!(pair[0].stage.ordinal() <= pair[1].stage.ordinal());
        }
        assert_eq!(plan[0].stage.ordinal(), 1);
        assert_eq!(plan[plan.len() - 1].stage.ordinal(), 8);
    }
}

#[test]
fn a_plan_has_thirteen_steps_and_one_for_each_dependency() {
    assert_eq!(request("shop", "rocket", None).plan().len(), 13);
    assert_eq!(request("shop", "rocket", Some(&[])).plan().len(), 13);
    assert_eq!(request("shop", "rocket", Some(&["a", "b"])).plan().len(), 15);
    assert_eq!(request("shop", "axum", None).plan().len(), 15);
    assert_eq!(request("shop", "actix-web", Some(&["a", "b", "c"])).plan().len(), 18);
}

#[test]
fn requested_dependencies_follow_the_framework_in_order() {
    let plan = request("shop", "actix-web", Some(&["dotenvy", "anyhow"])).plan();
    assert_eq!(
        actions(&plan[..7]),
        vec![
            create("shop"),
            add("shop", "actix-web", None),
            add("shop", "dotenvy", None),
            add("shop", "anyhow", None),
            file(&["shop", "src", "main.rs"], get_main_content("actix-web")),
            add("shop", "serde", Some("derive")),
            add("shop", "tokio", Some("full")),
        ]
    );
}

#[test]
fn an_unrecognized_framework_is_scaffolded_with_the_default_template() {
    let (performed, outcome) = drive(Workflow::begin(&request("shop", "rocket", None)), |_| true);
    let performed = actions(&performed);
    assert_eq!(performed.len(), 13);
    assert_eq!(
        performed[..3],
        [
            create("shop"),
            add("shop", "rocket", None),
            file(&["shop", "src", "main.rs"], "fn main() {\n    println!(\"Hello, world!\");\n}\n"),
        ]
    );
    assert_eq!(performed[3], directory(&["shop", "src", "services"]));
    assert_eq!(outcome, Outcome::Scaffolded { repository_initialized: true });
}

#[test]
fn an_absent_list_and_an_empty_list_ask_for_the_same() {
    assert_eq!(request("shop", "axum", None).plan(), request("shop", "axum", Some(&[])).plan());
}

#[test]
fn a_failing_framework_aborts_and_is_named() {
    let (performed, outcome) = drive(Workflow::begin(&request("shop", "axum", None)), |step| {
        step.stage != Stage::AddFramework
    });
    assert_eq!(actions(&performed), vec![create("shop"), add("shop", "axum", None)]);
    assert_eq!(
        outcome,
        Outcome::Aborted { failed: step(Stage::AddFramework, add("shop", "axum", None)) }
    );
}

#[test]
fn a_failing_requested_dependency_aborts_at_the_first_failure() {
    let (performed, outcome) =
        drive(Workflow::begin(&request("shop", "axum", Some(&["good", "bad", "never"]))), |step| {
            step.action != add("shop", "bad", None)
        });
    assert_eq!(
        actions(&performed),
        vec![
            create("shop"),
            add("shop", "axum", None),
            add("shop", "good", None),
            add("shop", "bad", None),
        ]
    );
    assert_eq!(
        outcome,
        Outcome::Aborted { failed: step(Stage::AddRequested, add("shop", "bad", None)) }
    );
}

#[test]
fn a_failing_template_dependency_aborts() {
    let (performed, outcome) = drive(Workflow::begin(&request("shop", "axum", None)), |step| {
        step.action != add("shop", "serde", Some("derive"))
    });
    assert_eq!(performed.len(), 4);
    assert_eq!(
        outcome,
        Outcome::Aborted { failed: step(Stage::AddRequired, add("shop", "serde", Some("derive"))) }
    );
}

#[test]
fn a_failing_write_is_fatal() {
    let (performed, outcome) = drive(Workflow::begin(&request("shop", "axum", None)), |step| {
        step.stage != Stage::WriteMainSource
    });
    assert_eq!(performed.len(), 3);
    assert_eq!(
        outcome,
        Outcome::Fatal {
            failed: step(
                Stage::WriteMainSource,
                file(&["shop", "src", "main.rs"], get_main_content("axum")),
            ),
        }
    );
}

#[test]
fn a_failing_directory_is_fatal() {
    let (performed, outcome) = drive(Workflow::begin(&request("shop", "rocket", None)), |step| {
        step.action != directory(&["shop", "src", "models"])
    });
    assert_eq!(performed.len(), 6);
    assert_eq!(
        outcome,
        Outcome::Fatal {
            failed: step(Stage::CreateModules, directory(&["shop", "src", "models"])),
        }
    );
}

#[test]
fn a_failing_ignore_file_is_fatal() {
    let (performed, outcome) = drive(Workflow::begin(&request("shop", "rocket", None)), |step| {
        step.stage != Stage::WriteIgnoreFile
    });
    assert_eq!(performed.len(), 12);
    assert_eq!(
        outcome,
        Outcome::Fatal {
            failed: step(Stage::WriteIgnoreFile, file(&["shop", ".gitignore"], IGNORE_BODY)),
        }
    );
}

#[test]
fn a_failing_repository_is_reported_and_the_project_stands() {
    let (performed, outcome) = drive(Workflow::begin(&request("shop", "axum", None)), |step| {
        step.stage != Stage::InitRepository
    });
    assert_eq!(actions(&performed), axum_actions("shop"));
    assert_eq!(outcome, Outcome::Scaffolded { repository_initialized: false });
}

#[test]
fn scaffolding_twice_fails_the_second_time_at_project_creation() {
    let mut existing: Vec<String> = Vec::new();
    let mut run = |name: &str| {
        drive(scaffold_project(name, "axum", None), |step| match &step.action {
            Action::CreateProject { name } => {
                if existing.contains(name) {
                    false
                } else {
                    existing.push(name.clone());
                    true
                }
            },
            _ => true,
        })
    };
    let (first, first_outcome) = run("shop");
    assert_eq!(first.len(), 15);
    assert_eq!(first_outcome, Outcome::Scaffolded { repository_initialized: true });

    let (second, second_outcome) = run("shop");
    assert_eq!(actions(&second), vec![create("shop")]);
    assert_eq!(
        second_outcome,
        Outcome::Aborted { failed: step(Stage::CreateProject, create("shop")) }
    );
}

#[test]
fn scaffold_project_starts_the_run_of_its_request() {
    let direct = scaffold_project("shop", "axum", Some(vec!["dotenvy".to_string()]));
    let through = Workflow::begin(&request("shop", "axum", Some(&["dotenvy"])));
    assert_eq!(drive(direct, |_| true), drive(through, |_| true));
}

#[test]
fn the_first_step_in_hand_is_the_project_creation() {
    let workflow = scaffold_project("shop", "rocket", None);
    assert!(!workflow.is_finished());
    assert_eq!(workflow.progress(), Progress::Perform(step(Stage::CreateProject, create("shop"))));
}

#[test]
fn a_finished_run_ignores_further_results() {
    let mut workflow = scaffold_project("shop", "axum", None);
    let ended = workflow.advance(false);
    assert!(workflow.is_finished());
    assert_eq!(workflow.advance(true), ended);
    assert_eq!(workflow.advance(false), ended);
    workflow.record(true);
    assert_eq!(workflow.progress(), ended);

    let mut whole = scaffold_project("shop", "rocket", None);
    for _ in 0..13 {
        assert!(!whole.is_finished());
        whole.record(true);
    }
    assert!(whole.is_finished());
    let done = Progress::Finished(Outcome::Scaffolded { repository_initialized: true });
    assert_eq!(whole.progress(), done);
    assert_eq!(whole.advance(false), done);
}

#[test]
fn record_and_progress_together_are_advance() {
    let mut stepwise = scaffold_project("shop", "actix-web", None);
    let mut at_once = scaffold_project("shop", "actix-web", None);
    for result in [true, true, true, false, true] {
        stepwise.record(result);
        assert_eq!(stepwise.progress(), at_once.advance(result));
    }
}

#[test]
fn a_copy_of_a_request_is_equal_to_it() {
    let value = request("shop", "axum", Some(&["dotenvy"]));
    assert_eq!(value.clone(), value);
    let bare = request("shop", "axum", None);
    assert_eq!(bare.clone(), bare);
}
