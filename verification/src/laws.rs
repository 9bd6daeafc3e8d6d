//! What holds of every run of the scaffolding workflow.

use vstd::prelude::*;
use crate::action::{ActionView, FailurePolicy};
use crate::layout::{module_names, IGNORE_BODY};
use crate::template::{classify, serde_derive, tokio_full, DependencyView, AXUM_MAIN};
use crate::workflow::{creation_step, modules_steps, plan, repository_step, start};
use crate::workflow::{OutcomeView, ScaffoldRequestView, Stage, StepView, WorkflowView};

verus! {

/// The steps that create modules come in pairs, belong to the stage of the
/// modules and are the file system's.
proof fn lemma_modules_steps(project: Seq<char>, names: Seq<Seq<char>>)
    ensures
        modules_steps(project, names).len() == 2 * names.len(),
        forall|k: int|
            0 <= k < modules_steps(project, names).len() ==> {
                &&& (#[trigger] modules_steps(project, names)[k]).stage == Stage::CreateModules
                &&& modules_steps(project, names)[k].action.policy() == FailurePolicy::Fatal
            },
    decreases names.len(),
{
    if names.len() > 0 {
        lemma_modules_steps(project, names.drop_last());
    }
}

/// The stage of the step at place `index` of a plan with `requested`
/// dependencies of the user's and `required` ones of the template's.
pub open spec fn stage_of(index: int, requested: int, required: int) -> Stage {
    if index == 0 {
        Stage::CreateProject
    } else if index == 1 {
        Stage::AddFramework
    } else if index < 2 + requested {
        Stage::AddRequested
    } else if index == 2 + requested {
        Stage::WriteMainSource
    } else if index < 3 + requested + required {
        Stage::AddRequired
    } else if index < 11 + requested + required {
        Stage::CreateModules
    } else if index == 11 + requested + required {
        Stage::WriteIgnoreFile
    } else {
        Stage::InitRepository
    }
}

/// What the failure of a step means, by the stage of the step.
pub open spec fn policy_of(stage: Stage) -> FailurePolicy {
    match stage {
        Stage::CreateProject => FailurePolicy::Abort,
        Stage::AddFramework => FailurePolicy::Abort,
        Stage::AddRequested => FailurePolicy::Abort,
        Stage::WriteMainSource => FailurePolicy::Fatal,
        Stage::AddRequired => FailurePolicy::Abort,
        Stage::CreateModules => FailurePolicy::Fatal,
        Stage::WriteIgnoreFile => FailurePolicy::Fatal,
        Stage::InitRepository => FailurePolicy::Report,
    }
}

/// Every plan has thirteen steps and one more for each dependency, the
/// user's and the template's. It starts with the creation of the project
/// and ends with putting it under version control.
pub proof fn lemma_plan_ends(request: ScaffoldRequestView)
    ensures
        plan(request).len() == 13 + request.requested().len() + classify(
            request.framework_identifier,
        ).requirements().len(),
        plan(request)[0] == creation_step(request.project_name),
        plan(request).last() == repository_step(request.project_name),
{
    lemma_modules_steps(request.project_name, module_names());
    assert(module_names().len() == 4);
}

/// The stage of a step follows from its place in the plan, and what its
/// failure means follows from its stage.
pub proof fn lemma_plan_stage(request: ScaffoldRequestView, index: int)
    requires
        0 <= index < plan(request).len(),
    ensures
        plan(request)[index].stage == stage_of(
            index,
            request.requested().len() as int,
            classify(request.framework_identifier).requirements().len() as int,
        ),
        plan(request)[index].action.policy() == policy_of(plan(request)[index].stage),
{
    let project = request.project_name;
    lemma_plan_ends(request);
    lemma_modules_steps(project, module_names());
    let requested = request.requested().len() as int;
    let required = classify(request.framework_identifier).requirements().len() as int;
    if 3 + requested + required <= index < 11 + requested + required {
        let k = index - (3 + requested + required);
        assert(plan(request)[index] == modules_steps(project, module_names())[k]);
    }
}

/// Only the failure of the last step of a plan is merely reported.
pub proof fn lemma_only_last_failure_is_reported(request: ScaffoldRequestView, index: int)
    requires
        0 <= index < plan(request).len(),
    ensures
        plan(request)[index].action.policy() == FailurePolicy::Report <==> index == plan(
            request,
        ).len() - 1,
{
    lemma_plan_ends(request);
    lemma_plan_stage(request, index);
}

/// The stages of a plan are in order: no step belongs to an earlier stage
/// than a step before it.
pub proof fn lemma_stages_in_order(request: ScaffoldRequestView, earlier: int, later: int)
    requires
        0 <= earlier <= later < plan(request).len(),
    ensures
        plan(request)[earlier].stage.number() <= plan(request)[later].stage.number(),
{
    lemma_plan_stage(request, earlier);
    lemma_plan_stage(request, later);
}

/// A run never leaves the states that a run can be in, and never changes
/// its plan.
pub proof fn lemma_run_keeps_well_formed(state: WorkflowView, results: Seq<bool>)
    requires
        state.wf(),
    ensures
        state.run(results).wf(),
        state.run(results).plan == state.plan,
    decreases results.len(),
{
    if results.len() > 0 {
        lemma_run_keeps_well_formed(state.after(results[0]), results.drop_first());
    }
}

/// A run that is over takes no notice of further results.
pub proof fn lemma_finished_run_stays(state: WorkflowView, results: Seq<bool>)
    requires
        state.finished(),
    ensures
        state.run(results) == state,
    decreases results.len(),
{
    if results.len() > 0 {
        lemma_finished_run_stays(state, results.drop_first());
    }
}

/// Taking in one result is one step of the run.
pub proof fn lemma_run_of_one(state: WorkflowView, result: bool)
    ensures
        state.run(seq![result]) == state.after(result),
{
    reveal_with_fuel(WorkflowView::run, 2);
    assert(seq![result].drop_first() =~= Seq::<bool>::empty());
}

/// Taking in results one after the other is the same as taking in a first
/// part of them and then the rest.
pub proof fn lemma_run_in_two_parts(state: WorkflowView, first: Seq<bool>, rest: Seq<bool>)
    ensures
        state.run(first + rest) == state.run(first).run(rest),
    decreases first.len(),
{
    if first.len() == 0 {
        assert(first + rest =~= rest);
    } else {
        assert((first + rest).drop_first() =~= first.drop_first() + rest);
        lemma_run_in_two_parts(state.after(first[0]), first.drop_first(), rest);
    }
}

/// Each success moves a run one step on, and changes nothing else.
pub proof fn lemma_successes_move_on(state: WorkflowView, results: Seq<bool>)
    requires
        !state.halted,
        state.position + results.len() <= state.plan.len(),
        forall|i: int| 0 <= i < results.len() ==> results[i],
    ensures
        state.run(results) == (WorkflowView {
            position: state.position + results.len(),
            ..state
        }),
    decreases results.len(),
{
    if results.len() > 0 {
        lemma_successes_move_on(state.after(results[0]), results.drop_first());
    }
}

/// A run in which every step succeeds carries out the whole plan, in the
/// plan's order, and leaves the project scaffolded and under version
/// control.
pub proof fn lemma_unbroken_run(request: ScaffoldRequestView, results: Seq<bool>)
    requires
        results.len() == plan(request).len(),
        forall|i: int| 0 <= i < results.len() ==> results[i],
    ensures
        start(plan(request)).run(results).performed() == plan(request),
        start(plan(request)).run(results).outcome() == Some(
            OutcomeView::Scaffolded { repository_initialized: true },
        ),
{
    let begun = start(plan(request));
    lemma_successes_move_on(begun, results);
    assert(plan(request).take(plan(request).len() as int) =~= plan(request));
}

/// The first failure that is not merely reported ends the run. The steps
/// up to the failed one were carried out and no step after it; the outcome
/// names the failed step. Whatever is reported after that changes nothing.
pub proof fn lemma_run_stops_at_first_failure(
    request: ScaffoldRequestView,
    results: Seq<bool>,
    failed: int,
)
    requires
        0 <= failed < results.len(),
        failed < plan(request).len(),
        forall|i: int| 0 <= i < failed ==> results[i],
        !results[failed],
        plan(request)[failed].action.policy() != FailurePolicy::Report,
    ensures
        start(plan(request)).run(results).performed() == plan(request).take(failed + 1),
        start(plan(request)).run(results).outcome() == Some(
            if plan(request)[failed].action.policy() == FailurePolicy::Fatal {
                OutcomeView::Fatal { failed: plan(request)[failed] }
            } else {
                OutcomeView::Aborted { failed: plan(request)[failed] }
            },
        ),
{
    let begun = start(plan(request));
    let before = results.take(failed);
    let from = results.skip(failed);
    assert(results =~= before + from);
    lemma_run_in_two_parts(begun, before, from);
    lemma_successes_move_on(begun, before);
    let reached = begun.run(before);
    assert(reached.position == failed);
    let stopped = reached.after(from[0]);
    assert(stopped.halted);
    lemma_finished_run_stays(stopped, from.drop_first());
}

/// Where the project cannot be created, as when a directory of its name
/// is there already, the run ends with that one step: the failure is
/// reported, and not a single dependency is added.
pub proof fn lemma_failed_creation_adds_nothing(request: ScaffoldRequestView, results: Seq<bool>)
    requires
        results.len() > 0,
        !results[0],
    ensures
        start(plan(request)).run(results).performed() == seq![
            creation_step(request.project_name),
        ],
        start(plan(request)).run(results).outcome() == Some(
            OutcomeView::Aborted { failed: creation_step(request.project_name) },
        ),
        forall|i: int|
            0 <= i < start(plan(request)).run(results).performed().len() ==> !(
            #[trigger] start(plan(request)).run(results).performed()[i]).action.adds_dependency(),
{
    lemma_plan_ends(request);
    lemma_run_stops_at_first_failure(request, results, 0);
    assert(plan(request).take(1) =~= seq![creation_step(request.project_name)]);
}

/// Where everything succeeds but putting the project under version
/// control, the whole plan was carried out all the same and the project
/// stands: the failure does not undo the run, it is only reported.
pub proof fn lemma_repository_failure_is_reported(request: ScaffoldRequestView, results: Seq<bool>)
    requires
        results.len() == plan(request).len(),
        forall|i: int| 0 <= i < results.len() - 1 ==> results[i],
        !results.last(),
    ensures
        start(plan(request)).run(results).performed() == plan(request),
        start(plan(request)).run(results).outcome() == Some(
            OutcomeView::Scaffolded { repository_initialized: false },
        ),
{
    lemma_plan_ends(request);
    let steps = plan(request);
    let begun = start(steps);
    let before = results.drop_last();
    let from = seq![results.last()];
    assert(results =~= before + from);
    lemma_run_in_two_parts(begun, before, from);
    lemma_successes_move_on(begun, before);
    let reached = begun.run(before);
    assert(reached.position == steps.len() - 1);
    lemma_only_last_failure_is_reported(request, steps.len() - 1);
    lemma_run_of_one(reached, results.last());
    assert(steps.take(steps.len() as int) =~= steps);
}

/// The place of the first failure among the first `bound` results.
proof fn lemma_first_failure(results: Seq<bool>, bound: int) -> (first: int)
    requires
        0 <= bound <= results.len(),
        exists|i: int| 0 <= i < bound && !results[i],
    ensures
        0 <= first < bound,
        !results[first],
        forall|j: int| 0 <= j < first ==> results[j],
    decreases bound,
{
    if exists|i: int| 0 <= i < bound - 1 && !results[i] {
        lemma_first_failure(results, bound - 1)
    } else {
        bound - 1
    }
}

/// Once the result of every step is in, the run is over. It ends with the
/// project scaffolded exactly if no step failed before the last one; the
/// project is then under version control exactly if the last step
/// succeeded too.
pub proof fn lemma_scaffolded_means_no_failure(request: ScaffoldRequestView, results: Seq<bool>)
    requires
        results.len() >= plan(request).len(),
    ensures
        start(plan(request)).run(results).outcome() is Some,
        start(plan(request)).run(results).outcome() matches Some(
            OutcomeView::Scaffolded { repository_initialized },
        ) <==> forall|i: int| 0 <= i < plan(request).len() - 1 ==> results[i],
        start(plan(request)).run(results).outcome() matches Some(
            OutcomeView::Scaffolded { repository_initialized },
        ) ==> repository_initialized == results[plan(request).len() - 1],
{
    lemma_plan_ends(request);
    let steps = plan(request);
    let last = steps.len() - 1;
    let end = start(steps).run(results);
    if forall|i: int| 0 <= i < last ==> results[i] {
        let used = results.take(steps.len() as int);
        let unused = results.skip(steps.len() as int);
        assert(results =~= used + unused);
        lemma_run_in_two_parts(start(steps), used, unused);
        if results[last] {
            lemma_unbroken_run(request, used);
        } else {
            lemma_repository_failure_is_reported(request, used);
        }
        lemma_finished_run_stays(start(steps).run(used), unused);
        assert(end.outcome() == Some(
            OutcomeView::Scaffolded { repository_initialized: results[last] },
        ));
    } else {
        let failed = lemma_first_failure(results, last);
        lemma_only_last_failure_is_reported(request, failed);
        lemma_run_stops_at_first_failure(request, results, failed);
        assert(!(end.outcome() matches Some(OutcomeView::Scaffolded { .. })));
    }
}

/// The step of `stage` that creates the directory at `path`.
pub open spec fn directory_step(stage: Stage, path: Seq<Seq<char>>) -> StepView {
    StepView { stage, action: ActionView::CreateDirectory { path } }
}

/// The step of `stage` that writes `body` to the file at `path`.
pub open spec fn file_step(stage: Stage, path: Seq<Seq<char>>, body: Seq<char>) -> StepView {
    StepView { stage, action: ActionView::WriteFile { path, body } }
}

/// The step of `stage` that adds `name` to `project`, with `feature`.
pub open spec fn dependency_step(
    stage: Stage,
    project: Seq<char>,
    name: Seq<char>,
    feature: Option<Seq<char>>,
) -> StepView {
    StepView {
        stage,
        action: ActionView::AddDependency { project, dependency: DependencyView { name, feature } },
    }
}

/// What scaffolding on axum takes where the user asks for nothing more,
/// whatever the project is called: the project is created; axum is added;
/// the axum template is written; the serialization library and the async
/// runtime are added, each with its feature; the four modules are created;
/// the ignore file is written; the repository is initialized.
pub proof fn lemma_axum_plan(project: Seq<char>)
    ensures
        plan(
            ScaffoldRequestView {
                project_name: project,
                framework_identifier: "axum"@,
                additional_dependencies: None,
            },
        ) == seq![
            creation_step(project),
            dependency_step(Stage::AddFramework, project, "axum"@, None),
            file_step(Stage::WriteMainSource, seq![project, "src"@, "main.rs"@], AXUM_MAIN@),
            dependency_step(Stage::AddRequired, project, "serde"@, Some("derive"@)),
            dependency_step(Stage::AddRequired, project, "tokio"@, Some("full"@)),
            directory_step(Stage::CreateModules, seq![project, "src"@, "services"@]),
            file_step(
                Stage::CreateModules,
                seq![project, "src"@, "services"@, "mod.rs"@],
                Seq::empty(),
            ),
            directory_step(Stage::CreateModules, seq![project, "src"@, "models"@]),
            file_step(
                Stage::CreateModules,
                seq![project, "src"@, "models"@, "mod.rs"@],
                Seq::empty(),
            ),
            directory_step(Stage::CreateModules, seq![project, "src"@, "handlers"@]),
            file_step(
                Stage::CreateModules,
                seq![project, "src"@, "handlers"@, "mod.rs"@],
                Seq::empty(),
            ),
            directory_step(Stage::CreateModules, seq![project, "src"@, "routes"@]),
            file_step(
                Stage::CreateModules,
                seq![project, "src"@, "routes"@, "mod.rs"@],
                Seq::empty(),
            ),
            file_step(Stage::WriteIgnoreFile, seq![project, ".gitignore"@], IGNORE_BODY@),
            repository_step(project),
        ],
{
    let request = ScaffoldRequestView {
        project_name: project,
        framework_identifier: "axum"@,
        additional_dependencies: None,
    };
    let names = module_names();
    let three = names.drop_last();
    let two = three.drop_last();
    let one = two.drop_last();
    assert(one.drop_last().len() == 0);
    assert(modules_steps(project, one.drop_last()) =~= Seq::<StepView>::empty());
    assert(modules_steps(project, one).len() == 2);
    assert(modules_steps(project, two).len() == 4);
    assert(modules_steps(project, three).len() == 6);
    assert(modules_steps(project, names).len() == 8);
    let expected = seq![
        creation_step(project),
        dependency_step(Stage::AddFramework, project, "axum"@, None),
        file_step(Stage::WriteMainSource, seq![project, "src"@, "main.rs"@], AXUM_MAIN@),
        dependency_step(Stage::AddRequired, project, "serde"@, Some("derive"@)),
        dependency_step(Stage::AddRequired, project, "tokio"@, Some("full"@)),
        directory_step(Stage::CreateModules, seq![project, "src"@, "services"@]),
        file_step(
            Stage::CreateModules,
            seq![project, "src"@, "services"@, "mod.rs"@],
            Seq::empty(),
        ),
        directory_step(Stage::CreateModules, seq![project, "src"@, "models"@]),
        file_step(Stage::CreateModules, seq![project, "src"@, "models"@, "mod.rs"@], Seq::empty()),
        directory_step(Stage::CreateModules, seq![project, "src"@, "handlers"@]),
        file_step(
            Stage::CreateModules,
            seq![project, "src"@, "handlers"@, "mod.rs"@],
            Seq::empty(),
        ),
        directory_step(Stage::CreateModules, seq![project, "src"@, "routes"@]),
        file_step(Stage::CreateModules, seq![project, "src"@, "routes"@, "mod.rs"@], Seq::empty()),
        file_step(Stage::WriteIgnoreFile, seq![project, ".gitignore"@], IGNORE_BODY@),
        repository_step(project),
    ];
    assert(plan(request) =~= expected);
}

} // verus!
