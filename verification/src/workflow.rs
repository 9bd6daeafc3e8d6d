//! The scaffolding workflow: which actions make up the scaffolding of a
//! project, in which order, and what the failure of one of them means.
//!
//! The workflow performs nothing itself. It hands out one step at a time;
//! the caller carries the step's action out and reports whether it
//! succeeded, and the workflow answers with the next step or with the
//! outcome of the whole run.

use vstd::prelude::*;
use vstd::string::*;
use crate::action::{Action, ActionView, FailurePolicy};
use crate::layout::{create_gitignore, create_module_dir, modules, write_main_source};
use crate::layout::{ignore_file_write, main_source_write, module_creation, module_names};
use crate::template::{classify, Dependency, DependencyView, Framework};
use crate::text::copy_texts;

verus! {

/// The parts of the work, in the order in which they are done.
#[derive(Clone, Copy, Debug, PartialEq, Eq, Structural)]
pub enum Stage {
    /// The package manager creates the project.
    CreateProject,
    /// The framework is added as a dependency.
    AddFramework,
    /// The dependencies that the user asked for are added.
    AddRequested,
    /// The framework's template replaces the generated main source file.
    WriteMainSource,
    /// The dependencies that the template needs are added.
    AddRequired,
    /// The module directories are created, each with its declaration file.
    CreateModules,
    /// The ignore file is written.
    WriteIgnoreFile,
    /// The project is put under version control.
    InitRepository,
}

impl Stage {
    /// The place of the stage in the order of the work, counted from one.
    pub open spec fn number(self) -> nat {
        match self {
            Stage::CreateProject => 1,
            Stage::AddFramework => 2,
            Stage::AddRequested => 3,
            Stage::WriteMainSource => 4,
            Stage::AddRequired => 5,
            Stage::CreateModules => 6,
            Stage::WriteIgnoreFile => 7,
            Stage::InitRepository => 8,
        }
    }

    /// The place of the stage in the order of the work, counted from one.
    pub fn ordinal(self) -> (number: u8)
        ensures
            number == self.number(),
    {
        match self {
            Stage::CreateProject => 1,
            Stage::AddFramework => 2,
            Stage::AddRequested => 3,
            Stage::WriteMainSource => 4,
            Stage::AddRequired => 5,
            Stage::CreateModules => 6,
            Stage::WriteIgnoreFile => 7,
            Stage::InitRepository => 8,
        }
    }
}

/// One action of the workflow, with the stage that it belongs to.
#[derive(Debug, PartialEq, Eq)]
pub struct Step {
    pub stage: Stage,
    pub action: Action,
}

pub struct StepView {
    pub stage: Stage,
    pub action: ActionView,
}

impl View for Step {
    type V = StepView;

    open spec fn view(&self) -> StepView {
        StepView { stage: self.stage, action: self.action@ }
    }
}

impl DeepView for Step {
    type V = StepView;

    open spec fn deep_view(&self) -> StepView {
        self@
    }
}

impl Clone for Step {
    fn clone(&self) -> (copy: Self)
        ensures
            copy@ == self@,
    {
        Step { stage: self.stage, action: self.action.clone() }
    }
}

/// What the user asks for: a project, the framework to build it on, and
/// further dependencies, if any.
#[derive(Debug, PartialEq, Eq)]
pub struct ScaffoldRequest {
    pub project_name: String,
    pub framework_identifier: String,
    pub additional_dependencies: Option<Vec<String>>,
}

pub struct ScaffoldRequestView {
    pub project_name: Seq<char>,
    pub framework_identifier: Seq<char>,
    pub additional_dependencies: Option<Seq<Seq<char>>>,
}

impl ScaffoldRequestView {
    /// The dependencies that the user asked for; none where the list is
    /// absent.
    pub open spec fn requested(self) -> Seq<Seq<char>> {
        match self.additional_dependencies {
            Some(names) => names,
            None => Seq::empty(),
        }
    }
}

impl View for ScaffoldRequest {
    type V = ScaffoldRequestView;

    open spec fn view(&self) -> ScaffoldRequestView {
        ScaffoldRequestView {
            project_name: self.project_name@,
            framework_identifier: self.framework_identifier@,
            additional_dependencies: self.additional_dependencies.deep_view(),
        }
    }
}

impl Clone for ScaffoldRequest {
    fn clone(&self) -> (copy: Self)
        ensures
            copy@ == self@,
    {
        ScaffoldRequest {
            project_name: self.project_name.clone(),
            framework_identifier: self.framework_identifier.clone(),
            additional_dependencies: match &self.additional_dependencies {
                Some(names) => Some(copy_texts(names)),
                None => None,
            },
        }
    }
}

/// The step that creates `project`.
pub open spec fn creation_step(project: Seq<char>) -> StepView {
    StepView { stage: Stage::CreateProject, action: ActionView::CreateProject { name: project } }
}

/// The step that adds `dependency` to `project` as part of `stage`.
pub open spec fn addition_step(
    stage: Stage,
    project: Seq<char>,
    dependency: DependencyView,
) -> StepView {
    StepView { stage, action: ActionView::AddDependency { project, dependency } }
}

/// The step that adds the framework itself, without a feature.
pub open spec fn framework_step(project: Seq<char>, framework: Seq<char>) -> StepView {
    addition_step(
        Stage::AddFramework,
        project,
        DependencyView { name: framework, feature: None },
    )
}

/// The steps that add what the user asked for, in the user's order and
/// without features.
pub open spec fn requested_steps(project: Seq<char>, names: Seq<Seq<char>>) -> Seq<StepView> {
    Seq::new(
        names.len(),
        |i: int|
            addition_step(
                Stage::AddRequested,
                project,
                DependencyView { name: names[i], feature: None },
            ),
    )
}

/// The step that writes the framework's template over the main source
/// file.
pub open spec fn main_source_step(project: Seq<char>, framework: Seq<char>) -> StepView {
    StepView {
        stage: Stage::WriteMainSource,
        action: main_source_write(project, classify(framework).body()),
    }
}

/// The steps that add what the template needs, in the template's order
/// and each with its feature.
pub open spec fn required_steps(project: Seq<char>, dependencies: Seq<DependencyView>) -> Seq<
    StepView,
> {
    Seq::new(
        dependencies.len(),
        |i: int| addition_step(Stage::AddRequired, project, dependencies[i]),
    )
}

/// The two steps that give `project` the module `module`.
pub open spec fn module_steps(project: Seq<char>, module: Seq<char>) -> Seq<StepView> {
    seq![
        StepView { stage: Stage::CreateModules, action: module_creation(project, module)[0] },
        StepView { stage: Stage::CreateModules, action: module_creation(project, module)[1] },
    ]
}

/// The steps that give `project` the modules `names`, one module after the
/// other.
pub open spec fn modules_steps(project: Seq<char>, names: Seq<Seq<char>>) -> Seq<StepView>
    decreases names.len(),
{
    if names.len() == 0 {
        Seq::empty()
    } else {
        modules_steps(project, names.drop_last()) + module_steps(project, names.last())
    }
}

/// The step that writes the ignore file.
pub open spec fn ignore_step(project: Seq<char>) -> StepView {
    StepView { stage: Stage::WriteIgnoreFile, action: ignore_file_write(project) }
}

/// The step that puts `project` under version control.
pub open spec fn repository_step(project: Seq<char>) -> StepView {
    StepView {
        stage: Stage::InitRepository,
        action: ActionView::InitRepository { project },
    }
}

/// Everything that scaffolding a project takes, in order: the project is
/// created; the framework is added; what the user asked for is added; the
/// main source file is replaced; what the template needs is added; the
/// module directories are created; the ignore file is written; the project
/// is put under version control.
pub open spec fn plan(request: ScaffoldRequestView) -> Seq<StepView> {
    let project = request.project_name;
    let framework = request.framework_identifier;
    seq![creation_step(project), framework_step(project, framework)] + requested_steps(
        project,
        request.requested(),
    ) + seq![main_source_step(project, framework)] + required_steps(
        project,
        classify(framework).requirements(),
    ) + modules_steps(project, module_names()) + seq![
        ignore_step(project),
        repository_step(project),
    ]
}

/// Puts one more step at the end of a list of steps.
fn push_step(steps: &mut Vec<Step>, stage: Stage, action: Action)
    ensures
        final(steps).deep_view() == old(steps).deep_view().push(StepView { stage, action: action@ }),
{
    let ghost before = steps.deep_view();
    steps.push(Step { stage, action });
    assert(steps.deep_view() =~= before.push(StepView { stage, action: action@ }));
}

impl ScaffoldRequest {
    /// The steps that scaffold the project of this request, in the order in
    /// which they are to be carried out.
    pub fn plan(&self) -> (steps: Vec<Step>)
        ensures
            steps.deep_view() == plan(self@),
    {
        let project = self.project_name.as_str();
        let framework = self.framework_identifier.as_str();
        let mut steps: Vec<Step> = Vec::new();

        push_step(
            &mut steps,
            Stage::CreateProject,
            Action::CreateProject { name: project.to_owned() },
        );
        push_step(
            &mut steps,
            Stage::AddFramework,
            Action::AddDependency {
                project: project.to_owned(),
                dependency: Dependency { name: framework.to_owned(), feature: None },
            },
        );
        let ghost opening = seq![creation_step(project@), framework_step(project@, framework@)];
        assert(steps.deep_view() =~= opening);

        match &self.additional_dependencies {
            Some(names) => {
                let mut index: usize = 0;
                while index < names.len()
                    invariant
                        index <= names.len(),
                        steps.deep_view() == opening + requested_steps(
                            project@,
                            names.deep_view().take(index as int),
                        ),
                    decreases names.len() - index,
                {
                    let ghost before = steps.deep_view();
                    push_step(
                        &mut steps,
                        Stage::AddRequested,
                        Action::AddDependency {
                            project: project.to_owned(),
                            dependency: Dependency { name: names[index].clone(), feature: None },
                        },
                    );
                    index += 1;
                    assert(steps.deep_view() =~= opening + requested_steps(
                        project@,
                        names.deep_view().take(index as int),
                    ));
                }
                assert(names.deep_view().take(index as int) =~= names.deep_view());
            },
            None => {
                assert(steps.deep_view() =~= opening + requested_steps(
                    project@,
                    self@.requested(),
                ));
            },
        }
        let ghost requested = opening + requested_steps(project@, self@.requested());
        assert(steps.deep_view() == requested);

        let template = Framework::from_identifier(framework);
        push_step(
            &mut steps,
            Stage::WriteMainSource,
            write_main_source(project, template.main_content()),
        );
        let ghost written = requested + seq![main_source_step(project@, framework@)];
        assert(steps.deep_view() =~= written);

        let required = template.extra_dependencies();
        let mut index: usize = 0;
        while index < required.len()
            invariant
                index <= required.len(),
                required.deep_view() == classify(framework@).requirements(),
                steps.deep_view() == written + required_steps(
                    project@,
                    required.deep_view().take(index as int),
                ),
            decreases required.len() - index,
        {
            push_step(
                &mut steps,
                Stage::AddRequired,
                Action::AddDependency {
                    project: project.to_owned(),
                    dependency: required[index].clone(),
                },
            );
            index += 1;
            assert(steps.deep_view() =~= written + required_steps(
                project@,
                required.deep_view().take(index as int),
            ));
        }
        assert(required.deep_view().take(index as int) =~= required.deep_view());
        let ghost supplied = written + required_steps(
            project@,
            classify(framework@).requirements(),
        );
        assert(steps.deep_view() == supplied);

        let names = modules();
        let mut index: usize = 0;
        while index < names.len()
            invariant
                index <= names.len(),
                names.deep_view() == module_names(),
                steps.deep_view() == supplied + modules_steps(
                    project@,
                    module_names().take(index as int),
                ),
            decreases names.len() - index,
        {
            let actions = create_module_dir(project, names[index]);
            let ghost module = module_names()[index as int];
            assert(names[index as int]@ == names.deep_view()[index as int]);
            assert(actions.deep_view() == module_creation(project@, module));
            assert(actions.len() == actions.deep_view().len());
            assert(actions[0]@ == actions.deep_view()[0]);
            assert(actions[1]@ == actions.deep_view()[1]);
            push_step(&mut steps, Stage::CreateModules, actions[0].clone());
            push_step(&mut steps, Stage::CreateModules, actions[1].clone());
            index += 1;
            proof {
                let done = module_names().take(index as int);
                assert(done.drop_last() =~= module_names().take(index - 1));
                assert(done.last() == module);
                assert(steps.deep_view() =~= supplied + modules_steps(project@, done));
            }
        }
        assert(module_names().take(index as int) =~= module_names());
        let ghost laid_out = supplied + modules_steps(project@, module_names());
        assert(steps.deep_view() == laid_out);

        push_step(&mut steps, Stage::WriteIgnoreFile, create_gitignore(project));
        push_step(
            &mut steps,
            Stage::InitRepository,
            Action::InitRepository { project: project.to_owned() },
        );
        assert(steps.deep_view() =~= laid_out + seq![
            ignore_step(project@),
            repository_step(project@),
        ]);
        steps
    }
}

/// How a run of the workflow ended.
#[derive(Debug, PartialEq, Eq)]
pub enum Outcome {
    /// Every step was carried out and the project stands. Only putting it
    /// under version control may have failed: that failure is reported, and
    /// undoes nothing.
    Scaffolded { repository_initialized: bool },
    /// The package manager failed at `failed`. Nothing was done after it,
    /// and nothing that was done before it is undone.
    Aborted { failed: Step },
    /// The file system failed at `failed`: the process is to end at once.
    Fatal { failed: Step },
}

pub enum OutcomeView {
    Scaffolded { repository_initialized: bool },
    Aborted { failed: StepView },
    Fatal { failed: StepView },
}

impl View for Outcome {
    type V = OutcomeView;

    open spec fn view(&self) -> OutcomeView {
        match self {
            Outcome::Scaffolded { repository_initialized } => OutcomeView::Scaffolded {
                repository_initialized: *repository_initialized,
            },
            Outcome::Aborted { failed } => OutcomeView::Aborted { failed: failed@ },
            Outcome::Fatal { failed } => OutcomeView::Fatal { failed: failed@ },
        }
    }
}

/// What the caller of the workflow is to do now.
#[derive(Debug, PartialEq, Eq)]
pub enum Progress {
    /// Carry out the step's action and report whether it succeeded.
    Perform(Step),
    /// Nothing: the run is over.
    Finished(Outcome),
}

pub enum ProgressView {
    Perform(StepView),
    Finished(OutcomeView),
}

impl View for Progress {
    type V = ProgressView;

    open spec fn view(&self) -> ProgressView {
        match self {
            Progress::Perform(step) => ProgressView::Perform(step@),
            Progress::Finished(outcome) => ProgressView::Finished(outcome@),
        }
    }
}

/// The state of a run: the plan, how far the run has come, and what went
/// wrong on the way.
pub struct WorkflowView {
    /// The steps of the run, in order.
    pub plan: Seq<StepView>,
    /// The number of steps that are behind the run; the step at this place
    /// is the one in hand.
    pub position: nat,
    /// Whether the step in hand failed and ended the run.
    pub halted: bool,
    /// Whether a step failed that does not end the run.
    pub reported: bool,
}

impl WorkflowView {
    /// The states that a run can be in.
    pub open spec fn wf(self) -> bool {
        &&& self.position <= self.plan.len()
        &&& self.halted ==> {
            &&& self.position < self.plan.len()
            &&& self.plan[self.position as int].action.policy() != FailurePolicy::Report
        }
    }

    /// Whether the run is over.
    pub open spec fn finished(self) -> bool {
        self.halted || self.position >= self.plan.len()
    }

    /// How the run ended, once it is over.
    pub open spec fn result(self) -> OutcomeView {
        if self.halted {
            let failed = self.plan[self.position as int];
            if failed.action.policy() == FailurePolicy::Fatal {
                OutcomeView::Fatal { failed }
            } else {
                OutcomeView::Aborted { failed }
            }
        } else {
            OutcomeView::Scaffolded { repository_initialized: !self.reported }
        }
    }

    /// How the run ended; `None` while it is under way.
    pub open spec fn outcome(self) -> Option<OutcomeView> {
        if self.finished() {
            Some(self.result())
        } else {
            None
        }
    }

    /// What the caller is to do in this state.
    pub open spec fn progress(self) -> ProgressView {
        if self.finished() {
            ProgressView::Finished(self.result())
        } else {
            ProgressView::Perform(self.plan[self.position as int])
        }
    }

    /// The state after the step in hand succeeded or failed. A success
    /// moves on to the next step. A failure does so only where it is merely
    /// reported; every other failure ends the run. A run that is over stays
    /// as it is.
    pub open spec fn after(self, succeeded: bool) -> WorkflowView {
        if self.finished() {
            self
        } else if succeeded {
            WorkflowView { position: self.position + 1, ..self }
        } else if self.plan[self.position as int].action.policy() == FailurePolicy::Report {
            WorkflowView { position: self.position + 1, reported: true, ..self }
        } else {
            WorkflowView { halted: true, ..self }
        }
    }

    /// The steps that were carried out, whatever came of them.
    pub open spec fn performed(self) -> Seq<StepView> {
        if self.halted {
            self.plan.take((self.position + 1) as int)
        } else {
            self.plan.take(self.position as int)
        }
    }

    /// The state after the results of one step after the other came in.
    pub open spec fn run(self, results: Seq<bool>) -> WorkflowView
        decreases results.len(),
    {
        if results.len() == 0 {
            self
        } else {
            self.after(results[0]).run(results.drop_first())
        }
    }
}

/// The state in which a run of `plan` starts: nothing is done, the first
/// step is in hand.
pub open spec fn start(plan: Seq<StepView>) -> WorkflowView {
    WorkflowView { plan, position: 0, halted: false, reported: false }
}

/// A run of the scaffolding workflow.
pub struct Workflow {
    plan: Vec<Step>,
    position: usize,
    halted: bool,
    reported: bool,
}

impl View for Workflow {
    type V = WorkflowView;

    closed spec fn view(&self) -> WorkflowView {
        WorkflowView {
            plan: self.plan.deep_view(),
            position: self.position as nat,
            halted: self.halted,
            reported: self.reported,
        }
    }
}

impl Workflow {
    #[verifier::type_invariant]
    spec fn well_formed(&self) -> bool {
        self@.wf()
    }

    /// Starts a run for `request`. The run depends on the request alone:
    /// nothing of an earlier run is remembered.
    pub fn begin(request: &ScaffoldRequest) -> (workflow: Workflow)
        ensures
            workflow@ == start(plan(request@)),
    {
        Workflow { plan: request.plan(), position: 0, halted: false, reported: false }
    }

    /// Whether the run is over.
    pub fn is_finished(&self) -> (finished: bool)
        ensures
            finished == self@.finished(),
            self@.wf(),
    {
        proof {
            use_type_invariant(self);
        }
        self.halted || self.position >= self.plan.len()
    }

    /// What is to be done now: the step in hand, or nothing once the run
    /// is over.
    pub fn progress(&self) -> (progress: Progress)
        ensures
            progress@ == self@.progress(),
            self@.wf(),
    {
        proof {
            use_type_invariant(self);
        }
        if self.halted {
            assert(self.plan[self.position as int]@ == self@.plan[self.position as int]);
            let failed = self.plan[self.position].clone();
            match failed.action.on_failure() {
                FailurePolicy::Fatal => Progress::Finished(Outcome::Fatal { failed }),
                _ => Progress::Finished(Outcome::Aborted { failed }),
            }
        } else if self.position >= self.plan.len() {
            Progress::Finished(Outcome::Scaffolded { repository_initialized: !self.reported })
        } else {
            assert(self.plan[self.position as int]@ == self@.plan[self.position as int]);
            Progress::Perform(self.plan[self.position].clone())
        }
    }

    /// Takes in whether the step in hand succeeded.
    pub fn record(&mut self, succeeded: bool)
        ensures
            final(self)@ == old(self)@.after(succeeded),
    {
        proof {
            use_type_invariant(&*self);
        }
        if self.halted || self.position >= self.plan.len() {
            return ;
        }
        assert(self.plan[self.position as int]@ == self@.plan[self.position as int]);
        if succeeded {
            self.position = self.position + 1;
        } else {
            match self.plan[self.position].action.on_failure() {
                FailurePolicy::Report => {
                    self.reported = true;
                    self.position = self.position + 1;
                },
                _ => {
                    self.halted = true;
                },
            }
        }
    }

    /// Takes in whether the step in hand succeeded, and says what is to be
    /// done next.
    pub fn advance(&mut self, succeeded: bool) -> (progress: Progress)
        ensures
            final(self)@ == old(self)@.after(succeeded),
            progress@ == final(self)@.progress(),
    {
        self.record(succeeded);
        self.progress()
    }
}

/// Starts the scaffolding of the project `name` on `framework`, with the
/// further dependencies `deps`. The first step is in hand.
pub fn scaffold_project(name: &str, framework: &str, deps: Option<Vec<String>>) -> (workflow:
    Workflow)
    ensures
        workflow@ == start(
            plan(
                ScaffoldRequestView {
                    project_name: name@,
                    framework_identifier: framework@,
                    additional_dependencies: deps.deep_view(),
                },
            ),
        ),
{
    let request = ScaffoldRequest {
        project_name: name.to_owned(),
        framework_identifier: framework.to_owned(),
        additional_dependencies: deps,
    };
    Workflow::begin(&request)
}

} // verus!
