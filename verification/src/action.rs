//! The actions that scaffolding a project is made of.
//!
//! An action says what is to be done, not how: the caller performs it and
//! reports whether it succeeded. What a failure means for the rest of the
//! work depends on the kind of action alone.

use vstd::prelude::*;
use vstd::string::*;
use crate::command::{add_dependency, addition_of, create_project, creation_of};
use crate::command::{Invocation, InvocationView};
use crate::template::{Dependency, DependencyView};
use crate::text::copy_texts;

verus! {

/// A path below the directory that the tool runs in, component by
/// component: the first names an entry of that directory, each further one
/// an entry of the one before.
#[derive(Debug, PartialEq, Eq)]
pub struct ProjectPath {
    pub components: Vec<String>,
}

impl View for ProjectPath {
    type V = Seq<Seq<char>>;

    open spec fn view(&self) -> Seq<Seq<char>> {
        self.components.deep_view()
    }
}

impl DeepView for ProjectPath {
    type V = Seq<Seq<char>>;

    open spec fn deep_view(&self) -> Seq<Seq<char>> {
        self@
    }
}

impl Clone for ProjectPath {
    fn clone(&self) -> (copy: Self)
        ensures
            copy@ == self@,
    {
        ProjectPath { components: copy_texts(&self.components) }
    }
}

/// One thing to be done to the outside world.
#[derive(Debug, PartialEq, Eq)]
pub enum Action {
    /// Have the package manager create the project.
    CreateProject { name: String },
    /// Have the package manager add a dependency to the project.
    AddDependency { project: String, dependency: Dependency },
    /// Write a file, replacing what is there.
    WriteFile { path: ProjectPath, body: String },
    /// Create a directory, and those above it that are missing.
    CreateDirectory { path: ProjectPath },
    /// Put the project under version control, with everything in it
    /// committed once.
    InitRepository { project: String },
}

pub enum ActionView {
    CreateProject { name: Seq<char> },
    AddDependency { project: Seq<char>, dependency: DependencyView },
    WriteFile { path: Seq<Seq<char>>, body: Seq<char> },
    CreateDirectory { path: Seq<Seq<char>> },
    InitRepository { project: Seq<char> },
}

/// What the failure of an action means for the actions after it.
#[derive(Clone, Copy, Debug, PartialEq, Eq, Structural)]
pub enum FailurePolicy {
    /// The failure is reported and nothing further is done.
    Abort,
    /// The failure ends the process on the spot.
    Fatal,
    /// The failure is reported and the work goes on.
    Report,
}

impl ActionView {
    /// The package manager's failures abort, those of the file system are
    /// fatal, and that of version control is only reported.
    pub open spec fn policy(self) -> FailurePolicy {
        match self {
            ActionView::CreateProject { .. } => FailurePolicy::Abort,
            ActionView::AddDependency { .. } => FailurePolicy::Abort,
            ActionView::WriteFile { .. } => FailurePolicy::Fatal,
            ActionView::CreateDirectory { .. } => FailurePolicy::Fatal,
            ActionView::InitRepository { .. } => FailurePolicy::Report,
        }
    }

    /// The command line of an action that the package manager performs.
    pub open spec fn command_line(self) -> Option<InvocationView> {
        match self {
            ActionView::CreateProject { name } => Some(creation_of(name)),
            ActionView::AddDependency { project, dependency } => Some(
                addition_of(project, dependency.name, dependency.feature),
            ),
            _ => None,
        }
    }

    /// Whether the action adds a dependency.
    pub open spec fn adds_dependency(self) -> bool {
        self is AddDependency
    }
}

impl View for Action {
    type V = ActionView;

    open spec fn view(&self) -> ActionView {
        match self {
            Action::CreateProject { name } => ActionView::CreateProject { name: name@ },
            Action::AddDependency { project, dependency } => ActionView::AddDependency {
                project: project@,
                dependency: dependency@,
            },
            Action::WriteFile { path, body } => ActionView::WriteFile { path: path@, body: body@ },
            Action::CreateDirectory { path } => ActionView::CreateDirectory { path: path@ },
            Action::InitRepository { project } => ActionView::InitRepository {
                project: project@,
            },
        }
    }
}

impl DeepView for Action {
    type V = ActionView;

    open spec fn deep_view(&self) -> ActionView {
        self@
    }
}

impl Clone for Action {
    fn clone(&self) -> (copy: Self)
        ensures
            copy@ == self@,
    {
        match self {
            Action::CreateProject { name } => Action::CreateProject { name: name.clone() },
            Action::AddDependency { project, dependency } => Action::AddDependency {
                project: project.clone(),
                dependency: dependency.clone(),
            },
            Action::WriteFile { path, body } => Action::WriteFile {
                path: path.clone(),
                body: body.clone(),
            },
            Action::CreateDirectory { path } => Action::CreateDirectory { path: path.clone() },
            Action::InitRepository { project } => Action::InitRepository {
                project: project.clone(),
            },
        }
    }
}

impl Action {
    /// What a failure of this action means for the actions after it.
    pub fn on_failure(&self) -> (policy: FailurePolicy)
        ensures
            policy == self@.policy(),
    {
        match self {
            Action::CreateProject { .. } => FailurePolicy::Abort,
            Action::AddDependency { .. } => FailurePolicy::Abort,
            Action::WriteFile { .. } => FailurePolicy::Fatal,
            Action::CreateDirectory { .. } => FailurePolicy::Fatal,
            Action::InitRepository { .. } => FailurePolicy::Report,
        }
    }

    /// The command line to run for an action that the package manager
    /// performs; `None` for every other action.
    pub fn invocation(&self) -> (invocation: Option<Invocation>)
        ensures
            invocation.deep_view() == self@.command_line(),
    {
        match self {
            Action::CreateProject { name } => Some(create_project(name.as_str())),
            Action::AddDependency { project, dependency } => {
                let feature: Option<&str> = match &dependency.feature {
                    Some(feature) => Some(feature.as_str()),
                    None => None,
                };
                Some(add_dependency(project.as_str(), dependency.name.as_str(), feature))
            },
            _ => None,
        }
    }
}

} // verus!
