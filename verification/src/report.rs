//! What the user is told when a step fails, and the status that the tool
//! exits with.

use vstd::prelude::*;
use vstd::string::*;
use crate::action::{Action, ActionView, ProjectPath};
use crate::workflow::{Outcome, OutcomeView, Stage, Step, StepView};

verus! {

/// The status of a run without a reported failure.
pub const EXIT_SUCCESS: i32 = 0;

/// The status of a run in which a failure was reported.
pub const EXIT_FAILURE: i32 = 1;

/// The components of a path, with a slash between each two.
pub open spec fn joined(components: Seq<Seq<char>>) -> Seq<char>
    decreases components.len(),
{
    if components.len() == 0 {
        Seq::empty()
    } else if components.len() == 1 {
        components[0]
    } else {
        joined(components.drop_last()) + "/"@ + components.last()
    }
}

/// What the user is told when `step` fails: which part of the work
/// failed, and on which project, dependency or path.
pub open spec fn failure_text(step: StepView) -> Seq<char> {
    match step.action {
        ActionView::CreateProject { name } => "Failed to create project '"@ + name + "'"@,
        ActionView::AddDependency { project, dependency } => if step.stage
            == Stage::AddFramework {
            "Failed to add framework dependency '"@ + dependency.name + "'"@
        } else {
            "Failed to add dependency '"@ + dependency.name + "'"@
        },
        ActionView::WriteFile { path, body } => "Failed to write "@ + joined(path),
        ActionView::CreateDirectory { path } => "Failed to create directory "@ + joined(path),
        ActionView::InitRepository { project } => "Failed to initialize git repository"@,
    }
}

impl OutcomeView {
    /// Whether the run reported a failure: every outcome does, but that of
    /// a run in which each step succeeded.
    pub open spec fn reports_failure(self) -> bool {
        self != (OutcomeView::Scaffolded { repository_initialized: true })
    }
}

/// The status to exit with: zero where no failure was reported, one where
/// one was.
pub open spec fn status_for(failure_reported: bool) -> i32 {
    if failure_reported {
        EXIT_FAILURE
    } else {
        EXIT_SUCCESS
    }
}

impl ProjectPath {
    /// The path as text, with a slash between each two components.
    pub fn display(&self) -> (text: String)
        ensures
            text@ == joined(self@),
    {
        let mut text = String::new();
        let mut index: usize = 0;
        while index < self.components.len()
            invariant
                index <= self.components.len(),
                text@ == joined(self@.take(index as int)),
            decreases self.components.len() - index,
        {
            let ghost before = self@.take(index as int);
            let ghost now = self@.take(index + 1);
            assert(now.drop_last() =~= before);
            assert(now.last() == self.components[index as int]@);
            if index > 0 {
                text.append("/");
            }
            text.append(self.components[index].as_str());
            index += 1;
            assert(text@ =~= joined(now));
        }
        assert(self@.take(index as int) =~= self@);
        text
    }
}

/// What to tell the user when `step` failed.
pub fn failure_message(step: &Step) -> (message: String)
    ensures
        message@ == failure_text(step@),
{
    match &step.action {
        Action::CreateProject { name } => {
            let mut message = "Failed to create project '".to_owned();
            message.append(name.as_str());
            message.append("'");
            message
        },
        Action::AddDependency { project, dependency } => {
            let mut message = match step.stage {
                Stage::AddFramework => "Failed to add framework dependency '".to_owned(),
                _ => "Failed to add dependency '".to_owned(),
            };
            message.append(dependency.name.as_str());
            message.append("'");
            message
        },
        Action::WriteFile { path, body } => {
            let mut message = "Failed to write ".to_owned();
            message.append(path.display().as_str());
            message
        },
        Action::CreateDirectory { path } => {
            let mut message = "Failed to create directory ".to_owned();
            message.append(path.display().as_str());
            message
        },
        Action::InitRepository { project } => "Failed to initialize git repository".to_owned(),
    }
}

/// The status to exit with after an operation that did or did not report
/// a failure.
pub fn exit_status(failure_reported: bool) -> (status: i32)
    ensures
        status == status_for(failure_reported),
        status == 0 <==> !failure_reported,
{
    if failure_reported {
        EXIT_FAILURE
    } else {
        EXIT_SUCCESS
    }
}

impl Outcome {
    /// Whether the run reported a failure.
    pub fn reports_failure(&self) -> (reported: bool)
        ensures
            reported == self@.reports_failure(),
    {
        match self {
            Outcome::Scaffolded { repository_initialized } => !*repository_initialized,
            _ => true,
        }
    }

    /// The status to exit with after the run: zero exactly if no failure
    /// was reported.
    pub fn exit_status(&self) -> (status: i32)
        ensures
            status == status_for(self@.reports_failure()),
            status == 0 <==> self@ == (OutcomeView::Scaffolded { repository_initialized: true }),
    {
        exit_status(self.reports_failure())
    }
}

} // verus!
