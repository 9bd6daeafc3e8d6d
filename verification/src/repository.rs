//! The one commit that a scaffolded project starts its history with.

use vstd::prelude::*;
use vstd::string::*;

verus! {

/// The name that the first commit is made under.
pub const AUTHOR_NAME: &'static str = "Rust Backend Scaffolder";

/// The address that the first commit is made under.
pub const AUTHOR_EMAIL: &'static str = "scaffolder@example.com";

/// The message of the first commit.
pub const COMMIT_MESSAGE: &'static str = "Initial commit: Scaffolded project";

/// The reference that the first commit becomes the tip of.
pub const HEAD_REFERENCE: &'static str = "HEAD";

/// The pattern that matches every file of the project.
pub const EVERYTHING: &'static str = ".";

/// A repository to create, with one commit and no history before it.
///
/// The caller creates the repository in `directory`, stages what matches
/// `pathspecs`, writes the staged files as a tree and commits that tree,
/// without parents, to `reference`. The author is also the committer.
#[derive(Debug, PartialEq, Eq)]
pub struct InitialCommit {
    pub directory: String,
    pub pathspecs: Vec<String>,
    pub author_name: String,
    pub author_email: String,
    pub message: String,
    pub reference: String,
}

pub struct InitialCommitView {
    pub directory: Seq<char>,
    pub pathspecs: Seq<Seq<char>>,
    pub author_name: Seq<char>,
    pub author_email: Seq<char>,
    pub message: Seq<char>,
    pub reference: Seq<char>,
}

impl View for InitialCommit {
    type V = InitialCommitView;

    open spec fn view(&self) -> InitialCommitView {
        InitialCommitView {
            directory: self.directory@,
            pathspecs: self.pathspecs.deep_view(),
            author_name: self.author_name@,
            author_email: self.author_email@,
            message: self.message@,
            reference: self.reference@,
        }
    }
}

/// The first commit of the project in `directory`: everything in it, under
/// the fixed identity and message.
pub open spec fn first_commit_of(directory: Seq<char>) -> InitialCommitView {
    InitialCommitView {
        directory,
        pathspecs: seq![EVERYTHING@],
        author_name: AUTHOR_NAME@,
        author_email: AUTHOR_EMAIL@,
        message: COMMIT_MESSAGE@,
        reference: HEAD_REFERENCE@,
    }
}

/// Describes the repository to create for the project in the directory
/// `project_name`.
pub fn init_git_repo(project_name: &str) -> (commit: InitialCommit)
    ensures
        commit@ == first_commit_of(project_name@),
{
    let mut pathspecs: Vec<String> = Vec::new();
    pathspecs.push(EVERYTHING.to_owned());
    assert(pathspecs.deep_view() =~= seq![EVERYTHING@]);
    InitialCommit {
        directory: project_name.to_owned(),
        pathspecs,
        author_name: AUTHOR_NAME.to_owned(),
        author_email: AUTHOR_EMAIL.to_owned(),
        message: COMMIT_MESSAGE.to_owned(),
        reference: HEAD_REFERENCE.to_owned(),
    }
}

} // verus!
