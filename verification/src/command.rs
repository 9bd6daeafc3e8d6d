//! The command lines handed to the package manager.
//!
//! A command line is plain data: the program, the directory to run it in and
//! its arguments. Running it is left to the caller.

use vstd::prelude::*;
use vstd::string::*;
use crate::text::{copy_texts, same_text};

verus! {

/// The package manager's program name.
pub const PACKAGE_MANAGER: &'static str = "cargo";

/// The version that stands for "whatever is newest": with it, no version
/// qualifier is handed to the package manager.
pub const LATEST: &'static str = "latest";

/// One run of an external program.
#[derive(Debug, PartialEq, Eq)]
pub struct Invocation {
    pub program: String,
    /// The directory to run the program in; `None` for the directory that
    /// the caller itself runs in.
    pub working_directory: Option<String>,
    pub arguments: Vec<String>,
}

pub struct InvocationView {
    pub program: Seq<char>,
    pub working_directory: Option<Seq<char>>,
    pub arguments: Seq<Seq<char>>,
}

impl View for Invocation {
    type V = InvocationView;

    open spec fn view(&self) -> InvocationView {
        InvocationView {
            program: self.program@,
            working_directory: self.working_directory.deep_view(),
            arguments: self.arguments.deep_view(),
        }
    }
}

impl DeepView for Invocation {
    type V = InvocationView;

    open spec fn deep_view(&self) -> InvocationView {
        self@
    }
}

impl Clone for Invocation {
    fn clone(&self) -> (copy: Self)
        ensures
            copy@ == self@,
    {
        Invocation {
            program: self.program.clone(),
            working_directory: match &self.working_directory {
                Some(directory) => Some(directory.clone()),
                None => None,
            },
            arguments: copy_texts(&self.arguments),
        }
    }
}

/// The command line that creates the project `name` in the current
/// directory.
pub open spec fn creation_of(name: Seq<char>) -> InvocationView {
    InvocationView {
        program: PACKAGE_MANAGER@,
        working_directory: None,
        arguments: seq!["new"@, name],
    }
}

/// The arguments that select a feature: none without a feature, the feature
/// flag and the feature itself with one.
pub open spec fn feature_arguments(feature: Option<Seq<char>>) -> Seq<Seq<char>> {
    match feature {
        Some(feature) => seq!["--features"@, feature],
        None => Seq::empty(),
    }
}

/// The command line that adds `dependency` to the project in the directory
/// `project`.
pub open spec fn addition_of(
    project: Seq<char>,
    dependency: Seq<char>,
    feature: Option<Seq<char>>,
) -> InvocationView {
    InvocationView {
        program: PACKAGE_MANAGER@,
        working_directory: Some(project),
        arguments: seq!["add"@, dependency] + feature_arguments(feature),
    }
}

/// What names a package at a version: the bare name for the latest version,
/// the name, an `@` and the version otherwise.
pub open spec fn qualified(name: Seq<char>, version: Seq<char>) -> Seq<char> {
    if version == LATEST@ {
        name
    } else {
        name + "@"@ + version
    }
}

/// The command line that adds the package `name` at `version` to the project
/// in the current directory.
pub open spec fn direct_addition_of(name: Seq<char>, version: Seq<char>) -> InvocationView {
    InvocationView {
        program: PACKAGE_MANAGER@,
        working_directory: None,
        arguments: seq!["add"@, qualified(name, version)],
    }
}

/// Asks the package manager for a new project called `name`, in the current
/// directory.
pub fn create_project(name: &str) -> (invocation: Invocation)
    ensures
        invocation@ == creation_of(name@),
{
    let mut arguments: Vec<String> = Vec::new();
    arguments.push("new".to_owned());
    arguments.push(name.to_owned());
    assert(arguments.deep_view() =~= seq!["new"@, name@]);
    Invocation { program: PACKAGE_MANAGER.to_owned(), working_directory: None, arguments }
}

/// Asks the package manager to add `dep` to the project in the directory
/// `project_name`. A feature, where one is given, is passed on as it is.
pub fn add_dependency(project_name: &str, dep: &str, features: Option<&str>) -> (invocation:
    Invocation)
    ensures
        invocation@ == addition_of(project_name@, dep@, features.deep_view()),
{
    let mut arguments: Vec<String> = Vec::new();
    arguments.push("add".to_owned());
    arguments.push(dep.to_owned());
    match features {
        Some(feature) => {
            arguments.push("--features".to_owned());
            arguments.push(feature.to_owned());
        },
        None => {},
    }
    assert(arguments.deep_view() =~= seq!["add"@, dep@] + feature_arguments(
        features.deep_view(),
    ));
    Invocation {
        program: PACKAGE_MANAGER.to_owned(),
        working_directory: Some(project_name.to_owned()),
        arguments,
    }
}

/// Names the package `name` at `version` for the package manager.
pub fn qualify(name: &str, version: &str) -> (package: String)
    ensures
        package@ == qualified(name@, version@),
{
    if same_text(version, LATEST) {
        name.to_owned()
    } else {
        let mut package = name.to_owned();
        package.append("@");
        package.append(version);
        package
    }
}

/// Asks the package manager to add the package `name` to the project in the
/// current directory: at no particular version for the latest, at `version`
/// otherwise.
pub fn add_package(name: &str, version: &str) -> (invocation: Invocation)
    ensures
        invocation@ == direct_addition_of(name@, version@),
{
    let mut arguments: Vec<String> = Vec::new();
    arguments.push("add".to_owned());
    arguments.push(qualify(name, version));
    assert(arguments.deep_view() =~= seq!["add"@, qualified(name@, version@)]);
    Invocation { program: PACKAGE_MANAGER.to_owned(), working_directory: None, arguments }
}

} // verus!
