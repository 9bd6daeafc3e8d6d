//! Where the files of a scaffolded project go, and what is written to them.

use vstd::prelude::*;
use vstd::string::*;
use crate::action::{Action, ActionView, ProjectPath};
use crate::text::{has_line, line_at};

verus! {

/// The directory of a project's sources, below the project's own.
pub const SOURCE_DIRECTORY: &'static str = "src";

/// The file that a project's program starts in.
pub const MAIN_FILE: &'static str = "main.rs";

/// The file that declares what a module directory holds.
pub const MODULE_FILE: &'static str = "mod.rs";

/// The file that tells version control what to leave out.
pub const IGNORE_FILE: &'static str = ".gitignore";

/// What the ignore file holds: build output and environment files.
pub const IGNORE_BODY: &'static str = r#"# Rust
/target/


# Environment
.env
.env.local
.env.*.local


"#;

/// The module directories that every project starts out with, in the order
/// in which they are created.
pub open spec fn module_names() -> Seq<Seq<char>> {
    seq!["services"@, "models"@, "handlers"@, "routes"@]
}

/// The path of the main source file of `project`.
pub open spec fn main_source_path(project: Seq<char>) -> Seq<Seq<char>> {
    seq![project, SOURCE_DIRECTORY@, MAIN_FILE@]
}

/// The path of the directory of `module` in `project`.
pub open spec fn module_directory(project: Seq<char>, module: Seq<char>) -> Seq<Seq<char>> {
    seq![project, SOURCE_DIRECTORY@, module]
}

/// The path of the file that declares the contents of `module` in `project`.
pub open spec fn module_placeholder(project: Seq<char>, module: Seq<char>) -> Seq<Seq<char>> {
    seq![project, SOURCE_DIRECTORY@, module, MODULE_FILE@]
}

/// The path of the ignore file of `project`.
pub open spec fn ignore_file_path(project: Seq<char>) -> Seq<Seq<char>> {
    seq![project, IGNORE_FILE@]
}

/// Writing `body` over the main source file of `project`.
pub open spec fn main_source_write(project: Seq<char>, body: Seq<char>) -> ActionView {
    ActionView::WriteFile { path: main_source_path(project), body }
}

/// Creating the directory of `module` in `project`, then an empty
/// declaration file in it.
pub open spec fn module_creation(project: Seq<char>, module: Seq<char>) -> Seq<ActionView> {
    seq![
        ActionView::CreateDirectory { path: module_directory(project, module) },
        ActionView::WriteFile { path: module_placeholder(project, module), body: Seq::empty() },
    ]
}

/// Writing the ignore file of `project`.
pub open spec fn ignore_file_write(project: Seq<char>) -> ActionView {
    ActionView::WriteFile { path: ignore_file_path(project), body: IGNORE_BODY@ }
}

/// The ignore file leaves out the build output and the environment file,
/// each on a line of its own.
pub proof fn lemma_ignore_body_lines()
    ensures
        has_line(IGNORE_BODY@, "/target/"@),
        has_line(IGNORE_BODY@, ".env"@),
{
    reveal_strlit(r#"# Rust
/target/


# Environment
.env
.env.local
.env.*.local


"#);
    reveal_strlit("/target/");
    reveal_strlit(".env");
    let body = IGNORE_BODY@;
    assert(body.subrange(7, 15) =~= "/target/"@);
    assert(line_at(body, 7, "/target/"@));
    assert(body.subrange(32, 36) =~= ".env"@);
    assert(line_at(body, 32, ".env"@));
}

/// The names of the module directories that every project starts out with.
pub fn modules() -> (names: Vec<&'static str>)
    ensures
        names.deep_view() == module_names(),
{
    let mut names: Vec<&'static str> = Vec::new();
    names.push("services");
    names.push("models");
    names.push("handlers");
    names.push("routes");
    assert(names.deep_view() =~= module_names());
    names
}

/// The action that replaces the main source file of `project_name` with
/// `content`.
pub fn write_main_source(project_name: &str, content: &str) -> (action: Action)
    ensures
        action@ == main_source_write(project_name@, content@),
{
    let mut components: Vec<String> = Vec::new();
    components.push(project_name.to_owned());
    components.push(SOURCE_DIRECTORY.to_owned());
    components.push(MAIN_FILE.to_owned());
    assert(components.deep_view() =~= main_source_path(project_name@));
    Action::WriteFile { path: ProjectPath { components }, body: content.to_owned() }
}

/// The actions that give `project_name` the module `module_name`: its
/// directory first, then the empty file that declares its contents.
pub fn create_module_dir(project_name: &str, module_name: &str) -> (actions: Vec<Action>)
    ensures
        actions.deep_view() == module_creation(project_name@, module_name@),
{
    let mut directory: Vec<String> = Vec::new();
    directory.push(project_name.to_owned());
    directory.push(SOURCE_DIRECTORY.to_owned());
    directory.push(module_name.to_owned());
    assert(directory.deep_view() =~= module_directory(project_name@, module_name@));

    let mut placeholder: Vec<String> = Vec::new();
    placeholder.push(project_name.to_owned());
    placeholder.push(SOURCE_DIRECTORY.to_owned());
    placeholder.push(module_name.to_owned());
    placeholder.push(MODULE_FILE.to_owned());
    assert(placeholder.deep_view() =~= module_placeholder(project_name@, module_name@));

    let mut actions: Vec<Action> = Vec::new();
    actions.push(Action::CreateDirectory { path: ProjectPath { components: directory } });
    actions.push(
        Action::WriteFile { path: ProjectPath { components: placeholder }, body: String::new() },
    );
    assert(actions.deep_view() =~= module_creation(project_name@, module_name@));
    actions
}

/// The action that writes the ignore file of `project_name`. Its body keeps
/// the build output and the environment file out of version control.
pub fn create_gitignore(project_name: &str) -> (action: Action)
    ensures
        action@ == ignore_file_write(project_name@),
        has_line(action@->body, "/target/"@),
        has_line(action@->body, ".env"@),
{
    proof {
        lemma_ignore_body_lines();
    }
    let mut components: Vec<String> = Vec::new();
    components.push(project_name.to_owned());
    components.push(IGNORE_FILE.to_owned());
    assert(components.deep_view() =~= ignore_file_path(project_name@));
    Action::WriteFile { path: ProjectPath { components }, body: IGNORE_BODY.to_owned() }
}

} // verus!
