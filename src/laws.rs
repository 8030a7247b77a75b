//! Properties that relate the library's functions to one another.

use vstd::prelude::*;
use crate::scaffold::{
    documentation_files, error_message, project_plan, project_steps, FileModel, ScaffoldError,
    ScaffoldErrorModel, StepModel,
};
use crate::repository::{
    init_result, repo_error_message, repo_error_path, InitOutcome, RepoErrorModel,
};
use crate::templates::{
    architecture_text, contains_seq, contributing_text, lemma_templates_hold_name,
    lemma_wrapped_contains, readme_text, todo_text,
};

verus! {

/// A name that is non-empty and free of the separator, with nothing at its
/// path, gives exactly the root, its `src`, `docs` and `tests` directories,
/// `README.md` and the entry-point stub, in that order; the README holds the
/// name.
pub proof fn lemma_valid_name_gives_tree(name: Seq<char>, sep: char)
    requires
        name.len() > 0,
        !name.contains(sep),
    ensures
        project_plan(name, false, sep) == Ok::<Seq<StepModel>, ScaffoldErrorModel>(
            project_steps(name),
        ),
        project_steps(name).len() == 6,
        project_steps(name)[4] == StepModel::File(
            FileModel { path: seq![name, "README.md"@], content: readme_text(name) },
        ),
        contains_seq(readme_text(name), name),
{
    lemma_templates_hold_name(name);
}

/// Whatever the name, an entry already standing at its path gives the
/// already-exists error naming it, and no step at all.
pub proof fn lemma_existing_path_rejected(name: Seq<char>, sep: char)
    ensures
        project_plan(name, true, sep) == Err::<Seq<StepModel>, ScaffoldErrorModel>(
            ScaffoldErrorModel::AlreadyExists(name),
        ),
        contains_seq(error_message(ScaffoldErrorModel::AlreadyExists(name)), name),
{
    lemma_wrapped_contains("Cannot create project: directory '"@, name, "' already exists. Please choose a different name or remove the existing directory."@);
}

/// The empty name, with nothing at its path, is a validation error and gives
/// no step.
pub proof fn lemma_empty_name_rejected(sep: char)
    ensures
        project_plan(Seq::empty(), false, sep) matches Err(e) && ScaffoldError::is_validation_spec(
            e,
        ),
        project_plan(Seq::empty(), false, sep) == Err::<Seq<StepModel>, ScaffoldErrorModel>(
            ScaffoldErrorModel::EmptyName,
        ),
{
}

/// A name that holds the separator, with nothing at its path, is a
/// validation error and gives no step.
pub proof fn lemma_separator_rejected(name: Seq<char>, sep: char)
    requires
        name.contains(sep),
    ensures
        project_plan(name, false, sep) matches Err(e) && ScaffoldError::is_validation_spec(e),
{
}

/// The documentation is exactly three files in `docs`, each of which holds
/// the project name.
pub proof fn lemma_documentation_names_project(name: Seq<char>)
    ensures
        documentation_files(name).len() == 3,
        forall|i: int|
            0 <= i < 3 ==> (#[trigger] documentation_files(name)[i]).path.len() == 2
                && documentation_files(name)[i].path[0] == "docs"@
                && contains_seq(documentation_files(name)[i].content, name),
{
    lemma_templates_hold_name(name);
    assert(documentation_files(name)[0].content == architecture_text(name));
    assert(documentation_files(name)[1].content == todo_text(name));
    assert(documentation_files(name)[2].content == contributing_text(name));
}

/// A tool that cannot be started is reported as unavailable, and every
/// failure of initialisation names the path it was attempted in.
pub proof fn lemma_init_failure_names_path(path: Seq<char>, outcome: InitOutcome, detail: Seq<char>)
    ensures
        outcome is SpawnFailed ==> init_result(path, outcome, detail) matches Err(
            RepoErrorModel::ToolUnavailable(_, _),
        ),
        init_result(path, outcome, detail) matches Err(e) ==> repo_error_path(e) == path
            && contains_seq(repo_error_message(e), path),
{
    match outcome {
        InitOutcome::SpawnFailed(c) => {
            lemma_wrapped_contains("Failed to execute 'git init' in '"@, path, "': "@ + c@
                + ". Please ensure Git is installed and available in your PATH. You can install Git from https://git-scm.com/downloads"@);
            assert("Failed to execute 'git init' in '"@ + path + "': "@ + c@
                + ". Please ensure Git is installed and available in your PATH. You can install Git from https://git-scm.com/downloads"@
                =~= "Failed to execute 'git init' in '"@ + path + ("': "@ + c@
                + ". Please ensure Git is installed and available in your PATH. You can install Git from https://git-scm.com/downloads"@));
        },
        InitOutcome::Exited { success, stderr: _ } => {
            lemma_wrapped_contains("Git initialization failed in '"@, path, "': "@ + detail
                + ". Please check that the directory exists and you have write permissions."@);
            assert("Git initialization failed in '"@ + path + "': "@ + detail
                + ". Please check that the directory exists and you have write permissions."@
                =~= "Git initialization failed in '"@ + path + ("': "@ + detail
                + ". Please check that the directory exists and you have write permissions."@));
        },
    }
}

} // verus!
