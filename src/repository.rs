//! Initialising a version-control repository: the command to run, and what
//! its outcome means for the caller.

use vstd::prelude::*;
use crate::scaffold::path_view;

verus! {

/// A command line: the program and its arguments.
#[derive(Debug)]
pub struct InitCommand {
    pub program: String,
    pub args: Vec<String>,
}

/// The command that initialises a repository; it is run with the project
/// root as its working directory, and given no other flags.
pub fn init_command() -> (r: InitCommand)
    ensures
        r.program@ == "git"@,
        path_view(r.args@) == seq!["init"@],
{
    let mut args: Vec<String> = Vec::new();
    args.push(String::from_str("init"));
    assert(path_view(args@) =~= seq!["init"@]);
    InitCommand { program: String::from_str("git"), args }
}

/// What came of running the command once.
#[derive(Debug)]
pub enum InitOutcome {
    /// The tool could not be started; the cause as the system gave it.
    SpawnFailed(String),
    /// The tool ran to its end: whether its exit status was success, and
    /// what it wrote to standard error.
    Exited { success: bool, stderr: String },
}

/// Why a repository could not be initialised. Both carry the target path.
#[derive(Debug)]
pub enum RepoError {
    /// The tool could not be started (absent from the search path, or the
    /// directory to run it in is missing): the path and the cause.
    ToolUnavailable(String, String),
    /// The tool ran and failed: the path and its trimmed standard error.
    Execution(String, String),
}

/// What a repository error means.
pub enum RepoErrorModel {
    ToolUnavailable(Seq<char>, Seq<char>),
    Execution(Seq<char>, Seq<char>),
}

impl View for RepoError {
    type V = RepoErrorModel;

    open spec fn view(&self) -> RepoErrorModel {
        match self {
            RepoError::ToolUnavailable(p, c) => RepoErrorModel::ToolUnavailable(p@, c@),
            RepoError::Execution(p, e) => RepoErrorModel::Execution(p@, e@),
        }
    }
}

/// The text that explains a repository error and what to do about it.
pub open spec fn repo_error_message(e: RepoErrorModel) -> Seq<char> {
    match e {
        RepoErrorModel::ToolUnavailable(p, c) => "Failed to execute 'git init' in '"@ + p + "': "@
            + c
            + ". Please ensure Git is installed and available in your PATH. You can install Git from https://git-scm.com/downloads"@,
        RepoErrorModel::Execution(p, e) => "Git initialization failed in '"@ + p + "': "@ + e
            + ". Please check that the directory exists and you have write permissions."@,
    }
}

/// The path that a repository error names.
pub open spec fn repo_error_path(e: RepoErrorModel) -> Seq<char> {
    match e {
        RepoErrorModel::ToolUnavailable(p, _) => p,
        RepoErrorModel::Execution(p, _) => p,
    }
}

impl RepoError {
    /// The human-readable message of the error.
    pub fn message(&self) -> (r: String)
        ensures
            r@ == repo_error_message(self@),
    {
        match self {
            RepoError::ToolUnavailable(p, c) => {
                let r = String::from_str("Failed to execute 'git init' in '");
                let r = r.concat(p.as_str());
                let r = r.concat("': ");
                let r = r.concat(c.as_str());
                r.concat(
                    ". Please ensure Git is installed and available in your PATH. You can install Git from https://git-scm.com/downloads",
                )
            },
            RepoError::Execution(p, e) => {
                let r = String::from_str("Git initialization failed in '");
                let r = r.concat(p.as_str());
                let r = r.concat("': ");
                let r = r.concat(e.as_str());
                r.concat(
                    ". Please check that the directory exists and you have write permissions.",
                )
            },
        }
    }
}

/// The text with leading and trailing whitespace removed.
pub uninterp spec fn trimmed(s: Seq<char>) -> Seq<char>;

/// Relies on str::trim: the text without its leading and trailing
/// whitespace, which depends on the text alone.
#[verifier::external_body]
fn trim_text(s: &str) -> (r: String)
    ensures
        r@ == trimmed(s@),
{
    s.trim().to_string()
}

/// The outcome of the run, given the failure text already trimmed.
pub open spec fn init_result(path: Seq<char>, outcome: InitOutcome, detail: Seq<char>) -> Result<
    (),
    RepoErrorModel,
> {
    match outcome {
        InitOutcome::SpawnFailed(c) => Err(RepoErrorModel::ToolUnavailable(path, c@)),
        InitOutcome::Exited { success, stderr: _ } => if success {
            Ok(())
        } else {
            Err(RepoErrorModel::Execution(path, detail))
        },
    }
}

/// The meaning of a result of initialisation.
pub open spec fn init_view(r: Result<(), RepoError>) -> Result<(), RepoErrorModel> {
    match r {
        Ok(_) => Ok(()),
        Err(e) => Err(e@),
    }
}

/// What the run in `path` means, where `detail` is the text to report if the
/// tool exited with failure.
pub fn judge_init_with(path: &str, outcome: InitOutcome, detail: String) -> (r: Result<
    (),
    RepoError,
>)
    ensures
        init_view(r) == init_result(path@, outcome, detail@),
{
    match outcome {
        InitOutcome::SpawnFailed(c) => Err(RepoError::ToolUnavailable(String::from_str(path), c)),
        InitOutcome::Exited { success, stderr: _ } => {
            if success {
                Ok(())
            } else {
                Err(RepoError::Execution(String::from_str(path), detail))
            }
        },
    }
}

/// What the run in `path` means: a tool that could not start is unavailable,
/// a failed exit reports its trimmed standard error, a successful one is `Ok`.
pub fn judge_init(path: &str, outcome: InitOutcome) -> (r: Result<(), RepoError>)
    ensures
        init_view(r) == init_result(
            path@,
            outcome,
            match outcome {
                InitOutcome::Exited { success: _, stderr } => trimmed(stderr@),
                InitOutcome::SpawnFailed(_) => Seq::empty(),
            },
        ),
{
    let detail = match &outcome {
        InitOutcome::Exited { success: _, stderr } => trim_text(stderr.as_str()),
        InitOutcome::SpawnFailed(_) => String::new(),
    };
    judge_init_with(path, outcome, detail)
}

} // verus!
