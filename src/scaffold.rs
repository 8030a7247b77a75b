//! The project layout: which names are accepted, and the ordered list of
//! directories and files that make up a new project.

use vstd::prelude::*;
use crate::templates::{
    architecture_content, architecture_text, contributing_content, contributing_text,
    main_rs_content, main_rs_text, readme_content, readme_text, todo_content, todo_text,
};

verus! {

/// A path relative to a base directory, as its components.
pub open spec fn path_view(p: Seq<String>) -> Seq<Seq<char>> {
    p.map_values(|c: String| c@)
}

/// A file to write: where, relative to a base directory, and what it holds.
#[derive(Debug)]
pub struct TemplatedFile {
    pub path: Vec<String>,
    pub content: String,
}

/// What a file to write means: its path components and its text.
pub struct FileModel {
    pub path: Seq<Seq<char>>,
    pub content: Seq<char>,
}

impl View for TemplatedFile {
    type V = FileModel;

    open spec fn view(&self) -> FileModel {
        FileModel { path: path_view(self.path@), content: self.content@ }
    }
}

/// One filesystem action of the scaffold.
#[derive(Debug)]
pub enum Step {
    /// Create one directory (its parent must already exist).
    CreateDir(Vec<String>),
    /// Write one file, creating or replacing it.
    WriteFile(TemplatedFile),
}

/// What a step means.
pub enum StepModel {
    Dir(Seq<Seq<char>>),
    File(FileModel),
}

impl View for Step {
    type V = StepModel;

    open spec fn view(&self) -> StepModel {
        match self {
            Step::CreateDir(p) => StepModel::Dir(path_view(p@)),
            Step::WriteFile(f) => StepModel::File(f@),
        }
    }
}

/// The meaning of a list of steps, in order.
pub open spec fn steps_view(s: Seq<Step>) -> Seq<StepModel> {
    s.map_values(|x: Step| x@)
}

/// The meaning of a list of files, in order.
pub open spec fn files_view(s: Seq<TemplatedFile>) -> Seq<FileModel> {
    s.map_values(|x: TemplatedFile| x@)
}

fn one(a: &str) -> (r: Vec<String>)
    ensures
        path_view(r@) == seq![a@],
{
    let mut r: Vec<String> = Vec::new();
    r.push(String::from_str(a));
    assert(path_view(r@) =~= seq![a@]);
    r
}

fn two(a: &str, b: &str) -> (r: Vec<String>)
    ensures
        path_view(r@) == seq![a@, b@],
{
    let mut r: Vec<String> = Vec::new();
    r.push(String::from_str(a));
    r.push(String::from_str(b));
    assert(path_view(r@) =~= seq![a@, b@]);
    r
}

fn three(a: &str, b: &str, c: &str) -> (r: Vec<String>)
    ensures
        path_view(r@) == seq![a@, b@, c@],
{
    let mut r: Vec<String> = Vec::new();
    r.push(String::from_str(a));
    r.push(String::from_str(b));
    r.push(String::from_str(c));
    assert(path_view(r@) =~= seq![a@, b@, c@]);
    r
}

/// The three documentation files, relative to the project root.
pub open spec fn documentation_files(name: Seq<char>) -> Seq<FileModel> {
    seq![
        FileModel { path: seq!["docs"@, "ARCHITECTURE.md"@], content: architecture_text(name) },
        FileModel { path: seq!["docs"@, "TODO.md"@], content: todo_text(name) },
        FileModel { path: seq!["docs"@, "CONTRIBUTING.md"@], content: contributing_text(name) },
    ]
}

/// The documentation starter files of the project `project_name`, with
/// paths relative to the project root. Their `docs` directory is not among
/// them: the caller has created it already.
pub fn create_documentation(project_name: &str) -> (r: Vec<TemplatedFile>)
    ensures
        files_view(r@) == documentation_files(project_name@),
{
    let mut r: Vec<TemplatedFile> = Vec::new();
    r.push(
        TemplatedFile {
            path: two("docs", "ARCHITECTURE.md"),
            content: architecture_content(project_name),
        },
    );
    r.push(TemplatedFile { path: two("docs", "TODO.md"), content: todo_content(project_name) });
    r.push(
        TemplatedFile {
            path: two("docs", "CONTRIBUTING.md"),
            content: contributing_content(project_name),
        },
    );
    assert(files_view(r@) =~= documentation_files(project_name@));
    r
}

/// Why a project could not be created.
#[derive(Debug)]
pub enum ScaffoldError {
    /// The project name is empty.
    EmptyName,
    /// The project name holds a path separator.
    NameHasSeparator(String),
    /// Something already exists at the path of that name.
    AlreadyExists(String),
    /// A directory or file could not be created: the path as shown, and the
    /// cause. Whatever was created before stays on disk.
    Creation(String, String),
}

/// What an error means.
pub enum ScaffoldErrorModel {
    EmptyName,
    NameHasSeparator(Seq<char>),
    AlreadyExists(Seq<char>),
    Creation(Seq<char>, Seq<char>),
}

impl View for ScaffoldError {
    type V = ScaffoldErrorModel;

    open spec fn view(&self) -> ScaffoldErrorModel {
        match self {
            ScaffoldError::EmptyName => ScaffoldErrorModel::EmptyName,
            ScaffoldError::NameHasSeparator(n) => ScaffoldErrorModel::NameHasSeparator(n@),
            ScaffoldError::AlreadyExists(n) => ScaffoldErrorModel::AlreadyExists(n@),
            ScaffoldError::Creation(p, c) => ScaffoldErrorModel::Creation(p@, c@),
        }
    }
}

/// The text that explains an error and what to do about it.
pub open spec fn error_message(e: ScaffoldErrorModel) -> Seq<char> {
    match e {
        ScaffoldErrorModel::EmptyName =>
            "Project name cannot be empty. Please provide a valid project name."@,
        ScaffoldErrorModel::NameHasSeparator(n) => "Project name '"@ + n
            + "' contains path separators. Please provide a simple directory name without slashes."@,
        ScaffoldErrorModel::AlreadyExists(n) => "Cannot create project: directory '"@ + n
            + "' already exists. Please choose a different name or remove the existing directory."@,
        ScaffoldErrorModel::Creation(p, c) => "Failed to create '"@ + p + "': "@ + c
            + ". The project may be in an incomplete state."@,
    }
}

impl ScaffoldError {
    /// True for the errors that reject the name itself.
    pub open spec fn is_validation_spec(e: ScaffoldErrorModel) -> bool {
        e is EmptyName || e is NameHasSeparator
    }

    /// Whether the name itself was rejected, before anything was touched.
    pub fn is_validation(&self) -> (r: bool)
        ensures
            r == Self::is_validation_spec(self@),
    {
        match self {
            ScaffoldError::EmptyName => true,
            ScaffoldError::NameHasSeparator(_) => true,
            _ => false,
        }
    }

    /// The human-readable message of the error.
    pub fn message(&self) -> (r: String)
        ensures
            r@ == error_message(self@),
    {
        match self {
            ScaffoldError::EmptyName => String::from_str(
                "Project name cannot be empty. Please provide a valid project name.",
            ),
            ScaffoldError::NameHasSeparator(n) => {
                let r = String::from_str("Project name '");
                let r = r.concat(n.as_str());
                r.concat(
                    "' contains path separators. Please provide a simple directory name without slashes.",
                )
            },
            ScaffoldError::AlreadyExists(n) => {
                let r = String::from_str("Cannot create project: directory '");
                let r = r.concat(n.as_str());
                r.concat(
                    "' already exists. Please choose a different name or remove the existing directory.",
                )
            },
            ScaffoldError::Creation(p, c) => {
                let r = String::from_str("Failed to create '");
                let r = r.concat(p.as_str());
                let r = r.concat("': ");
                let r = r.concat(c.as_str());
                r.concat(". The project may be in an incomplete state.")
            },
        }
    }
}

/// Relies on std::path::MAIN_SEPARATOR: the separator of path components on
/// this platform, which its documentation gives as `/` on Unix and `\` on
/// Windows.
#[verifier::external_body]
fn main_separator() -> (r: char)
    ensures
        r == '/' || r == '\\',
{
    std::path::MAIN_SEPARATOR
}

/// Whether `s` holds the character `c`.
pub fn has_char(s: &str, c: char) -> (r: bool)
    ensures
        r == s@.contains(c),
{
    let n = s.unicode_len();
    let mut i: usize = 0;
    while i < n
        invariant
            n == s@.len(),
            i <= n,
            forall|j: int| 0 <= j < i ==> s@[j] != c,
        decreases n - i,
    {
        if s.get_char(i) == c {
            return true;
        }
        i = i + 1;
    }
    false
}

/// The directories and files of the project `name`, in the order they are
/// created, with paths relative to the working directory.
pub open spec fn project_steps(name: Seq<char>) -> Seq<StepModel> {
    seq![
        StepModel::Dir(seq![name]),
        StepModel::Dir(seq![name, "src"@]),
        StepModel::Dir(seq![name, "docs"@]),
        StepModel::Dir(seq![name, "tests"@]),
        StepModel::File(FileModel { path: seq![name, "README.md"@], content: readme_text(name) }),
        StepModel::File(
            FileModel { path: seq![name, "src"@, "main.rs"@], content: main_rs_text() },
        ),
    ]
}

/// The outcome of asking for the project `name`, where `exists` tells
/// whether an entry already stands at that path and `sep` is the path
/// separator. An existing entry is reported first, then the rules on the
/// name; nothing is to be touched in any of these cases.
pub open spec fn project_plan(name: Seq<char>, exists: bool, sep: char) -> Result<
    Seq<StepModel>,
    ScaffoldErrorModel,
> {
    if exists {
        Err(ScaffoldErrorModel::AlreadyExists(name))
    } else if name.len() == 0 {
        Err(ScaffoldErrorModel::EmptyName)
    } else if name.contains(sep) {
        Err(ScaffoldErrorModel::NameHasSeparator(name))
    } else {
        Ok(project_steps(name))
    }
}

/// The meaning of a plan or of the error that replaced it.
pub open spec fn plan_view(r: Result<Vec<Step>, ScaffoldError>) -> Result<
    Seq<StepModel>,
    ScaffoldErrorModel,
> {
    match r {
        Ok(v) => Ok(steps_view(v@)),
        Err(e) => Err(e@),
    }
}

/// The `README.md` of the project `project_name`, at its root.
pub fn create_readme(project_name: &str) -> (r: TemplatedFile)
    ensures
        r@ == (FileModel { path: seq![project_name@, "README.md"@], content: readme_text(project_name@) }),
{
    TemplatedFile { path: two(project_name, "README.md"), content: readme_content(project_name) }
}

/// The entry-point stub of the project `project_name`, in its `src`.
pub fn create_main_rs(project_name: &str) -> (r: TemplatedFile)
    ensures
        r@ == (FileModel { path: seq![project_name@, "src"@, "main.rs"@], content: main_rs_text() }),
{
    TemplatedFile { path: three(project_name, "src", "main.rs"), content: main_rs_content() }
}

/// The steps that create the project `name`, or why there are none, with
/// `separator` as the path separator.
pub fn plan_project_with(name: &str, exists: bool, separator: char) -> (r: Result<
    Vec<Step>,
    ScaffoldError,
>)
    ensures
        plan_view(r) == project_plan(name@, exists, separator),
{
    if exists {
        return Err(ScaffoldError::AlreadyExists(String::from_str(name)));
    }
    if name.unicode_len() == 0 {
        return Err(ScaffoldError::EmptyName);
    }
    if has_char(name, separator) {
        return Err(ScaffoldError::NameHasSeparator(String::from_str(name)));
    }
    let mut v: Vec<Step> = Vec::new();
    v.push(Step::CreateDir(one(name)));
    v.push(Step::CreateDir(two(name, "src")));
    v.push(Step::CreateDir(two(name, "docs")));
    v.push(Step::CreateDir(two(name, "tests")));
    v.push(Step::WriteFile(create_readme(name)));
    v.push(Step::WriteFile(create_main_rs(name)));
    assert(steps_view(v@) =~= project_steps(name@));
    Ok(v)
}

/// The steps that create the project `name`, or why there are none, with
/// this platform's path separator.
pub fn plan_project(name: &str, exists: bool) -> (r: Result<Vec<Step>, ScaffoldError>)
    ensures
        exists|sep: char|
            (sep == '/' || sep == '\\') && plan_view(r) == #[trigger] project_plan(
                name@,
                exists,
                sep,
            ),
{
    let sep = main_separator();
    plan_project_with(name, exists, sep)
}

} // verus!
