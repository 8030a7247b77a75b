//! The fixed text templates written into a new project.

use vstd::prelude::*;

verus! {

/// True when `needle` occurs as a contiguous run of characters in `hay`.
pub open spec fn contains_seq(hay: Seq<char>, needle: Seq<char>) -> bool {
    exists|i: int|
        0 <= i && i + needle.len() <= hay.len() && #[trigger] hay.subrange(i, i + needle.len())
            == needle
}

/// Text of `README.md`: a heading with the project name, then a fixed body.
pub open spec fn readme_text(name: Seq<char>) -> Seq<char> {
    "# "@ + name
        + readme_body()
}

/// The fixed text that follows the name in `readme_text`.
pub open spec fn readme_body() -> Seq<char> {
    "\n\nA new project created with Project Zero.\n\n## Getting Started\n\nTODO: Add getting started instructions.\n"@
}

/// Builds the text of `README.md` for the project `name`.
pub fn readme_content(name: &str) -> (r: String)
    ensures
        r@ == readme_text(name@),
{
    let r = String::from_str("# ");
    let r = r.concat(name);
    r.concat(
        "\n\nA new project created with Project Zero.\n\n## Getting Started\n\nTODO: Add getting started instructions.\n",
    )
}

/// Text of the entry-point stub `src/main.rs`: a minimal program.
pub open spec fn main_rs_text() -> Seq<char> {
    "fn main() {\n    println!(\"Hello, world!\");\n}\n"@
}

/// Builds the text of the entry-point stub.
pub fn main_rs_content() -> (r: String)
    ensures
        r@ == main_rs_text(),
{
    String::from_str("fn main() {\n    println!(\"Hello, world!\");\n}\n")
}

/// Text of `docs/ARCHITECTURE.md` for the project `name`.
pub open spec fn architecture_text(name: Seq<char>) -> Seq<char> {
    "# "@ + name
        + architecture_body()
}

/// The fixed text that follows the name in `architecture_text`.
pub open spec fn architecture_body() -> Seq<char> {
    " - Architecture\n\n## Overview\n\nTODO: Describe the high-level architecture.\n\n## Components\n\nTODO: List and describe major components.\n\n## Data Flow\n\nTODO: Explain how data flows through the system.\n"@
}

/// Builds the text of `docs/ARCHITECTURE.md`.
pub fn architecture_content(name: &str) -> (r: String)
    ensures
        r@ == architecture_text(name@),
{
    let r = String::from_str("# ");
    let r = r.concat(name);
    r.concat(
        " - Architecture\n\n## Overview\n\nTODO: Describe the high-level architecture.\n\n## Components\n\nTODO: List and describe major components.\n\n## Data Flow\n\nTODO: Explain how data flows through the system.\n",
    )
}

/// Text of `docs/TODO.md` for the project `name`.
pub open spec fn todo_text(name: Seq<char>) -> Seq<char> {
    "# "@ + name
        + todo_body()
}

/// The fixed text that follows the name in `todo_text`.
pub open spec fn todo_body() -> Seq<char> {
    " - Task List\n\n## In Progress\n\n- [ ] Initial project setup\n\n## Backlog\n\n- [ ] Add core functionality\n- [ ] Write tests\n- [ ] Add documentation\n\n## Done\n\n- [x] Project scaffolding\n"@
}

/// Builds the text of `docs/TODO.md`.
pub fn todo_content(name: &str) -> (r: String)
    ensures
        r@ == todo_text(name@),
{
    let r = String::from_str("# ");
    let r = r.concat(name);
    r.concat(
        " - Task List\n\n## In Progress\n\n- [ ] Initial project setup\n\n## Backlog\n\n- [ ] Add core functionality\n- [ ] Write tests\n- [ ] Add documentation\n\n## Done\n\n- [x] Project scaffolding\n",
    )
}

/// Text of `docs/CONTRIBUTING.md` for the project `name`.
pub open spec fn contributing_text(name: Seq<char>) -> Seq<char> {
    "# Contributing to "@ + name
        + contributing_body()
}

/// The fixed text that follows the name in `contributing_text`.
pub open spec fn contributing_body() -> Seq<char> {
    "\n\nThank you for your interest in contributing!\n\n## How to Contribute\n\n1. Fork the repository\n2. Create a feature branch\n3. Make your changes\n4. Submit a pull request\n\n## Code Style\n\nTODO: Describe code style guidelines.\n\n## Questions?\n\nTODO: Add contact information.\n"@
}

/// Builds the text of `docs/CONTRIBUTING.md`.
pub fn contributing_content(name: &str) -> (r: String)
    ensures
        r@ == contributing_text(name@),
{
    let r = String::from_str("# Contributing to ");
    let r = r.concat(name);
    r.concat(
        "\n\nThank you for your interest in contributing!\n\n## How to Contribute\n\n1. Fork the repository\n2. Create a feature branch\n3. Make your changes\n4. Submit a pull request\n\n## Code Style\n\nTODO: Describe code style guidelines.\n\n## Questions?\n\nTODO: Add contact information.\n",
    )
}

/// Each templated text of the project `name` holds the name.
pub proof fn lemma_templates_hold_name(name: Seq<char>)
    ensures
        contains_seq(readme_text(name), name),
        contains_seq(architecture_text(name), name),
        contains_seq(todo_text(name), name),
        contains_seq(contributing_text(name), name),
{
    lemma_wrapped_contains("# "@, name, readme_body());
    lemma_wrapped_contains("# "@, name, architecture_body());
    lemma_wrapped_contains("# "@, name, todo_body());
    lemma_wrapped_contains("# Contributing to "@, name, contributing_body());
}

/// Lemma: a text made of a prefix, the name and a suffix contains the name.
pub proof fn lemma_wrapped_contains(pre: Seq<char>, name: Seq<char>, post: Seq<char>)
    ensures
        contains_seq(pre + name + post, name),
{
    let s = pre + name + post;
    assert(s.subrange(pre.len() as int, pre.len() + name.len() as int) =~= name);
}

} // verus!
