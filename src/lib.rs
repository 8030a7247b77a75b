//! Project scaffolding: name validation, the plan of directories and
//! templated files that make up a new project, and the interpretation of
//! what the version-control tool reports.

pub mod templates;
pub mod scaffold;
pub mod repository;
pub mod args;
pub mod laws;
