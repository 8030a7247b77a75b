use project_zero::scaffold::{
    create_documentation, create_main_rs, create_readme, has_char, plan_project,
    plan_project_with, ScaffoldError, Step,
};

fn strings(parts: &[&str]) -> Vec<String> {
    parts.iter().map(|s| s.to_string()).collect()
}

#[test]
fn test_create_project_success() {
    let steps = plan_project_with("test-project", false, '/').expect("plan should succeed");
    assert_eq!(steps.len(), 6);
    let mut dirs = Vec::new();
    let mut files = Vec::new();
    for s in &steps {
        match s {
            Step::CreateDir(p) => dirs.push(p.clone()),
            Step::WriteFile(f) => files.push(f.path.clone()),
        }
    }
    assert_eq!(
        dirs,
        vec![
            strings(&["test-project"]),
            strings(&["test-project", "src"]),
            strings(&["test-project", "docs"]),
            strings(&["test-project", "tests"]),
        ]
    );
    assert_eq!(
        files,
        vec![
            strings(&["test-project", "README.md"]),
            strings(&["test-project", "src", "main.rs"]),
        ]
    );
}

#[test]
fn test_create_project_already_exists() {
    let result = plan_project_with("existing-project", true, '/');
    match result {
        Err(e) => {
            assert!(matches!(e, ScaffoldError::AlreadyExists(_)));
            assert!(!e.is_validation());
            let msg = e.message();
            assert!(msg.contains("already exists"), "Error message should mention 'already exists'");
            assert!(msg.contains("existing-project"));
        }
        Ok(_) => panic!("planning should fail for an existing directory"),
    }
}

#[test]
fn test_readme_contains_project_name() {
    let readme = create_readme("my-awesome-project");
    assert_eq!(readme.path, strings(&["my-awesome-project", "README.md"]));
    assert!(readme.content.contains("my-awesome-project"), "README should contain project name");
}

#[test]
fn readme_exact_text() {
    let readme = create_readme("x");
    assert_eq!(
        readme.content,
        "# x\n\nA new project created with Project Zero.\n\n## Getting Started\n\nTODO: Add getting started instructions.\n"
    );
}

#[test]
fn main_stub_is_minimal_program() {
    let stub = create_main_rs("p");
    assert_eq!(stub.path, strings(&["p", "src", "main.rs"]));
    assert_eq!(stub.content, "fn main() {\n    println!(\"Hello, world!\");\n}\n");
}

#[test]
fn test_create_documentation() {
    let files = create_documentation("doc-test-project");
    assert_eq!(files.len(), 3);
    assert_eq!(files[0].path, strings(&["docs", "ARCHITECTURE.md"]));
    assert_eq!(files[1].path, strings(&["docs", "TODO.md"]));
    assert_eq!(files[2].path, strings(&["docs", "CONTRIBUTING.md"]));
    for f in &files {
        assert!(f.content.contains("doc-test-project"));
    }
    assert!(files[0].content.starts_with("# doc-test-project - Architecture\n"));
    assert!(files[1].content.contains("- [x] Project scaffolding"));
    assert!(files[2].content.starts_with("# Contributing to doc-test-project\n"));
}

#[test]
fn empty_name_is_validation_error() {
    match plan_project_with("", false, '/') {
        Err(e) => {
            assert!(matches!(e, ScaffoldError::EmptyName));
            assert!(e.is_validation());
            assert_eq!(
                e.message(),
                "Project name cannot be empty. Please provide a valid project name."
            );
        }
        Ok(_) => panic!("empty name must be rejected"),
    }
}

#[test]
fn separator_in_name_is_validation_error() {
    match plan_project_with("a/b", false, '/') {
        Err(e) => {
            assert!(matches!(e, ScaffoldError::NameHasSeparator(_)));
            assert!(e.is_validation());
            assert!(e.message().contains("'a/b' contains path separators"));
        }
        Ok(_) => panic!("name with a separator must be rejected"),
    }
    assert!(plan_project_with("a\\b", false, '\\').is_err());
    assert!(plan_project_with("a\\b", false, '/').is_ok());
}

#[test]
fn platform_separator_rejected() {
    let name = format!("a{}b", std::path::MAIN_SEPARATOR);
    assert!(matches!(plan_project(&name, false), Err(ScaffoldError::NameHasSeparator(_))));
    assert!(plan_project("plain", false).is_ok());
}

#[test]
fn existing_entry_reported_before_name_rules() {
    assert!(matches!(plan_project_with("", true, '/'), Err(ScaffoldError::AlreadyExists(_))));
    assert!(matches!(plan_project_with("a/b", true, '/'), Err(ScaffoldError::AlreadyExists(_))));
}

#[test]
fn demo_scenario() {
    let steps = plan_project_with("demo", false, '/').expect("demo should be planned");
    match &steps[4] {
        Step::WriteFile(f) => {
            assert_eq!(f.path, strings(&["demo", "README.md"]));
            assert!(f.content.contains("demo"));
        }
        Step::CreateDir(_) => panic!("fifth step writes the README"),
    }
    match &steps[5] {
        Step::WriteFile(f) => assert!(f.content.contains("fn main()")),
        Step::CreateDir(_) => panic!("sixth step writes the entry point"),
    }
    let again = plan_project_with("demo", true, '/');
    match again {
        Err(e) => {
            assert!(matches!(e, ScaffoldError::AlreadyExists(_)));
            assert!(e.message().contains("demo"));
        }
        Ok(_) => panic!("second creation must fail"),
    }
}

#[test]
fn creation_error_message() {
    let e = ScaffoldError::Creation("demo/src".to_string(), "permission denied".to_string());
    assert!(!e.is_validation());
    assert_eq!(
        e.message(),
        "Failed to create 'demo/src': permission denied. The project may be in an incomplete state."
    );
}

#[test]
fn has_char_finds_character() {
    assert!(has_char("a/b", '/'));
    assert!(!has_char("ab", '/'));
    assert!(!has_char("", '/'));
    assert!(has_char("éa", 'é'));
}
