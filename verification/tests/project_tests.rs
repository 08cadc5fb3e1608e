//! Project skeletons: which files each project type gets, with what content.

use tram::error::TramError;
use tram::project_init::{InitConfig, InitProjectType, ProjectInitializer};

fn init_config(name: &str, project_type: InitProjectType, description: Option<&str>) -> InitConfig {
    InitConfig {
        name: name.to_string(),
        path: format!("/work/{}", name),
        project_type,
        description: description.map(|d| d.to_string()),
        author: None,
    }
}

#[test]
fn test_create_rust_project() {
    let config = init_config("test-project", InitProjectType::Rust, Some("A test project"));
    let initializer = ProjectInitializer::new();
    let result = initializer.create_project(&config, false);

    assert!(result.is_ok(), "Should create Rust project successfully");
    let files = result.unwrap();
    assert!(files.iter().any(|f| f.rel_path == "Cargo.toml"), "Cargo.toml should exist");
    assert!(files.iter().any(|f| f.rel_path == "src/main.rs"), "main.rs should exist");

    let cargo = &files.iter().find(|f| f.rel_path == "Cargo.toml").unwrap().content;
    assert_eq!(
        cargo.as_str(),
        "[package]\nname = \"test-project\"\nversion = \"0.1.0\"\nedition = \"2021\"\ndescription = \"A test project\"\n\n[dependencies]\n"
    );
    let main_rs = &files.iter().find(|f| f.rel_path == "src/main.rs").unwrap().content;
    assert_eq!(main_rs.as_str(), "fn main() {\n    println!(\"Hello, world!\");\n}\n");
}

#[test]
fn test_create_nodejs_project() {
    let config = init_config(
        "test-node-project",
        InitProjectType::NodeJs,
        Some("A test Node.js project"),
    );
    let initializer = ProjectInitializer::new();
    let result = initializer.create_project(&config, false);

    assert!(result.is_ok(), "Should create Node.js project successfully");
    let files = result.unwrap();
    assert!(files.iter().any(|f| f.rel_path == "package.json"), "package.json should exist");
    assert!(files.iter().any(|f| f.rel_path == "index.js"), "index.js should exist");

    let pkg = &files.iter().find(|f| f.rel_path == "package.json").unwrap().content;
    assert!(pkg.contains("\"name\": \"test-node-project\""));
    assert!(pkg.contains("\"description\": \"A test Node.js project\""));
    assert!(pkg.contains("\"main\": \"index.js\""));
}

#[test]
fn test_create_project_fails_when_directory_exists() {
    let config = init_config("existing-project", InitProjectType::Rust, None);
    let initializer = ProjectInitializer::new();
    let result = initializer.create_project(&config, true);

    assert!(result.is_err(), "Should fail when directory already exists");
    match result.unwrap_err() {
        TramError::InvalidConfig { message } => {
            assert_eq!(message.as_str(), "Directory /work/existing-project already exists");
        }
        other => panic!("unexpected error: {:?}", other),
    }
}

#[test]
fn test_rust_project_without_description() {
    let config = init_config("bare", InitProjectType::Rust, None);
    let files = ProjectInitializer::new().create_project(&config, false).unwrap();
    let cargo = &files.iter().find(|f| f.rel_path == "Cargo.toml").unwrap().content;
    assert_eq!(
        cargo.as_str(),
        "[package]\nname = \"bare\"\nversion = \"0.1.0\"\nedition = \"2021\"\n\n\n[dependencies]\n"
    );
}

#[test]
fn test_create_python_project_renames_module() {
    let config = init_config("my-tool", InitProjectType::Python, Some("Tooling"));
    let files = ProjectInitializer::new().create_project(&config, false).unwrap();
    assert!(files.iter().any(|f| f.rel_path == "pyproject.toml"));
    assert!(files.iter().any(|f| f.rel_path == "my_tool.py"));
    let py = &files.iter().find(|f| f.rel_path == "pyproject.toml").unwrap().content;
    assert!(py.contains("name = \"my-tool\""));
    assert!(py.contains("my-tool = \"my_tool:main\""));
}

#[test]
fn test_create_go_project_files() {
    let config = init_config("gadget", InitProjectType::Go, None);
    let files = ProjectInitializer::new().create_project(&config, false).unwrap();
    let gomod = &files.iter().find(|f| f.rel_path == "go.mod").unwrap().content;
    assert_eq!(gomod.as_str(), "module gadget\n\ngo 1.21\n");
    assert!(files.iter().any(|f| f.rel_path == "main.go"));
}

#[test]
fn test_create_java_project_is_empty() {
    let config = init_config("jproj", InitProjectType::Java, None);
    let files = ProjectInitializer::new().create_project(&config, false).unwrap();
    assert!(files.is_empty());
}

#[test]
fn test_create_generic_project_readme() {
    let config = init_config("notes", InitProjectType::Generic, None);
    let files = ProjectInitializer::new().create_project(&config, false).unwrap();
    let readme = &files.iter().find(|f| f.rel_path == "README.md").unwrap().content;
    assert_eq!(readme.as_str(), "# notes\n\nA new project\n");

    let config = init_config("notes", InitProjectType::Generic, Some("My notes"));
    let files = ProjectInitializer::new().create_project(&config, false).unwrap();
    let readme = &files.iter().find(|f| f.rel_path == "README.md").unwrap().content;
    assert_eq!(readme.as_str(), "# notes\n\nMy notes\n");
}
