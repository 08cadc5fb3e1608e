//! Workspace detection against a list of existing paths.

use tram::error::TramError;
use tram::workspace::{ProjectType, WorkspaceDetector};

#[test]
fn test_detect_rust_project() {
    let existing = vec!["/tmp/ws/Cargo.toml".to_string()];
    assert_eq!(
        ProjectType::detect("/tmp/ws", &existing),
        Some(ProjectType::Rust)
    );
}

#[test]
fn test_workspace_detector() {
    let existing = vec!["/tmp/ws/Cargo.toml".to_string()];
    let detector = WorkspaceDetector::from_dir("/tmp/ws".to_string());
    let root = detector.detect_root(&existing).unwrap();
    assert_eq!(root.as_str(), "/tmp/ws");
}

#[test]
fn test_detect_root_walks_upward() {
    // The starting directory has no marker; an ancestor does.
    let existing = vec!["/home/dev/proj/.git".to_string()];
    let detector = WorkspaceDetector::from_dir("/home/dev/proj/src/inner".to_string());
    let root = detector.detect_root(&existing).unwrap();
    assert_eq!(root.as_str(), "/home/dev/proj");
}

#[test]
fn test_detect_root_prefers_nearest() {
    // Both the inner and the outer directory are roots; the nearest wins.
    let existing = vec![
        "/a/.git".to_string(),
        "/a/b/package.json".to_string(),
    ];
    let detector = WorkspaceDetector::from_dir("/a/b".to_string());
    assert_eq!(detector.detect_root(&existing).unwrap().as_str(), "/a/b");
}

#[test]
fn test_detect_root_not_found() {
    let detector = WorkspaceDetector::from_dir("/lonely/dir".to_string());
    let result = detector.detect_root(&vec![]);
    assert_eq!(result.unwrap_err(), TramError::WorkspaceNotFound);
}

#[test]
fn test_project_type_detection_order() {
    // Cargo.toml outranks package.json, which outranks the rest.
    let existing = vec![
        "/p/Cargo.toml".to_string(),
        "/p/package.json".to_string(),
        "/p/go.mod".to_string(),
    ];
    assert_eq!(ProjectType::detect("/p", &existing), Some(ProjectType::Rust));

    let existing = vec!["/p/package.json".to_string(), "/p/setup.py".to_string()];
    assert_eq!(ProjectType::detect("/p", &existing), Some(ProjectType::NodeJs));

    let existing = vec!["/p/pyproject.toml".to_string()];
    assert_eq!(ProjectType::detect("/p", &existing), Some(ProjectType::Python));

    let existing = vec!["/p/go.mod".to_string()];
    assert_eq!(ProjectType::detect("/p", &existing), Some(ProjectType::Go));

    let existing = vec!["/p/pom.xml".to_string()];
    assert_eq!(ProjectType::detect("/p", &existing), Some(ProjectType::Java));

    let existing = vec!["/p/build.gradle".to_string()];
    assert_eq!(ProjectType::detect("/p", &existing), Some(ProjectType::Java));

    assert_eq!(ProjectType::detect("/p", &vec![]), Some(ProjectType::Generic));
}

#[test]
fn test_ignore_patterns() {
    assert_eq!(
        ProjectType::Rust.ignore_patterns(),
        vec!["target/".to_string(), "Cargo.lock".to_string()]
    );
    assert_eq!(
        ProjectType::NodeJs.ignore_patterns(),
        vec!["node_modules/".to_string(), "dist/".to_string(), "build/".to_string()]
    );
    assert_eq!(
        ProjectType::Python.ignore_patterns(),
        vec![
            "__pycache__/".to_string(),
            "*.pyc".to_string(),
            ".venv/".to_string(),
            "venv/".to_string(),
            "dist/".to_string(),
            "build/".to_string(),
        ]
    );
    assert_eq!(ProjectType::Go.ignore_patterns(), vec!["vendor/".to_string()]);
    assert_eq!(
        ProjectType::Java.ignore_patterns(),
        vec!["target/".to_string(), "build/".to_string(), "*.class".to_string()]
    );
    assert_eq!(
        ProjectType::Generic.ignore_patterns(),
        vec!["build/".to_string(), "dist/".to_string(), "out/".to_string()]
    );
}
