//! Builders for test doubles: a configuration builder and a canned
//! workspace detector.

use vstd::prelude::*;

use crate::config::{ConfigView, LogLevel, OutputFormat, TramConfig};
use crate::error::TramError;
use crate::workspace::ProjectType;

verus! {

/// Builds a `TramConfig` field by field; unset fields keep their defaults.
#[derive(Clone, Debug, PartialEq)]
pub struct MockConfigBuilder {
    log_level: Option<LogLevel>,
    output_format: Option<OutputFormat>,
    color: Option<bool>,
    workspace_root: Option<String>,
}

/// The mathematical shape of a `MockConfigBuilder`.
pub ghost struct MockConfigBuilderView {
    pub log_level: Option<LogLevel>,
    pub output_format: Option<OutputFormat>,
    pub color: Option<bool>,
    pub workspace_root: Option<Seq<char>>,
}

impl View for MockConfigBuilder {
    type V = MockConfigBuilderView;

    closed spec fn view(&self) -> MockConfigBuilderView {
        MockConfigBuilderView {
            log_level: self.log_level,
            output_format: self.output_format,
            color: self.color,
            workspace_root: match self.workspace_root {
                Some(p) => Some(p@),
                None => None,
            },
        }
    }
}

/// The configuration a builder stands for: set fields override the
/// defaults.
pub open spec fn spec_built_config(b: MockConfigBuilderView) -> ConfigView {
    ConfigView {
        log_level: match b.log_level {
            Some(l) => l,
            None => LogLevel::Info,
        },
        output_format: match b.output_format {
            Some(f) => f,
            None => OutputFormat::Table,
        },
        color: match b.color {
            Some(c) => c,
            None => true,
        },
        workspace_root: b.workspace_root,
    }
}

impl MockConfigBuilder {
    /// A builder with nothing set.
    pub fn new() -> (r: MockConfigBuilder)
        ensures
            r@.log_level is None,
            r@.output_format is None,
            r@.color is None,
            r@.workspace_root is None,
    {
        MockConfigBuilder { log_level: None, output_format: None, color: None, workspace_root: None }
    }

    /// Sets the log level.
    pub fn log_level(self, level: LogLevel) -> (r: MockConfigBuilder)
        ensures
            r@ == (MockConfigBuilderView { log_level: Some(level), ..self@ }),
    {
        MockConfigBuilder { log_level: Some(level), ..self }
    }

    /// Sets the output format.
    pub fn output_format(self, format: OutputFormat) -> (r: MockConfigBuilder)
        ensures
            r@ == (MockConfigBuilderView { output_format: Some(format), ..self@ }),
    {
        MockConfigBuilder { output_format: Some(format), ..self }
    }

    /// Sets whether colors are used.
    pub fn color(self, enabled: bool) -> (r: MockConfigBuilder)
        ensures
            r@ == (MockConfigBuilderView { color: Some(enabled), ..self@ }),
    {
        MockConfigBuilder { color: Some(enabled), ..self }
    }

    /// Sets the workspace root.
    pub fn workspace_root(self, path: String) -> (r: MockConfigBuilder)
        ensures
            r@ == (MockConfigBuilderView { workspace_root: Some(path@), ..self@ }),
    {
        MockConfigBuilder { workspace_root: Some(path), ..self }
    }

    /// The configuration this builder stands for.
    pub fn build(self) -> (r: TramConfig)
        ensures
            r@ == spec_built_config(self@),
    {
        TramConfig {
            log_level: match self.log_level {
                Some(l) => l,
                None => LogLevel::Info,
            },
            output_format: match self.output_format {
                Some(f) => f,
                None => OutputFormat::Table,
            },
            color: match self.color {
                Some(c) => c,
                None => true,
            },
            workspace_root: self.workspace_root,
        }
    }
}

impl Default for MockConfigBuilder {
    /// A builder with nothing set.
    fn default() -> (r: Self)
        ensures
            r@.log_level is None,
            r@.output_format is None,
            r@.color is None,
            r@.workspace_root is None,
    {
        MockConfigBuilder::new()
    }
}

/// A workspace detector with canned answers.
#[derive(Debug)]
pub struct MockWorkspaceDetector {
    root: Option<String>,
    project_type: Option<ProjectType>,
}

/// The mathematical shape of a `MockWorkspaceDetector`.
pub ghost struct MockWorkspaceDetectorView {
    pub root: Option<Seq<char>>,
    pub project_type: Option<ProjectType>,
}

impl View for MockWorkspaceDetector {
    type V = MockWorkspaceDetectorView;

    closed spec fn view(&self) -> MockWorkspaceDetectorView {
        MockWorkspaceDetectorView {
            root: match self.root {
                Some(r) => Some(r@),
                None => None,
            },
            project_type: self.project_type,
        }
    }
}

impl MockWorkspaceDetector {
    /// A detector with no canned answers.
    pub fn new() -> (r: MockWorkspaceDetector)
        ensures
            r@.root is None,
            r@.project_type is None,
    {
        MockWorkspaceDetector { root: None, project_type: None }
    }

    /// Sets the canned workspace root.
    pub fn with_root(self, root: String) -> (r: MockWorkspaceDetector)
        ensures
            r@ == (MockWorkspaceDetectorView { root: Some(root@), ..self@ }),
    {
        MockWorkspaceDetector { root: Some(root), ..self }
    }

    /// Sets the canned project type.
    pub fn with_project_type(self, project_type: ProjectType) -> (r: MockWorkspaceDetector)
        ensures
            r@ == (MockWorkspaceDetectorView { project_type: Some(project_type), ..self@ }),
    {
        MockWorkspaceDetector { project_type: Some(project_type), ..self }
    }

    /// The canned workspace root, or `WorkspaceNotFound` where none was set.
    pub fn detect_root(&self) -> (r: Result<String, TramError>)
        ensures
            ({
                match r {
                    Ok(root) => self@.root is Some && root@ == self@.root->0,
                    Err(e) => self@.root is None && e == TramError::WorkspaceNotFound,
                }
            }),
    {
        match &self.root {
            Some(root) => Ok(root.clone()),
            None => Err(TramError::WorkspaceNotFound),
        }
    }

    /// The canned project type, if one was set.
    pub fn get_project_type(&self) -> (r: Option<&ProjectType>)
        ensures
            ({
                match r {
                    Some(t) => self@.project_type == Some(*t),
                    None => self@.project_type is None,
                }
            }),
    {
        self.project_type.as_ref()
    }
}

impl Default for MockWorkspaceDetector {
    /// A detector with no canned answers.
    fn default() -> (r: Self)
        ensures
            r@.root is None,
            r@.project_type is None,
    {
        MockWorkspaceDetector::new()
    }
}

} // verus!
