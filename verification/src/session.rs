//! The application session: the resolved configuration and what was
//! detected about the workspace, plus the conversion of raw global CLI
//! options into typed overrides.

use vstd::prelude::*;

use crate::config::{
    spec_apply_env, spec_default_config, CliOverrides, ConfigView, EnvOverrides, LogLevel,
    OutputFormat, TramConfig,
};
use crate::error::TramError;
use crate::strutil::{eq_ignore_case_seq, str_eq};
use crate::workspace::{
    spec_detect_project_type, spec_detect_root, ProjectType, WorkspaceDetector,
};

verus! {

/// The global options every command accepts, as raw strings from the CLI
/// layer.
#[derive(Clone, Debug, PartialEq)]
pub struct GlobalOptions {
    /// Log level (debug, info, warn, error).
    pub log_level: String,
    /// Output format (json, yaml, table).
    pub format: String,
    /// Disable colored output.
    pub no_color: bool,
    /// Config file path.
    pub config: Option<String>,
}

/// The mathematical shape of a `GlobalOptions`.
pub ghost struct GlobalOptionsView {
    pub log_level: Seq<char>,
    pub format: Seq<char>,
    pub no_color: bool,
    pub config: Option<Seq<char>>,
}

impl View for GlobalOptions {
    type V = GlobalOptionsView;

    open spec fn view(&self) -> GlobalOptionsView {
        GlobalOptionsView {
            log_level: self.log_level@,
            format: self.format@,
            no_color: self.no_color,
            config: match self.config {
                Some(c) => Some(c@),
                None => None,
            },
        }
    }
}

/// The typed overrides the raw global options stand for: a level or format
/// equal to its default keyword is treated as not passed; an unrecognized
/// keyword is an error.
pub open spec fn spec_cli_overrides_of(g: GlobalOptionsView) -> Result<
    CliOverrides,
    crate::error::TramErrorView,
> {
    if g.log_level != "info"@ && crate::config::spec_parse_log_level(g.log_level) is None {
        Err(
            crate::error::TramErrorView::InvalidConfig {
                message: "Invalid log level: "@ + g.log_level,
            },
        )
    } else if g.format != "table"@ && crate::config::spec_parse_output_format(g.format) is None {
        Err(
            crate::error::TramErrorView::InvalidConfig {
                message: "Invalid output format: "@ + g.format,
            },
        )
    } else {
        Ok(
            CliOverrides {
                log_level: if g.log_level != "info"@ {
                    crate::config::spec_parse_log_level(g.log_level)
                } else {
                    None
                },
                output_format: if g.format != "table"@ {
                    crate::config::spec_parse_output_format(g.format)
                } else {
                    None
                },
                color: if g.no_color {
                    Some(false)
                } else {
                    None
                },
            },
        )
    }
}

/// Turns the raw global options into typed overrides; an unrecognized level
/// or format keyword is rejected.
pub fn cli_overrides_from_global(g: &GlobalOptions) -> (r: Result<CliOverrides, TramError>)
    ensures
        ({
            let m = spec_cli_overrides_of(g@);
            match r {
                Ok(c) => m is Ok && c == m->Ok_0,
                Err(e) => m is Err && e@ == m->Err_0,
            }
        }),
{
    let log_level = if !str_eq(g.log_level.as_str(), "info") {
        match LogLevel::parse(g.log_level.as_str()) {
            Some(l) => Some(l),
            None => {
                let mut m = String::from_str("Invalid log level: ");
                m.append(g.log_level.as_str());
                return Err(TramError::InvalidConfig { message: m });
            },
        }
    } else {
        None
    };
    let output_format = if !str_eq(g.format.as_str(), "table") {
        match OutputFormat::parse(g.format.as_str()) {
            Some(f) => Some(f),
            None => {
                let mut m = String::from_str("Invalid output format: ");
                m.append(g.format.as_str());
                return Err(TramError::InvalidConfig { message: m });
            },
        }
    } else {
        None
    };
    let color = if g.no_color {
        Some(false)
    } else {
        None
    };
    Ok(CliOverrides { log_level, output_format, color })
}

/// The interactive examples a user can ask for.
#[derive(Clone, Copy, Debug, PartialEq, Eq, Structural)]
pub enum ExampleType {
    /// Basic CLI command patterns.
    BasicCommand,
    /// Async operations and concurrency.
    AsyncOperations,
    /// Configuration management.
    ConfigUsage,
    /// Progress indicators and terminal UI.
    ProgressIndicators,
    /// Interactive prompts and user input.
    InteractivePrompts,
    /// File system operations.
    FileOperations,
}

impl ExampleType {
    /// The keyword of this example.
    pub open spec fn name(self) -> Seq<char> {
        match self {
            ExampleType::BasicCommand => "basic-command"@,
            ExampleType::AsyncOperations => "async-operations"@,
            ExampleType::ConfigUsage => "config-usage"@,
            ExampleType::ProgressIndicators => "progress-indicators"@,
            ExampleType::InteractivePrompts => "interactive-prompts"@,
            ExampleType::FileOperations => "file-operations"@,
        }
    }

    /// The keyword of this example.
    pub fn as_str(&self) -> (r: &'static str)
        ensures
            r@ == self.name(),
    {
        match self {
            ExampleType::BasicCommand => "basic-command",
            ExampleType::AsyncOperations => "async-operations",
            ExampleType::ConfigUsage => "config-usage",
            ExampleType::ProgressIndicators => "progress-indicators",
            ExampleType::InteractivePrompts => "interactive-prompts",
            ExampleType::FileOperations => "file-operations",
        }
    }

    /// The example a keyword names, ignoring ASCII case.
    pub open spec fn spec_parse(s: Seq<char>) -> Option<ExampleType> {
        if eq_ignore_case_seq(s, "basic-command"@) {
            Some(ExampleType::BasicCommand)
        } else if eq_ignore_case_seq(s, "async-operations"@) {
            Some(ExampleType::AsyncOperations)
        } else if eq_ignore_case_seq(s, "config-usage"@) {
            Some(ExampleType::ConfigUsage)
        } else if eq_ignore_case_seq(s, "progress-indicators"@) {
            Some(ExampleType::ProgressIndicators)
        } else if eq_ignore_case_seq(s, "interactive-prompts"@) {
            Some(ExampleType::InteractivePrompts)
        } else if eq_ignore_case_seq(s, "file-operations"@) {
            Some(ExampleType::FileOperations)
        } else {
            None
        }
    }

    /// Reads an example from its keyword, ignoring ASCII case.
    pub fn parse(s: &str) -> (r: Option<ExampleType>)
        ensures
            r == ExampleType::spec_parse(s@),
    {
        if crate::strutil::str_eq_ignore_case(s, "basic-command") {
            Some(ExampleType::BasicCommand)
        } else if crate::strutil::str_eq_ignore_case(s, "async-operations") {
            Some(ExampleType::AsyncOperations)
        } else if crate::strutil::str_eq_ignore_case(s, "config-usage") {
            Some(ExampleType::ConfigUsage)
        } else if crate::strutil::str_eq_ignore_case(s, "progress-indicators") {
            Some(ExampleType::ProgressIndicators)
        } else if crate::strutil::str_eq_ignore_case(s, "interactive-prompts") {
            Some(ExampleType::InteractivePrompts)
        } else if crate::strutil::str_eq_ignore_case(s, "file-operations") {
            Some(ExampleType::FileOperations)
        } else {
            None
        }
    }
}

/// The application session: the resolved configuration, the workspace
/// detector it was built with, and what startup detected.
#[derive(Clone, Debug)]
pub struct TramSession {
    pub config: TramConfig,
    pub workspace: WorkspaceDetector,
    pub workspace_root: Option<String>,
    pub project_type: Option<ProjectType>,
}

/// The mathematical shape of a `TramSession`.
pub ghost struct TramSessionView {
    pub config: ConfigView,
    pub workspace: Seq<char>,
    pub workspace_root: Option<Seq<char>>,
    pub project_type: Option<ProjectType>,
}

impl View for TramSession {
    type V = TramSessionView;

    open spec fn view(&self) -> TramSessionView {
        TramSessionView {
            config: self.config@,
            workspace: self.workspace@,
            workspace_root: match self.workspace_root {
                Some(r) => Some(r@),
                None => None,
            },
            project_type: self.project_type,
        }
    }
}

impl TramSession {
    /// A session whose configuration is the defaults overlaid with the
    /// environment; nothing is detected yet.
    pub fn new(env: &EnvOverrides, workspace: WorkspaceDetector) -> (r: TramSession)
        ensures
            r@.config == spec_apply_env(spec_default_config(), env@),
            r@.workspace == workspace@,
            r@.workspace_root is None,
            r@.project_type is None,
    {
        TramSession {
            config: TramConfig::load(env),
            workspace,
            workspace_root: None,
            project_type: None,
        }
    }

    /// A session around an already-resolved configuration; nothing is
    /// detected yet.
    pub fn with_config(config: TramConfig, workspace: WorkspaceDetector) -> (r: TramSession)
        ensures
            r@.config == config@,
            r@.workspace == workspace@,
            r@.workspace_root is None,
            r@.project_type is None,
    {
        TramSession { config, workspace, workspace_root: None, project_type: None }
    }

    /// The startup phase: detects the workspace root and the project type,
    /// judged against the list of existing paths; with no root found, the
    /// session is left as it was.
    pub fn startup(&mut self, existing: &Vec<String>)
        ensures
            final (self)@.config == old(self)@.config,
            final (self)@.workspace == old(self)@.workspace,
            ({
                let found = spec_detect_root(
                    old(self)@.workspace,
                    existing@.map_values(|x: String| x@),
                );
                match found {
                    Some(root) => final (self)@.workspace_root == Some(root) && final (self)@
                        .project_type == Some(
                        spec_detect_project_type(root, existing@.map_values(|x: String| x@)),
                    ),
                    None => final (self)@.workspace_root == old(self)@.workspace_root && final (
                    self)@.project_type == old(self)@.project_type,
                }
            }),
    {
        match self.workspace.detect_root(existing) {
            Ok(root) => {
                self.project_type = ProjectType::detect(root.as_str(), existing);
                self.workspace_root = Some(root);
            },
            Err(_) => {},
        }
    }
}

} // verus!
