//! The resolved configuration snapshot and the precedence rules that build it.
//!
//! A `TramConfig` is resolved from four sources; the highest present source
//! wins for every field independently: a CLI override beats an environment
//! variable, which beats a file value, which beats the built-in default.
//! Environment values that do not parse are silently ignored and the prior
//! value is kept; that leniency is deliberate.

use vstd::prelude::*;

use crate::error::ConfigKey;
use crate::strutil::{eq_ignore_case_seq, str_eq, str_eq_ignore_case};

verus! {

/// The severity threshold for log output.
#[derive(Clone, Copy, Debug, PartialEq, Eq, Structural)]
pub enum LogLevel {
    Debug,
    Info,
    Warn,
    Error,
}

/// How command results are rendered.
#[derive(Clone, Copy, Debug, PartialEq, Eq, Structural)]
pub enum OutputFormat {
    Json,
    Yaml,
    Table,
}

impl LogLevel {
    /// The canonical lower-case name of this level.
    pub open spec fn name(self) -> Seq<char> {
        match self {
            LogLevel::Debug => "debug"@,
            LogLevel::Info => "info"@,
            LogLevel::Warn => "warn"@,
            LogLevel::Error => "error"@,
        }
    }

    /// The canonical lower-case name of this level.
    pub fn as_str(&self) -> (r: &'static str)
        ensures
            r@ == self.name(),
    {
        match self {
            LogLevel::Debug => "debug",
            LogLevel::Info => "info",
            LogLevel::Warn => "warn",
            LogLevel::Error => "error",
        }
    }

    /// Reads a level from its name, ignoring ASCII case.
    pub fn parse(s: &str) -> (r: Option<LogLevel>)
        ensures
            r == spec_parse_log_level(s@),
    {
        if str_eq_ignore_case(s, "debug") {
            Some(LogLevel::Debug)
        } else if str_eq_ignore_case(s, "info") {
            Some(LogLevel::Info)
        } else if str_eq_ignore_case(s, "warn") {
            Some(LogLevel::Warn)
        } else if str_eq_ignore_case(s, "error") {
            Some(LogLevel::Error)
        } else {
            None
        }
    }
}

impl Default for LogLevel {
    /// The default level is `Info`.
    fn default() -> (r: Self)
        ensures
            r == LogLevel::Info,
    {
        LogLevel::Info
    }
}

impl OutputFormat {
    /// The canonical lower-case name of this format.
    pub open spec fn name(self) -> Seq<char> {
        match self {
            OutputFormat::Json => "json"@,
            OutputFormat::Yaml => "yaml"@,
            OutputFormat::Table => "table"@,
        }
    }

    /// The canonical lower-case name of this format.
    pub fn as_str(&self) -> (r: &'static str)
        ensures
            r@ == self.name(),
    {
        match self {
            OutputFormat::Json => "json",
            OutputFormat::Yaml => "yaml",
            OutputFormat::Table => "table",
        }
    }

    /// Reads a format from its name, ignoring ASCII case.
    pub fn parse(s: &str) -> (r: Option<OutputFormat>)
        ensures
            r == spec_parse_output_format(s@),
    {
        if str_eq_ignore_case(s, "json") {
            Some(OutputFormat::Json)
        } else if str_eq_ignore_case(s, "yaml") {
            Some(OutputFormat::Yaml)
        } else if str_eq_ignore_case(s, "table") {
            Some(OutputFormat::Table)
        } else {
            None
        }
    }
}

impl Default for OutputFormat {
    /// The default format is `Table`.
    fn default() -> (r: Self)
        ensures
            r == OutputFormat::Table,
    {
        OutputFormat::Table
    }
}

/// The level named by `s` up to ASCII case, if any.
pub open spec fn spec_parse_log_level(s: Seq<char>) -> Option<LogLevel> {
    if eq_ignore_case_seq(s, "debug"@) {
        Some(LogLevel::Debug)
    } else if eq_ignore_case_seq(s, "info"@) {
        Some(LogLevel::Info)
    } else if eq_ignore_case_seq(s, "warn"@) {
        Some(LogLevel::Warn)
    } else if eq_ignore_case_seq(s, "error"@) {
        Some(LogLevel::Error)
    } else {
        None
    }
}

/// The format named by `s` up to ASCII case, if any.
pub open spec fn spec_parse_output_format(s: Seq<char>) -> Option<OutputFormat> {
    if eq_ignore_case_seq(s, "json"@) {
        Some(OutputFormat::Json)
    } else if eq_ignore_case_seq(s, "yaml"@) {
        Some(OutputFormat::Yaml)
    } else if eq_ignore_case_seq(s, "table"@) {
        Some(OutputFormat::Table)
    } else {
        None
    }
}

/// The boolean named by `s`: exactly `true` or `false`.
pub open spec fn spec_parse_bool(s: Seq<char>) -> Option<bool> {
    if s == "true"@ {
        Some(true)
    } else if s == "false"@ {
        Some(false)
    } else {
        None
    }
}

/// Reads a boolean from the strings `true` and `false`.
pub fn parse_bool(s: &str) -> (r: Option<bool>)
    ensures
        r == spec_parse_bool(s@),
{
    if str_eq(s, "true") {
        Some(true)
    } else if str_eq(s, "false") {
        Some(false)
    } else {
        None
    }
}

/// The resolved configuration snapshot: every field has a value, except the
/// workspace root, which is genuinely optional.
#[derive(Clone, Debug, PartialEq)]
pub struct TramConfig {
    /// Log level (debug, info, warn, error).
    pub log_level: LogLevel,
    /// Output format (json, yaml, table).
    pub output_format: OutputFormat,
    /// Whether to use colors in output.
    pub color: bool,
    /// Workspace root directory.
    pub workspace_root: Option<String>,
}

/// The mathematical shape of a `TramConfig`.
pub ghost struct ConfigView {
    pub log_level: LogLevel,
    pub output_format: OutputFormat,
    pub color: bool,
    pub workspace_root: Option<Seq<char>>,
}

impl View for TramConfig {
    type V = ConfigView;

    open spec fn view(&self) -> ConfigView {
        ConfigView {
            log_level: self.log_level,
            output_format: self.output_format,
            color: self.color,
            workspace_root: match self.workspace_root {
                Some(p) => Some(p@),
                None => None,
            },
        }
    }
}

/// The built-in defaults: info logging, table output, colors on, no root.
pub open spec fn spec_default_config() -> ConfigView {
    ConfigView {
        log_level: LogLevel::Info,
        output_format: OutputFormat::Table,
        color: true,
        workspace_root: None,
    }
}

impl Default for TramConfig {
    /// The built-in default configuration.
    fn default() -> (r: Self)
        ensures
            r@ == spec_default_config(),
    {
        TramConfig {
            log_level: LogLevel::Info,
            output_format: OutputFormat::Table,
            color: true,
            workspace_root: None,
        }
    }
}

impl TramConfig {
    /// An owned copy whose fields equal this snapshot's.
    pub fn snapshot(&self) -> (r: TramConfig)
        ensures
            r@ == self@,
    {
        TramConfig {
            log_level: self.log_level,
            output_format: self.output_format,
            color: self.color,
            workspace_root: match &self.workspace_root {
                Some(p) => Some(p.clone()),
                None => None,
            },
        }
    }
}

/// The fields a configuration file contributed; absent fields keep whatever
/// the lower-precedence sources resolved.
#[derive(Clone, Debug, PartialEq)]
pub struct FileFields {
    pub log_level: Option<LogLevel>,
    pub output_format: Option<OutputFormat>,
    pub color: Option<bool>,
    pub workspace_root: Option<String>,
}

/// The mathematical shape of a `FileFields`.
pub ghost struct FileFieldsView {
    pub log_level: Option<LogLevel>,
    pub output_format: Option<OutputFormat>,
    pub color: Option<bool>,
    pub workspace_root: Option<Seq<char>>,
}

impl View for FileFields {
    type V = FileFieldsView;

    open spec fn view(&self) -> FileFieldsView {
        FileFieldsView {
            log_level: self.log_level,
            output_format: self.output_format,
            color: self.color,
            workspace_root: match self.workspace_root {
                Some(p) => Some(p@),
                None => None,
            },
        }
    }
}

impl FileFields {
    /// A contribution that sets nothing.
    pub fn empty() -> (r: FileFields)
        ensures
            r@ == spec_empty_file_fields(),
    {
        FileFields { log_level: None, output_format: None, color: None, workspace_root: None }
    }
}

/// The file contribution that sets nothing.
pub open spec fn spec_empty_file_fields() -> FileFieldsView {
    FileFieldsView { log_level: None, output_format: None, color: None, workspace_root: None }
}

/// The raw values of the `TRAM_*` environment variables, unparsed; `None`
/// where a variable is unset.
#[derive(Clone, Debug, PartialEq, Default)]
pub struct EnvOverrides {
    pub log_level: Option<String>,
    pub output_format: Option<String>,
    pub color: Option<String>,
    pub workspace_root: Option<String>,
}

/// The mathematical shape of an `EnvOverrides`.
pub ghost struct EnvView {
    pub log_level: Option<Seq<char>>,
    pub output_format: Option<Seq<char>>,
    pub color: Option<Seq<char>>,
    pub workspace_root: Option<Seq<char>>,
}

impl View for EnvOverrides {
    type V = EnvView;

    open spec fn view(&self) -> EnvView {
        EnvView {
            log_level: match self.log_level {
                Some(s) => Some(s@),
                None => None,
            },
            output_format: match self.output_format {
                Some(s) => Some(s@),
                None => None,
            },
            color: match self.color {
                Some(s) => Some(s@),
                None => None,
            },
            workspace_root: match self.workspace_root {
                Some(s) => Some(s@),
                None => None,
            },
        }
    }
}

impl EnvOverrides {
    /// An environment with every variable unset.
    pub fn unset() -> (r: EnvOverrides)
        ensures
            r@ == spec_unset_env(),
    {
        EnvOverrides { log_level: None, output_format: None, color: None, workspace_root: None }
    }
}

/// The environment with every variable unset.
pub open spec fn spec_unset_env() -> EnvView {
    EnvView { log_level: None, output_format: None, color: None, workspace_root: None }
}

/// The values the user passed on the command line; `None` where the flag was
/// not given. Presence of a flag is unambiguous, so present values overwrite
/// unconditionally.
#[derive(Clone, Copy, Debug, PartialEq, Eq, Structural, Default)]
pub struct CliOverrides {
    pub log_level: Option<LogLevel>,
    pub output_format: Option<OutputFormat>,
    pub color: Option<bool>,
}

/// Overlays a file contribution on a base configuration: every present field
/// overwrites, every absent field keeps the base value.
pub open spec fn spec_apply_file(base: ConfigView, file: FileFieldsView) -> ConfigView {
    ConfigView {
        log_level: match file.log_level {
            Some(l) => l,
            None => base.log_level,
        },
        output_format: match file.output_format {
            Some(f) => f,
            None => base.output_format,
        },
        color: match file.color {
            Some(c) => c,
            None => base.color,
        },
        workspace_root: match file.workspace_root {
            Some(p) => Some(p),
            None => base.workspace_root,
        },
    }
}

/// Overlays the environment on a base configuration: a set variable that
/// parses overwrites its field; one that does not parse is silently ignored
/// and the prior value is kept.
pub open spec fn spec_apply_env(base: ConfigView, env: EnvView) -> ConfigView {
    ConfigView {
        log_level: match env.log_level {
            Some(s) => match spec_parse_log_level(s) {
                Some(l) => l,
                None => base.log_level,
            },
            None => base.log_level,
        },
        output_format: match env.output_format {
            Some(s) => match spec_parse_output_format(s) {
                Some(f) => f,
                None => base.output_format,
            },
            None => base.output_format,
        },
        color: match env.color {
            Some(s) => match spec_parse_bool(s) {
                Some(c) => c,
                None => base.color,
            },
            None => base.color,
        },
        workspace_root: match env.workspace_root {
            Some(p) => Some(p),
            None => base.workspace_root,
        },
    }
}

/// Overlays the CLI flags on a base configuration: present flags overwrite.
pub open spec fn spec_apply_cli(base: ConfigView, cli: CliOverrides) -> ConfigView {
    ConfigView {
        log_level: match cli.log_level {
            Some(l) => l,
            None => base.log_level,
        },
        output_format: match cli.output_format {
            Some(f) => f,
            None => base.output_format,
        },
        color: match cli.color {
            Some(c) => c,
            None => base.color,
        },
        workspace_root: base.workspace_root,
    }
}

/// The full resolution: defaults, then the file contribution (if a file was
/// found), then the environment, then the CLI flags.
pub open spec fn spec_resolve(file: Option<FileFieldsView>, env: EnvView, cli: CliOverrides) -> ConfigView {
    spec_apply_cli(
        spec_apply_env(
            spec_apply_file(
                spec_default_config(),
                match file {
                    Some(f) => f,
                    None => spec_empty_file_fields(),
                },
            ),
            env,
        ),
        cli,
    )
}

/// Overlays a file contribution on a base configuration.
pub fn apply_file_fields(base: &TramConfig, file: &FileFields) -> (r: TramConfig)
    ensures
        r@ == spec_apply_file(base@, file@),
{
    TramConfig {
        log_level: match file.log_level {
            Some(l) => l,
            None => base.log_level,
        },
        output_format: match file.output_format {
            Some(f) => f,
            None => base.output_format,
        },
        color: match file.color {
            Some(c) => c,
            None => base.color,
        },
        workspace_root: match &file.workspace_root {
            Some(p) => Some(p.clone()),
            None => match &base.workspace_root {
                Some(p) => Some(p.clone()),
                None => None,
            },
        },
    }
}

/// Overlays the environment on a base configuration; invalid values are
/// silently ignored.
pub fn apply_env_overrides(base: &TramConfig, env: &EnvOverrides) -> (r: TramConfig)
    ensures
        r@ == spec_apply_env(base@, env@),
{
    let log_level = match &env.log_level {
        Some(s) => match LogLevel::parse(s.as_str()) {
            Some(l) => l,
            None => base.log_level,
        },
        None => base.log_level,
    };
    let output_format = match &env.output_format {
        Some(s) => match OutputFormat::parse(s.as_str()) {
            Some(f) => f,
            None => base.output_format,
        },
        None => base.output_format,
    };
    let color = match &env.color {
        Some(s) => match parse_bool(s.as_str()) {
            Some(c) => c,
            None => base.color,
        },
        None => base.color,
    };
    let workspace_root = match &env.workspace_root {
        Some(p) => Some(p.clone()),
        None => match &base.workspace_root {
            Some(p) => Some(p.clone()),
            None => None,
        },
    };
    TramConfig { log_level, output_format, color, workspace_root }
}

/// Overlays the CLI flags on a base configuration.
pub fn apply_cli_overrides(base: &TramConfig, cli: &CliOverrides) -> (r: TramConfig)
    ensures
        r@ == spec_apply_cli(base@, *cli),
{
    TramConfig {
        log_level: match cli.log_level {
            Some(l) => l,
            None => base.log_level,
        },
        output_format: match cli.output_format {
            Some(f) => f,
            None => base.output_format,
        },
        color: match cli.color {
            Some(c) => c,
            None => base.color,
        },
        workspace_root: match &base.workspace_root {
            Some(p) => Some(p.clone()),
            None => None,
        },
    }
}

/// Precedence monotonicity: for every field, the resolved value equals the
/// CLI value if present, else the environment value if present and valid,
/// else the file value if present, else the built-in default.
pub proof fn lemma_precedence(file: FileFieldsView, env: EnvView, cli: CliOverrides)
    ensures
        spec_resolve(Some(file), env, cli).log_level == (match cli.log_level {
            Some(l) => l,
            None => match env.log_level {
                Some(s) if spec_parse_log_level(s) is Some => spec_parse_log_level(s)->Some_0,
                _ => match file.log_level {
                    Some(l) => l,
                    None => LogLevel::Info,
                },
            },
        }),
        spec_resolve(Some(file), env, cli).output_format == (match cli.output_format {
            Some(f) => f,
            None => match env.output_format {
                Some(s) if spec_parse_output_format(s) is Some => spec_parse_output_format(
                    s,
                )->Some_0,
                _ => match file.output_format {
                    Some(f) => f,
                    None => OutputFormat::Table,
                },
            },
        }),
        spec_resolve(Some(file), env, cli).color == (match cli.color {
            Some(c) => c,
            None => match env.color {
                Some(s) if spec_parse_bool(s) is Some => spec_parse_bool(s)->Some_0,
                _ => match file.color {
                    Some(c) => c,
                    None => true,
                },
            },
        }),
        spec_resolve(Some(file), env, cli).workspace_root == (match env.workspace_root {
            Some(p) => Some(p),
            None => match file.workspace_root {
                Some(p) => Some(p),
                None => None,
            },
        }),
{
}

/// Deliberate leniency: an environment variable holding a value that does not
/// parse leaves its field at the prior value instead of failing the load.
pub proof fn lemma_env_invalid_value_kept(base: ConfigView, env: EnvView)
    ensures
        (match env.log_level {
            Some(s) => spec_parse_log_level(s) is None,
            None => true,
        }) ==> spec_apply_env(base, env).log_level == base.log_level,
        (match env.output_format {
            Some(s) => spec_parse_output_format(s) is None,
            None => true,
        }) ==> spec_apply_env(base, env).output_format == base.output_format,
        (match env.color {
            Some(s) => spec_parse_bool(s) is None,
            None => true,
        }) ==> spec_apply_env(base, env).color == base.color,
{
}

} // verus!
