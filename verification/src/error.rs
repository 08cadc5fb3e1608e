//! Error types for configuration loading and the wider application.

use vstd::prelude::*;

verus! {

/// The configuration field a value was destined for.
#[derive(Clone, Copy, Debug, PartialEq, Eq, Structural)]
pub enum ConfigKey {
    LogLevel,
    OutputFormat,
    Color,
    WorkspaceRoot,
}

/// Why a configuration load failed.
#[derive(Clone, Debug, PartialEq)]
pub enum ConfigError {
    /// The requested configuration file does not exist.
    NotFound { path: String },
    /// The file extension is not one of the recognized formats.
    UnsupportedFormat { path: String },
    /// The file content is malformed for its format.
    ParseError { path: String },
    /// A recognized field holds a value outside its domain.
    InvalidValue { key: ConfigKey },
    /// The file-watch subscription could not be established.
    WatchSetup { message: String },
}

/// The mathematical shape of a `ConfigError`, with strings as character sequences.
pub ghost enum ConfigErrorView {
    NotFound { path: Seq<char> },
    UnsupportedFormat { path: Seq<char> },
    ParseError { path: Seq<char> },
    InvalidValue { key: ConfigKey },
    WatchSetup { message: Seq<char> },
}

impl View for ConfigError {
    type V = ConfigErrorView;

    open spec fn view(&self) -> ConfigErrorView {
        match self {
            ConfigError::NotFound { path } => ConfigErrorView::NotFound { path: path@ },
            ConfigError::UnsupportedFormat { path } => ConfigErrorView::UnsupportedFormat {
                path: path@,
            },
            ConfigError::ParseError { path } => ConfigErrorView::ParseError { path: path@ },
            ConfigError::InvalidValue { key } => ConfigErrorView::InvalidValue { key: *key },
            ConfigError::WatchSetup { message } => ConfigErrorView::WatchSetup {
                message: message@,
            },
        }
    }
}

/// The user-facing description of an error.
pub open spec fn spec_error_message(e: ConfigErrorView) -> Seq<char> {
    match e {
        ConfigErrorView::NotFound { path } => "Configuration file not found: "@ + path,
        ConfigErrorView::UnsupportedFormat { path } => "Unsupported config file format: "@ + path,
        ConfigErrorView::ParseError { path } => "Failed to parse config file: "@ + path,
        ConfigErrorView::InvalidValue { key } => "Invalid value for config field: "@
            + spec_key_name(key),
        ConfigErrorView::WatchSetup { message } => "Failed to set up file watch: "@ + message,
    }
}

/// The canonical name of a configuration field.
pub open spec fn spec_key_name(key: ConfigKey) -> Seq<char> {
    match key {
        ConfigKey::LogLevel => "log_level"@,
        ConfigKey::OutputFormat => "output_format"@,
        ConfigKey::Color => "color"@,
        ConfigKey::WorkspaceRoot => "workspace_root"@,
    }
}

impl ConfigError {
    /// The user-facing description of this error.
    pub fn message(&self) -> (r: String)
        ensures
            r@ == spec_error_message(self@),
    {
        match self {
            ConfigError::NotFound { path } => {
                let mut m = String::from_str("Configuration file not found: ");
                m.append(path.as_str());
                m
            },
            ConfigError::UnsupportedFormat { path } => {
                let mut m = String::from_str("Unsupported config file format: ");
                m.append(path.as_str());
                m
            },
            ConfigError::ParseError { path } => {
                let mut m = String::from_str("Failed to parse config file: ");
                m.append(path.as_str());
                m
            },
            ConfigError::InvalidValue { key } => {
                let mut m = String::from_str("Invalid value for config field: ");
                m.append(key_name(*key));
                m
            },
            ConfigError::WatchSetup { message } => {
                let mut m = String::from_str("Failed to set up file watch: ");
                m.append(message.as_str());
                m
            },
        }
    }
}

/// The canonical name of a configuration field.
pub fn key_name(key: ConfigKey) -> (r: &'static str)
    ensures
        r@ == spec_key_name(key),
{
    match key {
        ConfigKey::LogLevel => "log_level",
        ConfigKey::OutputFormat => "output_format",
        ConfigKey::Color => "color",
        ConfigKey::WorkspaceRoot => "workspace_root",
    }
}

/// Application-level errors outside configuration loading.
#[derive(Clone, Debug, PartialEq)]
pub enum TramError {
    /// A configuration file was requested but does not exist.
    ConfigNotFound { path: String },
    /// A configuration or request was rejected; the message says why.
    InvalidConfig { message: String },
    /// No workspace root could be found.
    WorkspaceNotFound,
}

/// The mathematical shape of a `TramError`.
pub ghost enum TramErrorView {
    ConfigNotFound { path: Seq<char> },
    InvalidConfig { message: Seq<char> },
    WorkspaceNotFound,
}

impl View for TramError {
    type V = TramErrorView;

    open spec fn view(&self) -> TramErrorView {
        match self {
            TramError::ConfigNotFound { path } => TramErrorView::ConfigNotFound { path: path@ },
            TramError::InvalidConfig { message } => TramErrorView::InvalidConfig {
                message: message@,
            },
            TramError::WorkspaceNotFound => TramErrorView::WorkspaceNotFound,
        }
    }
}

/// The user-facing description of an application error.
pub open spec fn spec_tram_error_message(e: TramErrorView) -> Seq<char> {
    match e {
        TramErrorView::ConfigNotFound { path } => "Configuration file not found: "@ + path,
        TramErrorView::InvalidConfig { message } => "Invalid configuration: "@ + message,
        TramErrorView::WorkspaceNotFound => "Workspace not found"@,
    }
}

impl TramError {
    /// The user-facing description of this error.
    pub fn message(&self) -> (r: String)
        ensures
            r@ == spec_tram_error_message(self@),
    {
        match self {
            TramError::ConfigNotFound { path } => {
                let mut m = String::from_str("Configuration file not found: ");
                m.append(path.as_str());
                m
            },
            TramError::InvalidConfig { message } => {
                let mut m = String::from_str("Invalid configuration: ");
                m.append(message.as_str());
                m
            },
            TramError::WorkspaceNotFound => String::from_str("Workspace not found"),
        }
    }
}

} // verus!
