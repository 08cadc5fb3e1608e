//! Behavior of the three format readers on edge cases.

use tram::config::{EnvOverrides, LogLevel, OutputFormat, TramConfig};
use tram::error::{ConfigError, ConfigKey};

fn load_json(content: &str) -> Result<TramConfig, ConfigError> {
    TramConfig::load_from_file("c.json", Some(content), &EnvOverrides::unset())
}

fn load_yaml(content: &str) -> Result<TramConfig, ConfigError> {
    TramConfig::load_from_file("c.yaml", Some(content), &EnvOverrides::unset())
}

fn load_toml(content: &str) -> Result<TramConfig, ConfigError> {
    TramConfig::load_from_file("c.toml", Some(content), &EnvOverrides::unset())
}

#[test]
fn test_json_empty_object_gives_defaults() {
    let config = load_json("{}").unwrap();
    assert_eq!(config.log_level, LogLevel::Info);
    assert_eq!(config.output_format, OutputFormat::Table);
    assert!(config.color);
    assert!(config.workspace_root.is_none());

    let config = load_json("  { }  ").unwrap();
    assert_eq!(config.log_level, LogLevel::Info);
}

#[test]
fn test_json_unknown_keys_ignored() {
    let config = load_json(r#"{"verbosity": 3, "theme": "dark", "color": false, "extra": null}"#)
        .unwrap();
    assert!(!config.color);
}

#[test]
fn test_json_duplicate_key_last_wins() {
    let config = load_json(r#"{"logLevel": "debug", "logLevel": "warn"}"#).unwrap();
    assert_eq!(config.log_level, LogLevel::Warn);
}

#[test]
fn test_json_null_leaves_field_unset() {
    let config = load_json(r#"{"logLevel": null, "workspaceRoot": null}"#).unwrap();
    assert_eq!(config.log_level, LogLevel::Info);
    assert!(config.workspace_root.is_none());
}

#[test]
fn test_json_string_escapes() {
    let config = load_json(r#"{"workspaceRoot": "C:\\work\/dir\n"}"#).unwrap();
    assert_eq!(config.workspace_root, Some("C:\\work/dir\n".to_string()));
}

#[test]
fn test_json_case_insensitive_values() {
    let config = load_json(r#"{"logLevel": "DEBUG", "outputFormat": "Json"}"#).unwrap();
    assert_eq!(config.log_level, LogLevel::Debug);
    assert_eq!(config.output_format, OutputFormat::Json);
}

#[test]
fn test_json_malformed_is_parse_error() {
    assert!(matches!(load_json(""), Err(ConfigError::ParseError { .. })));
    assert!(matches!(load_json("{"), Err(ConfigError::ParseError { .. })));
    assert!(matches!(
        load_json(r#"{"a": 1,}"#),
        Err(ConfigError::ParseError { .. })
    ));
    assert!(matches!(
        load_json(r#"{"logLevel": debugg}"#),
        Err(ConfigError::ParseError { .. })
    ));
    assert!(matches!(
        load_json(r#"{"a": 1} trailing"#),
        Err(ConfigError::ParseError { .. })
    ));
}

#[test]
fn test_json_wrong_type_is_invalid_value() {
    let err = load_json(r#"{"color": "false"}"#).unwrap_err();
    assert!(matches!(
        err,
        ConfigError::InvalidValue {
            key: ConfigKey::Color
        }
    ));
    let err = load_json(r#"{"outputFormat": true}"#).unwrap_err();
    assert!(matches!(
        err,
        ConfigError::InvalidValue {
            key: ConfigKey::OutputFormat
        }
    ));
    let err = load_json(r#"{"workspaceRoot": 7}"#).unwrap_err();
    assert!(matches!(
        err,
        ConfigError::InvalidValue {
            key: ConfigKey::WorkspaceRoot
        }
    ));
}

#[test]
fn test_yaml_comments_and_blank_lines() {
    let content = "# a comment\n\nlogLevel: debug\n\n# another\ncolor: false\n";
    let config = load_yaml(content).unwrap();
    assert_eq!(config.log_level, LogLevel::Debug);
    assert!(!config.color);
}

#[test]
fn test_yaml_comment_after_value() {
    let config = load_yaml("logLevel: warn # loud enough\n").unwrap();
    assert_eq!(config.log_level, LogLevel::Warn);
}

#[test]
fn test_yaml_quoted_values() {
    let config = load_yaml("logLevel: \"debug\"\nworkspaceRoot: '/my root'\n").unwrap();
    assert_eq!(config.log_level, LogLevel::Debug);
    assert_eq!(config.workspace_root, Some("/my root".to_string()));
}

#[test]
fn test_yaml_empty_and_null_values() {
    let config = load_yaml("logLevel:\nworkspaceRoot: null\ncolor: ~\n").unwrap();
    assert_eq!(config.log_level, LogLevel::Info);
    assert!(config.workspace_root.is_none());
    assert!(config.color);
}

#[test]
fn test_yaml_no_trailing_newline() {
    let config = load_yaml("outputFormat: yaml").unwrap();
    assert_eq!(config.output_format, OutputFormat::Yaml);
}

#[test]
fn test_yaml_crlf_line_endings() {
    let config = load_yaml("logLevel: error\r\ncolor: false\r\n").unwrap();
    assert_eq!(config.log_level, LogLevel::Error);
    assert!(!config.color);
}

#[test]
fn test_yaml_nested_content_rejected() {
    let err = load_yaml("section:\n  key: value\n").unwrap_err();
    assert!(matches!(err, ConfigError::ParseError { .. }));
    let err = load_yaml("just a scalar line\n").unwrap_err();
    assert!(matches!(err, ConfigError::ParseError { .. }));
}

#[test]
fn test_toml_comments_and_spacing() {
    let content = "# header\n  logLevel = \"warn\"   # quieter\ncolor = true\n";
    let config = load_toml(content).unwrap();
    assert_eq!(config.log_level, LogLevel::Warn);
    assert!(config.color);
}

#[test]
fn test_toml_literal_string() {
    let config = load_toml("workspaceRoot = '/srv/data'\n").unwrap();
    assert_eq!(config.workspace_root, Some("/srv/data".to_string()));
}

#[test]
fn test_toml_value_at_end_of_text() {
    let config = load_toml("color = false").unwrap();
    assert!(!config.color);
}

#[test]
fn test_toml_number_for_unknown_key() {
    let config = load_toml("retries = 3\nlogLevel = \"info\"\n").unwrap();
    assert_eq!(config.log_level, LogLevel::Info);
}

#[test]
fn test_toml_tables_rejected() {
    let err = load_toml("[section]\nkey = \"v\"\n").unwrap_err();
    assert!(matches!(err, ConfigError::ParseError { .. }));
}

#[test]
fn test_toml_unquoted_string_rejected() {
    let err = load_toml("logLevel = warnish\n").unwrap_err();
    assert!(matches!(err, ConfigError::ParseError { .. }));
}

#[test]
fn test_extension_inference() {
    let env = EnvOverrides::unset();
    // .yml is YAML.
    let config = TramConfig::load_from_file("a.yml", Some("logLevel: debug\n"), &env).unwrap();
    assert_eq!(config.log_level, LogLevel::Debug);
    // A dotted conventional name still has its real extension.
    let config =
        TramConfig::load_from_file(".tram.json", Some(r#"{"color": false}"#), &env).unwrap();
    assert!(!config.color);
    // No extension at all is unsupported.
    assert!(matches!(
        TramConfig::load_from_file("tramrc", Some("{}"), &env),
        Err(ConfigError::UnsupportedFormat { .. })
    ));
    // A hidden file whose only dot is the leading one has no extension.
    assert!(matches!(
        TramConfig::load_from_file(".tram", Some("{}"), &env),
        Err(ConfigError::UnsupportedFormat { .. })
    ));
    // The extension is taken from the final path component.
    assert!(matches!(
        TramConfig::load_from_file("dir.json/config", Some("{}"), &env),
        Err(ConfigError::UnsupportedFormat { .. })
    ));
}
