//! Loading and precedence behavior of the configuration subsystem.

use tram::config::{
    apply_cli_overrides, apply_env_overrides, apply_file_fields, CliOverrides, EnvOverrides,
    FileFields, LogLevel, OutputFormat, TramConfig,
};
use tram::error::ConfigError;
use tram::loader::ConfigFile;

fn unset_env() -> EnvOverrides {
    EnvOverrides::unset()
}

#[test]
fn test_config_load_defaults() {
    let config = TramConfig::load(&unset_env());
    assert_eq!(config.log_level, LogLevel::Info);
    assert_eq!(config.output_format, OutputFormat::Table);
    assert!(config.color);
    assert!(config.workspace_root.is_none());
}

#[test]
fn test_config_load_from_json_file() {
    let config_content = r#"{
            "logLevel": "debug",
            "outputFormat": "json",
            "color": false
        }"#;
    let config =
        TramConfig::load_from_file("test-config.json", Some(config_content), &unset_env()).unwrap();
    assert_eq!(config.log_level, LogLevel::Debug);
    assert_eq!(config.output_format, OutputFormat::Json);
    assert!(!config.color);
}

#[test]
fn test_config_load_from_yaml_file() {
    let config_content = "\nlogLevel: warn\noutputFormat: yaml\ncolor: false\n";
    let config =
        TramConfig::load_from_file("test-config.yaml", Some(config_content), &unset_env()).unwrap();
    assert_eq!(config.log_level, LogLevel::Warn);
    assert_eq!(config.output_format, OutputFormat::Yaml);
    assert!(!config.color);
}

#[test]
fn test_config_load_from_toml_file() {
    let config_content = "\nlogLevel = \"error\"\noutputFormat = \"table\"\ncolor = true\n";
    let config =
        TramConfig::load_from_file("test-config.toml", Some(config_content), &unset_env()).unwrap();
    assert_eq!(config.log_level, LogLevel::Error);
    assert_eq!(config.output_format, OutputFormat::Table);
    assert!(config.color);
}

#[test]
fn test_unsupported_file_format() {
    let result = TramConfig::load_from_file("test-config.txt", Some("some content"), &unset_env());
    assert!(result.is_err());
    assert!(result
        .unwrap_err()
        .message()
        .contains("Unsupported config file format"));
}

#[test]
fn test_unsupported_format_never_parses_content() {
    // Even well-formed JSON behind a .txt extension is rejected as an
    // unsupported format: the extension decides before the content.
    let good_json = r#"{"logLevel": "debug"}"#;
    let result = TramConfig::load_from_file("config.txt", Some(good_json), &unset_env());
    match result {
        Err(ConfigError::UnsupportedFormat { path }) => assert_eq!(path, "config.txt"),
        other => panic!("expected UnsupportedFormat, got {:?}", other),
    }
    // A missing file with an unsupported extension reports the format too.
    let result = TramConfig::load_from_file("config.txt", None, &unset_env());
    assert!(matches!(result, Err(ConfigError::UnsupportedFormat { .. })));
}

#[test]
fn test_environment_variables() {
    let env = EnvOverrides {
        log_level: Some("debug".to_string()),
        output_format: Some("json".to_string()),
        color: Some("false".to_string()),
        workspace_root: None,
    };
    let config = TramConfig::load(&env);
    assert_eq!(config.log_level, LogLevel::Debug);
    assert_eq!(config.output_format, OutputFormat::Json);
    assert!(!config.color);
}

#[test]
fn test_config_enum_display() {
    assert_eq!(LogLevel::Debug.as_str(), "debug");
    assert_eq!(LogLevel::Info.as_str(), "info");
    assert_eq!(LogLevel::Warn.as_str(), "warn");
    assert_eq!(LogLevel::Error.as_str(), "error");
    assert_eq!(OutputFormat::Json.as_str(), "json");
    assert_eq!(OutputFormat::Yaml.as_str(), "yaml");
    assert_eq!(OutputFormat::Table.as_str(), "table");
}

#[test]
fn test_load_from_common_paths_no_config() {
    let config = TramConfig::load_from_common_paths(&vec![], &unset_env()).unwrap();
    assert_eq!(config.log_level, LogLevel::Info);
    assert_eq!(config.output_format, OutputFormat::Table);
    assert!(config.color);
}

#[test]
fn test_load_from_common_paths_with_config() {
    let config_content = r#"{
            "logLevel": "debug",
            "outputFormat": "json",
            "color": false
        }"#;
    let files = vec![ConfigFile {
        path: "tram.json".to_string(),
        content: config_content.to_string(),
    }];
    let config = TramConfig::load_from_common_paths(&files, &unset_env()).unwrap();
    assert_eq!(config.log_level, LogLevel::Debug);
    assert_eq!(config.output_format, OutputFormat::Json);
    assert!(!config.color);
}

#[test]
fn test_file_and_env_var_merging() {
    let config_content = r#"{
            "logLevel": "debug",
            "outputFormat": "json"
        }"#;
    let env = EnvOverrides {
        log_level: Some("error".to_string()),
        output_format: None,
        color: None,
        workspace_root: None,
    };
    let config = TramConfig::load_from_file("test-config.json", Some(config_content), &env).unwrap();
    // Env var should override file value
    assert_eq!(config.log_level, LogLevel::Error);
    // File value should be used where env var not set
    assert_eq!(config.output_format, OutputFormat::Json);
    // Default should be used where neither file nor env var set
    assert!(config.color);
}

#[test]
fn test_precedence_cli_over_env_over_file() {
    // All four sources set the same fields; the CLI value wins everywhere.
    let file = FileFields {
        log_level: Some(LogLevel::Debug),
        output_format: Some(OutputFormat::Json),
        color: Some(false),
        workspace_root: Some("/from-file".to_string()),
    };
    let env = EnvOverrides {
        log_level: Some("warn".to_string()),
        output_format: Some("yaml".to_string()),
        color: Some("true".to_string()),
        workspace_root: Some("/from-env".to_string()),
    };
    let cli = CliOverrides {
        log_level: Some(LogLevel::Error),
        output_format: Some(OutputFormat::Table),
        color: Some(false),
    };
    let resolved = apply_cli_overrides(
        &apply_env_overrides(&apply_file_fields(&TramConfig::default(), &file), &env),
        &cli,
    );
    assert_eq!(resolved.log_level, LogLevel::Error);
    assert_eq!(resolved.output_format, OutputFormat::Table);
    assert!(!resolved.color);
    assert_eq!(resolved.workspace_root, Some("/from-env".to_string()));

    // Without the CLI, the environment wins.
    let resolved =
        apply_env_overrides(&apply_file_fields(&TramConfig::default(), &file), &env);
    assert_eq!(resolved.log_level, LogLevel::Warn);
    assert_eq!(resolved.output_format, OutputFormat::Yaml);
    assert!(resolved.color);

    // Without the CLI and the environment, the file wins over the defaults.
    let resolved = apply_file_fields(&TramConfig::default(), &file);
    assert_eq!(resolved.log_level, LogLevel::Debug);
    assert_eq!(resolved.output_format, OutputFormat::Json);
    assert!(!resolved.color);
    assert_eq!(resolved.workspace_root, Some("/from-file".to_string()));
}

#[test]
fn test_load_idempotent() {
    // Loading the same content twice yields identical snapshots.
    let content = r#"{"logLevel": "warn", "color": false}"#;
    let a = TramConfig::load_from_file("tram.json", Some(content), &unset_env()).unwrap();
    let b = TramConfig::load_from_file("tram.json", Some(content), &unset_env()).unwrap();
    assert_eq!(a, b);
}

#[test]
fn test_env_invalid_value_ignored() {
    // An unparseable environment value leaves the field at its prior value.
    let env = EnvOverrides {
        log_level: Some("loud".to_string()),
        output_format: Some("fancy".to_string()),
        color: Some("maybe".to_string()),
        workspace_root: None,
    };
    let config = TramConfig::load(&env);
    assert_eq!(config.log_level, LogLevel::Info);
    assert_eq!(config.output_format, OutputFormat::Table);
    assert!(config.color);

    // The same leniency holds over a file value.
    let content = r#"{"color": false}"#;
    let env = EnvOverrides {
        log_level: None,
        output_format: None,
        color: Some("maybe".to_string()),
        workspace_root: None,
    };
    let config = TramConfig::load_from_file("tram.json", Some(content), &env).unwrap();
    assert!(!config.color);
}

#[test]
fn test_end_to_end_common_paths() {
    // The first conventional file decides; snake_case keys are accepted.
    let files = vec![ConfigFile {
        path: "tram.json".to_string(),
        content: r#"{"log_level":"debug","output_format":"json"}"#.to_string(),
    }];
    let config = TramConfig::load_from_common_paths(&files, &unset_env()).unwrap();
    assert_eq!(config.log_level, LogLevel::Debug);
    assert_eq!(config.output_format, OutputFormat::Json);
    assert!(config.color);
    assert!(config.workspace_root.is_none());
}

#[test]
fn test_error_variants_and_messages() {
    let env = unset_env();
    let not_found = TramConfig::load_from_file("tram.json", None, &env).unwrap_err();
    assert!(matches!(not_found, ConfigError::NotFound { .. }));
    assert_eq!(not_found.message(), "Configuration file not found: tram.json");

    let parse_error = TramConfig::load_from_file("tram.json", Some("{ oops"), &env).unwrap_err();
    assert!(matches!(parse_error, ConfigError::ParseError { .. }));
    assert_eq!(parse_error.message(), "Failed to parse config file: tram.json");

    let invalid =
        TramConfig::load_from_file("tram.json", Some(r#"{"logLevel": "banana"}"#), &env)
            .unwrap_err();
    assert!(matches!(
        invalid,
        ConfigError::InvalidValue {
            key: tram::error::ConfigKey::LogLevel
        }
    ));
    assert_eq!(invalid.message(), "Invalid value for config field: log_level");

    let unsupported = TramConfig::load_from_file("tram.ini", Some(""), &env).unwrap_err();
    assert_eq!(
        unsupported.message(),
        "Unsupported config file format: tram.ini"
    );

    let watch = ConfigError::WatchSetup {
        message: "permission denied".to_string(),
    };
    assert_eq!(
        watch.message(),
        "Failed to set up file watch: permission denied"
    );
}

#[test]
fn test_load_defaults() {
    let config = TramConfig::load_defaults();
    assert_eq!(config, TramConfig::default());
    assert_eq!(config.log_level, LogLevel::Info);
    assert_eq!(config.output_format, OutputFormat::Table);
    assert!(config.color);
    assert!(config.workspace_root.is_none());
}

#[test]
fn test_common_config_paths_order() {
    let paths = tram::loader::common_config_paths();
    assert_eq!(
        paths,
        vec![
            "tram.json".to_string(),
            "tram.yaml".to_string(),
            "tram.yml".to_string(),
            "tram.toml".to_string(),
            ".tram.json".to_string(),
            ".tram.yaml".to_string(),
            ".tram.yml".to_string(),
            ".tram.toml".to_string(),
        ]
    );
}

#[test]
fn test_workspace_root_from_sources() {
    let env = EnvOverrides {
        log_level: None,
        output_format: None,
        color: None,
        workspace_root: Some("/env/root".to_string()),
    };
    let config = TramConfig::load(&env);
    assert_eq!(config.workspace_root, Some("/env/root".to_string()));

    let content = r#"{"workspaceRoot": "/file/root"}"#;
    let config = TramConfig::load_from_file("tram.json", Some(content), &unset_env()).unwrap();
    assert_eq!(config.workspace_root, Some("/file/root".to_string()));
}
