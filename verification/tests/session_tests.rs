//! Sessions, global-option conversion, type keywords, and the test helpers.

use tram::cli_test::CliTestRunner;
use tram::config::{CliOverrides, EnvOverrides, LogLevel, OutputFormat, TramConfig};
use tram::error::TramError;
use tram::mocks::{MockConfigBuilder, MockWorkspaceDetector};
use tram::project_init::InitProjectType;
use tram::session::{cli_overrides_from_global, ExampleType, GlobalOptions, TramSession};
use tram::template_gen::TemplateType;
use tram::utils::{
    parse_project_type, parse_template_type, project_type_display, template_type_display,
};
use tram::workspace::{ProjectType, WorkspaceDetector};

fn default_globals() -> GlobalOptions {
    GlobalOptions {
        log_level: "info".to_string(),
        format: "table".to_string(),
        no_color: false,
        config: None,
    }
}

#[test]
fn test_cli_overrides_defaults_pass_through() {
    let overrides = cli_overrides_from_global(&default_globals()).unwrap();
    assert_eq!(
        overrides,
        CliOverrides { log_level: None, output_format: None, color: None }
    );
}

#[test]
fn test_cli_overrides_explicit_values() {
    let mut g = default_globals();
    g.log_level = "Debug".to_string();
    g.format = "json".to_string();
    g.no_color = true;
    let overrides = cli_overrides_from_global(&g).unwrap();
    assert_eq!(overrides.log_level, Some(LogLevel::Debug));
    assert_eq!(overrides.output_format, Some(OutputFormat::Json));
    assert_eq!(overrides.color, Some(false));
}

#[test]
fn test_cli_overrides_invalid_values_rejected() {
    let mut g = default_globals();
    g.log_level = "loud".to_string();
    match cli_overrides_from_global(&g).unwrap_err() {
        TramError::InvalidConfig { message } => {
            assert_eq!(message.as_str(), "Invalid log level: loud");
        }
        other => panic!("unexpected error: {:?}", other),
    }

    let mut g = default_globals();
    g.format = "fancy".to_string();
    match cli_overrides_from_global(&g).unwrap_err() {
        TramError::InvalidConfig { message } => {
            assert_eq!(message.as_str(), "Invalid output format: fancy");
        }
        other => panic!("unexpected error: {:?}", other),
    }
}

#[test]
fn test_session_new_and_startup() {
    let workspace = WorkspaceDetector::from_dir("/repo/src".to_string());
    let mut session = TramSession::new(&EnvOverrides::unset(), workspace);
    assert_eq!(session.config, TramConfig::default());
    assert!(session.workspace_root.is_none());
    assert!(session.project_type.is_none());

    let existing = vec!["/repo/Cargo.toml".to_string()];
    session.startup(&existing);
    assert_eq!(session.workspace_root.as_deref(), Some("/repo"));
    assert_eq!(session.project_type, Some(ProjectType::Rust));
}

#[test]
fn test_session_startup_without_workspace() {
    let workspace = WorkspaceDetector::from_dir("/nowhere".to_string());
    let mut session = TramSession::with_config(TramConfig::default(), workspace);
    session.startup(&vec![]);
    assert!(session.workspace_root.is_none());
    assert!(session.project_type.is_none());
}

#[test]
fn test_example_type_keywords() {
    let all = [
        (ExampleType::BasicCommand, "basic-command"),
        (ExampleType::AsyncOperations, "async-operations"),
        (ExampleType::ConfigUsage, "config-usage"),
        (ExampleType::ProgressIndicators, "progress-indicators"),
        (ExampleType::InteractivePrompts, "interactive-prompts"),
        (ExampleType::FileOperations, "file-operations"),
    ];
    for (example, keyword) in all {
        assert_eq!(example.as_str(), keyword);
        assert_eq!(ExampleType::parse(keyword), Some(example));
    }
    assert_eq!(ExampleType::parse("unknown"), None);
}

#[test]
fn test_parse_project_type_keywords() {
    assert_eq!(parse_project_type("rust"), InitProjectType::Rust);
    assert_eq!(parse_project_type("RUST"), InitProjectType::Rust);
    assert_eq!(parse_project_type("nodejs"), InitProjectType::NodeJs);
    assert_eq!(parse_project_type("node"), InitProjectType::NodeJs);
    assert_eq!(parse_project_type("js"), InitProjectType::NodeJs);
    assert_eq!(parse_project_type("python"), InitProjectType::Python);
    assert_eq!(parse_project_type("py"), InitProjectType::Python);
    assert_eq!(parse_project_type("go"), InitProjectType::Go);
    assert_eq!(parse_project_type("java"), InitProjectType::Java);
    assert_eq!(parse_project_type("anything-else"), InitProjectType::Generic);
}

#[test]
fn test_project_type_display_names() {
    assert_eq!(project_type_display(&InitProjectType::Rust), "Rust");
    assert_eq!(project_type_display(&InitProjectType::NodeJs), "Node.js");
    assert_eq!(project_type_display(&InitProjectType::Python), "Python");
    assert_eq!(project_type_display(&InitProjectType::Go), "Go");
    assert_eq!(project_type_display(&InitProjectType::Java), "Java");
    assert_eq!(project_type_display(&InitProjectType::Generic), "Generic");
}

#[test]
fn test_parse_template_type_keywords() {
    assert_eq!(parse_template_type("command"), TemplateType::Command);
    assert_eq!(parse_template_type("cmd"), TemplateType::Command);
    assert_eq!(parse_template_type("config-section"), TemplateType::ConfigSection);
    assert_eq!(parse_template_type("config"), TemplateType::ConfigSection);
    assert_eq!(parse_template_type("error-type"), TemplateType::ErrorType);
    assert_eq!(parse_template_type("error"), TemplateType::ErrorType);
    assert_eq!(parse_template_type("session-extension"), TemplateType::SessionExtension);
    assert_eq!(parse_template_type("session"), TemplateType::SessionExtension);
    assert_eq!(parse_template_type("mystery"), TemplateType::Command);
}

#[test]
fn test_template_type_display_names() {
    assert_eq!(template_type_display(&TemplateType::Command), "Command");
    assert_eq!(template_type_display(&TemplateType::ConfigSection), "Config Section");
    assert_eq!(template_type_display(&TemplateType::ErrorType), "Error Type");
    assert_eq!(
        template_type_display(&TemplateType::SessionExtension),
        "Session Extension"
    );
}

#[test]
fn test_mock_config_builder() {
    let config = MockConfigBuilder::new().build();
    assert_eq!(config, TramConfig::default());

    let config = MockConfigBuilder::new()
        .log_level(LogLevel::Error)
        .output_format(OutputFormat::Yaml)
        .color(false)
        .workspace_root("/mock/root".to_string())
        .build();
    assert_eq!(config.log_level, LogLevel::Error);
    assert_eq!(config.output_format, OutputFormat::Yaml);
    assert!(!config.color);
    assert_eq!(config.workspace_root.as_deref(), Some("/mock/root"));
}

#[test]
fn test_mock_workspace_detector() {
    let detector = MockWorkspaceDetector::new();
    assert_eq!(detector.detect_root().unwrap_err(), TramError::WorkspaceNotFound);
    assert!(detector.get_project_type().is_none());

    let detector = MockWorkspaceDetector::new()
        .with_root("/canned".to_string())
        .with_project_type(ProjectType::Go);
    assert_eq!(detector.detect_root().unwrap().as_str(), "/canned");
    assert_eq!(detector.get_project_type(), Some(&ProjectType::Go));
}

#[test]
fn test_cli_test_runner_builder() {
    let runner = CliTestRunner::new("tram".to_string())
        .arg("config".to_string())
        .args(vec!["--log-level".to_string(), "debug".to_string()])
        .env("TRAM_COLOR".to_string(), "false".to_string())
        .current_dir("/work".to_string());
    assert_eq!(runner.command_str().as_str(), "tram");
    assert_eq!(
        runner.args_list(),
        &vec!["config".to_string(), "--log-level".to_string(), "debug".to_string()]
    );
    assert_eq!(
        runner.env_list(),
        &vec![("TRAM_COLOR".to_string(), "false".to_string())]
    );
    assert_eq!(runner.current_dir_opt().as_deref(), Some("/work"));
}
