//! Template generation: rendering, validation, and target paths.

use tram::error::TramError;
use tram::template_gen::{to_pascal_case, TemplateConfig, TemplateGenerator, TemplateType};

fn template_config(
    name: &str,
    template_type: TemplateType,
    target_dir: &str,
    description: Option<&str>,
) -> TemplateConfig {
    let mut parameters = Vec::new();
    if let Some(d) = description {
        parameters.push(("description".to_string(), d.to_string()));
    }
    TemplateConfig {
        name: name.to_string(),
        template_type,
        target_dir: target_dir.to_string(),
        parameters,
    }
}

#[test]
fn test_generate_command_template() {
    let config = template_config(
        "backup",
        TemplateType::Command,
        "/work/proj",
        Some("Backup data command"),
    );
    let generator = TemplateGenerator::new().unwrap();
    let result = generator.generate_template(&config, true, false);

    assert!(result.is_ok(), "Should generate command template successfully");
    let template = result.unwrap();

    assert!(template.content.contains("BackupArgs"));
    assert!(template.content.contains("Backup data command"));
    assert!(template.content.contains("pub async fn execute"));
    assert!(template.content.contains("#[tokio::test]"));
}

#[test]
fn test_generate_config_section_template() {
    let config = template_config("database", TemplateType::ConfigSection, "/work/proj", None);
    let generator = TemplateGenerator::new().unwrap();
    let result = generator.generate_template(&config, true, false);

    assert!(result.is_ok(), "Should generate config section template successfully");
    let template = result.unwrap();

    assert!(template.content.contains("DatabaseConfig"));
    assert!(template.content.contains("pub fn validate"));
    assert!(template.content.contains("load_from_env"));
    assert!(template.content.contains("TRAM_DATABASE_"));
}

#[test]
fn test_generate_template_fails_with_empty_name() {
    let config = template_config("", TemplateType::Command, "/work/proj", None);
    let generator = TemplateGenerator::new().unwrap();
    let result = generator.generate_template(&config, true, false);

    assert!(result.is_err(), "Should fail with empty template name");
}

#[test]
fn test_generate_template_fails_with_nonexistent_directory() {
    let config = template_config("test", TemplateType::Command, "/nonexistent/directory", None);
    let generator = TemplateGenerator::new().unwrap();
    let result = generator.generate_template(&config, false, false);

    assert!(result.is_err(), "Should fail with nonexistent directory");
}

#[test]
fn test_to_pascal_case() {
    assert_eq!(to_pascal_case("hello"), "Hello");
    assert_eq!(to_pascal_case("hello-world"), "HelloWorld");
    assert_eq!(to_pascal_case("hello_world"), "HelloWorld");
    assert_eq!(to_pascal_case("backup-manager"), "BackupManager");
    assert_eq!(to_pascal_case(""), "");
}

#[test]
fn test_generate_template_refuses_existing_file() {
    let config = template_config("backup", TemplateType::Command, "/work/proj", None);
    let generator = TemplateGenerator::new().unwrap();
    let result = generator.generate_template(&config, true, true);
    match result {
        Err(TramError::InvalidConfig { message }) => {
            assert_eq!(
                message.as_str(),
                "File /work/proj/src/commands/backup.rs already exists"
            );
        }
        other => panic!("expected InvalidConfig, got {:?}", other),
    }
}

#[test]
fn test_determine_file_path_per_type() {
    let generator = TemplateGenerator::new().unwrap();
    let cases = [
        (TemplateType::Command, "/p/src/commands/x.rs"),
        (TemplateType::ConfigSection, "/p/src/config/x.rs"),
        (TemplateType::ErrorType, "/p/src/errors/x.rs"),
        (TemplateType::SessionExtension, "/p/src/session/x.rs"),
    ];
    for (t, expected) in cases {
        let config = template_config("x", t, "/p", None);
        assert_eq!(generator.determine_file_path(&config).as_str(), expected);
    }
}

#[test]
fn test_default_description_parameter() {
    let config = template_config("deploy", TemplateType::Command, "/p", None);
    let generator = TemplateGenerator::new().unwrap();
    let ctx = generator.build_template_context(&config);
    assert_eq!(ctx.description.as_str(), "deploy functionality");
    assert_eq!(ctx.name_pascal.as_str(), "Deploy");
    assert_eq!(ctx.name_upper.as_str(), "DEPLOY");

    let template = generator.generate_template(&config, true, false).unwrap();
    assert!(template.content.contains("deploy functionality"));
}

#[test]
fn test_template_name_and_upper_substitution() {
    let config = template_config("audit-log", TemplateType::ConfigSection, "/p", None);
    let generator = TemplateGenerator::new().unwrap();
    let template = generator.generate_template(&config, true, false).unwrap();
    assert!(template.content.contains("AuditLogConfig"));
    assert!(template.content.contains("TRAM_AUDIT-LOG_"));
    assert_eq!(template.file_path.as_str(), "/p/src/config/audit-log.rs");
    assert_eq!(template.name.as_str(), "audit-log");
    assert_eq!(template.template_type, TemplateType::ConfigSection);
}

#[test]
fn test_get_template_name() {
    let generator = TemplateGenerator::new().unwrap();
    assert_eq!(generator.get_template_name(&TemplateType::Command), "command");
    assert_eq!(generator.get_template_name(&TemplateType::ConfigSection), "config_section");
    assert_eq!(generator.get_template_name(&TemplateType::ErrorType), "error_type");
    assert_eq!(
        generator.get_template_name(&TemplateType::SessionExtension),
        "session_extension"
    );
}
