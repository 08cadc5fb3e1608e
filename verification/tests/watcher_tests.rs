//! Hot-reload behavior: relevance of events, last-known-good on failure,
//! snapshot replacement on success, and idempotent stop.

use tram::config::{EnvOverrides, LogLevel, OutputFormat, TramConfig};
use tram::error::ConfigError;
use tram::watcher::{ConfigWatcher, FileEventKind, ReloadOutcome, WatchConfigHandler};

fn watcher_on(path: &str) -> ConfigWatcher {
    ConfigWatcher::new(TramConfig::default(), Some(vec![path.to_string()]))
}

#[test]
fn test_watcher_holds_initial_config() {
    let mut initial = TramConfig::default();
    initial.log_level = LogLevel::Warn;
    let watcher = ConfigWatcher::new(initial.clone(), None);
    assert_eq!(watcher.get_config(), initial);
    // With no explicit paths, the conventional candidates are watched.
    assert_eq!(watcher.watch_paths().len(), 8);
    assert_eq!(watcher.watch_paths()[0], "tram.json");
    assert_eq!(watcher.watch_paths()[7], ".tram.toml");
}

#[test]
fn test_failed_reload_keeps_last_known_good() {
    let mut watcher = watcher_on("tram.json");
    let mut handler = WatchConfigHandler::new();
    let before = watcher.get_config();

    let outcome = watcher.handle_file_event_with_handler(
        FileEventKind::ContentModify,
        "tram.json",
        Some("{ this is not json"),
        &EnvOverrides::unset(),
        &mut handler,
    );

    assert!(matches!(outcome, ReloadOutcome::Failed(_)));
    // The previous snapshot is still served.
    assert_eq!(watcher.get_config(), before);
    // The error branch ran exactly once, with a parse-class failure.
    assert_eq!(handler.error_count, 1);
    assert_eq!(handler.reload_count, 0);
    assert!(matches!(
        handler.last_error,
        Some(ConfigError::ParseError { .. })
    ));
}

#[test]
fn test_successful_reload_replaces_snapshot() {
    let mut watcher = watcher_on("tram.json");
    let mut handler = WatchConfigHandler::new();

    let outcome = watcher.handle_file_event_with_handler(
        FileEventKind::ContentModify,
        "tram.json",
        Some(r#"{"log_level": "error"}"#),
        &EnvOverrides::unset(),
        &mut handler,
    );

    assert_eq!(outcome, ReloadOutcome::Reloaded);
    assert_eq!(watcher.get_config().log_level, LogLevel::Error);
    // The success branch ran exactly once, with the new store.
    assert_eq!(handler.reload_count, 1);
    assert_eq!(handler.error_count, 0);
    assert_eq!(
        handler.last_config.as_ref().map(|c| c.log_level),
        Some(LogLevel::Error)
    );
}

#[test]
fn test_irrelevant_events_ignored() {
    let mut watcher = watcher_on("tram.json");
    let mut handler = WatchConfigHandler::new();
    let before = watcher.get_config();
    let env = EnvOverrides::unset();
    let content = r#"{"log_level": "error"}"#;

    // A path outside the watch set is ignored.
    let outcome = watcher.handle_file_event_with_handler(
        FileEventKind::ContentModify,
        "other.json",
        Some(content),
        &env,
        &mut handler,
    );
    assert_eq!(outcome, ReloadOutcome::Ignored);

    // Removals, renames and metadata-only changes are ignored.
    for kind in [
        FileEventKind::Remove,
        FileEventKind::Rename,
        FileEventKind::MetadataModify,
        FileEventKind::Other,
    ] {
        let outcome = watcher.handle_file_event_with_handler(kind, "tram.json", Some(content), &env, &mut handler);
        assert_eq!(outcome, ReloadOutcome::Ignored);
    }

    assert_eq!(watcher.get_config(), before);
    assert_eq!(handler.reload_count, 0);
    assert_eq!(handler.error_count, 0);
}

#[test]
fn test_create_event_triggers_reload() {
    let mut watcher = watcher_on("tram.yaml");
    let mut handler = WatchConfigHandler::new();
    let outcome = watcher.handle_file_event_with_handler(
        FileEventKind::Create,
        "tram.yaml",
        Some("outputFormat: json\n"),
        &EnvOverrides::unset(),
        &mut handler,
    );
    assert_eq!(outcome, ReloadOutcome::Reloaded);
    assert_eq!(watcher.get_config().output_format, OutputFormat::Json);
}

#[test]
fn test_missing_file_on_reload_reports_not_found() {
    let mut watcher = watcher_on("tram.json");
    let mut handler = WatchConfigHandler::new();
    let before = watcher.get_config();
    let outcome = watcher.handle_file_event_with_handler(
        FileEventKind::ContentModify,
        "tram.json",
        None,
        &EnvOverrides::unset(),
        &mut handler,
    );
    assert!(matches!(outcome, ReloadOutcome::Failed(_)));
    assert_eq!(watcher.get_config(), before);
    assert!(matches!(
        handler.last_error,
        Some(ConfigError::NotFound { .. })
    ));
}

#[test]
fn test_stop_is_idempotent() {
    let mut watcher = watcher_on("tram.json");
    assert!(!watcher.is_stopped());
    watcher.stop();
    assert!(watcher.is_stopped());
    // A second stop does not panic and leaves the watcher stopped.
    watcher.stop();
    assert!(watcher.is_stopped());
    // The snapshot survives a stop.
    assert_eq!(watcher.get_config(), TramConfig::default());
}

#[test]
fn test_reload_applies_environment_on_top() {
    // A reload resolves the file under the current environment, so the
    // environment still outranks the file after hot reload.
    let mut watcher = watcher_on("tram.json");
    let mut handler = WatchConfigHandler::new();
    let env = EnvOverrides {
        log_level: Some("warn".to_string()),
        output_format: None,
        color: None,
        workspace_root: None,
    };
    watcher.handle_file_event_with_handler(
        FileEventKind::ContentModify,
        "tram.json",
        Some(r#"{"log_level": "debug", "color": false}"#),
        &env,
        &mut handler,
    );
    let config = watcher.get_config();
    assert_eq!(config.log_level, LogLevel::Warn);
    assert!(!config.color);
}
