use esp_hal::logger::{max_level_from_env, EspLogger, LogLevel};

#[test]
fn level_names_ignore_ascii_case() {
    assert_eq!(max_level_from_env(None), None);
    assert_eq!(max_level_from_env(Some("debug")), Some(LogLevel::Debug));
    assert_eq!(max_level_from_env(Some("WaRn")), Some(LogLevel::Warn));
    assert_eq!(max_level_from_env(Some("TRACE")), Some(LogLevel::Trace));
    assert_eq!(max_level_from_env(Some("off")), Some(LogLevel::Off));
    assert_eq!(max_level_from_env(Some("Error")), Some(LogLevel::Error));
    assert_eq!(max_level_from_env(Some("info")), Some(LogLevel::Info));
}

#[test]
fn unknown_level_turns_logging_off() {
    assert_eq!(max_level_from_env(Some("verbose")), Some(LogLevel::Off));
    assert_eq!(max_level_from_env(Some("")), Some(LogLevel::Off));
    assert_eq!(max_level_from_env(Some("infos")), Some(LogLevel::Off));
}

#[test]
fn targets_filter_by_prefix() {
    let logger = EspLogger;
    assert!(logger.enabled());
    assert!(logger.log(None, "anything"));
    assert!(logger.log(Some("esp_hal,app"), "esp_hal::uart"));
    assert!(logger.log(Some("esp_hal,app"), "app"));
    assert!(!logger.log(Some("esp_hal,app"), "other"));
    assert!(!logger.log(Some("esp_wifi"), "esp"));
    assert!(logger.log(Some("esp"), "esp_wifi"));
}

#[test]
fn empty_targets_let_everything_through() {
    let logger = EspLogger;
    assert!(logger.log(Some(""), "x"));
    assert!(logger.log(Some("a,,b"), "zzz"));
    assert!(logger.log(Some("a,"), "zzz"));
}
