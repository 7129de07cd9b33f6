use clamber_core::tracing_logs::log_file_plan;
use clamber_core::{LogConfig, LogLevel};

#[test]
fn test_log_file_plan() {
    let (dir, info, error) = log_file_plan("svc", None);
    assert_eq!(dir, "logs");
    assert_eq!(info, "svc-info.log");
    assert_eq!(error, "svc-error.log");

    let (dir, info, error) = log_file_plan("gateway", Some("api"));
    assert_eq!(dir, "logs/api");
    assert_eq!(info, "gateway-info.log");
    assert_eq!(error, "gateway-error.log");
}

#[test]
fn test_log_config_defaults() {
    let config = LogConfig::new();
    assert_eq!(config.time_format, "%Y-%m-%d %H:%M:%S");
    assert!(config.enable_ansi);
    assert!(!config.show_target);
    assert!(!config.show_thread_ids);
    assert!(config.compact_format);
    assert_eq!(config.console_level, LogLevel::Info);
    assert_eq!(config.file_level, LogLevel::Info);
}

#[test]
fn test_log_config_builders() {
    let config = LogConfig::new()
        .time_format("%H:%M:%S")
        .ansi(false)
        .target(true)
        .thread_ids(true)
        .compact(false)
        .console_level(LogLevel::Debug)
        .file_level(LogLevel::Error);
    assert_eq!(config.time_format, "%H:%M:%S");
    assert!(!config.enable_ansi);
    assert!(config.show_target);
    assert!(config.show_thread_ids);
    assert!(!config.compact_format);
    assert_eq!(config.console_level, LogLevel::Debug);
    assert_eq!(config.file_level, LogLevel::Error);
}
