use milk_lib::logging::{LogLevel, LoggerConfig};

#[test]
fn test_log_levels() {
    assert!(LogLevel::Error < LogLevel::Warn);
    assert!(LogLevel::Warn < LogLevel::Info);
}

#[test]
fn test_log_level_strings() {
    assert_eq!(LogLevel::Error.as_str(), "ERROR");
    assert_eq!(LogLevel::Warn.as_str(), "WARN");
    assert_eq!(LogLevel::Info.as_str(), "INFO");
}

#[test]
fn test_logger_config_default() {
    let config = LoggerConfig::default();
    assert_eq!(config.max_file_size, 10 * 1024 * 1024);
    assert_eq!(config.max_files, 5);
    assert_eq!(config.min_level, LogLevel::Info);
}
