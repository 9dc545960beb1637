use milk_lib::errors::MilkError;
use milk_lib::retry::{run_retry, ConfigRecovery, ErrorRecovery, RetryStep};

#[test]
fn test_recovery_suggestions() {
    let network_error = MilkError::NetworkTimeout("test".to_string());
    let suggestion = ErrorRecovery::get_recovery_suggestion(&network_error);
    assert!(suggestion.contains("internet"));

    let auth_error = MilkError::AuthenticationFailed("test".to_string());
    let suggestion = ErrorRecovery::get_recovery_suggestion(&auth_error);
    assert!(suggestion.contains("log in"));

    let path_error = MilkError::InvalidPath("test".to_string());
    let suggestion = ErrorRecovery::get_recovery_suggestion(&path_error);
    assert!(suggestion.contains("directory"));
}

#[test]
fn test_config_error_recovery() {
    // A scrambled configuration is recovered by falling back to the default;
    // the application performs the actual rewrite.
    let corrupted = MilkError::ConfigParseError("test".to_string());
    assert_eq!(
        ErrorRecovery::config_recovery_action(&corrupted),
        ConfigRecovery::UseDefault
    );
}

#[test]
fn test_config_recovery_refuses_other_errors() {
    let other = MilkError::NetworkTimeout("test".to_string());
    assert_eq!(ErrorRecovery::config_recovery_action(&other), ConfigRecovery::Fail);
}

#[test]
fn test_retry_with_backoff_success() {
    // Fails twice with a recoverable error, then succeeds: the success is
    // returned after waits of exactly 1000ms and 2000ms.
    let outcomes = vec![
        Err(MilkError::NetworkTimeout("test".to_string())),
        Err(MilkError::NetworkTimeout("test".to_string())),
        Ok("success".to_string()),
    ];
    let (result, delays) = run_retry(outcomes);
    assert_eq!(result.unwrap(), "success");
    assert_eq!(delays, vec![1000, 2000]);
}

#[test]
fn test_retry_with_backoff_non_recoverable() {
    // A non-recoverable error stops the schedule at once, with no delay.
    let outcomes = vec![
        Err(MilkError::AudioDeviceUnavailable),
        Ok("never reached".to_string()),
        Ok("never reached".to_string()),
    ];
    let (result, delays) = run_retry(outcomes);
    assert!(matches!(result, Err(MilkError::AudioDeviceUnavailable)));
    assert!(delays.is_empty());
}

#[test]
fn test_retry_exhaustion_wraps_last_error() {
    let outcomes = vec![
        Err(MilkError::NetworkTimeout("a".to_string())),
        Err(MilkError::NetworkTimeout("b".to_string())),
        Err(MilkError::NetworkTimeout("c".to_string())),
    ];
    let (result, delays) = run_retry(outcomes);
    match result {
        Err(MilkError::Internal(m)) => assert_eq!(m, "Network timeout: c"),
        other => panic!("expected a terminal internal failure, got {:?}", other),
    }
    assert_eq!(delays, vec![1000, 2000]);
}

#[test]
fn test_retry_step_decisions() {
    assert!(matches!(milk_lib::retry::retry_step(1, false), RetryStep::Abort));
    assert!(matches!(milk_lib::retry::retry_step(1, true), RetryStep::RetryAfter(1000)));
    assert!(matches!(milk_lib::retry::retry_step(2, true), RetryStep::RetryAfter(2000)));
    assert!(matches!(milk_lib::retry::retry_step(3, true), RetryStep::GiveUp));
}

#[test]
fn test_rate_limit_wait() {
    assert_eq!(milk_lib::retry::rate_limit_wait_ms(), 60000);
}
