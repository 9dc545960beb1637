use milk_lib::errors::MilkError;

#[test]
fn test_error_user_messages() {
    let err = MilkError::InvalidPath("/some/path".to_string());
    assert!(err.user_message().contains("can't find that path"));

    let err = MilkError::DiskFull("config".to_string());
    assert!(err.user_message().contains("disk is full"));

    let err = MilkError::AuthenticationFailed("Spotify".to_string());
    assert!(err.user_message().contains("Authentication failed"));
}

#[test]
fn error_tests_test_error_categories() {
    let err = MilkError::InvalidPath("/some/path".to_string());
    assert_eq!(err.category(), "FileSystem");

    let err = MilkError::NetworkTimeout("Spotify".to_string());
    assert_eq!(err.category(), "Network");

    let err = MilkError::UnsupportedFormat("ogg".to_string());
    assert_eq!(err.category(), "Playback");
}

#[test]
fn test_error_criticality() {
    let critical = MilkError::DiskFull("config".to_string());
    assert!(critical.is_critical());

    let non_critical = MilkError::MetadataError("parse failed".to_string());
    assert!(!non_critical.is_critical());
}

#[test]
fn test_error_recoverability() {
    let recoverable = MilkError::NetworkTimeout("API".to_string());
    assert!(recoverable.is_recoverable());

    let non_recoverable = MilkError::DiskFull("config".to_string());
    assert!(!non_recoverable.is_recoverable());
}

#[test]
fn test_error_text_formats() {
    let err = MilkError::NetworkTimeout("test".to_string());
    assert_eq!(err.error_text(), "Network timeout: test");

    let err = MilkError::RateLimitExceeded;
    assert_eq!(err.error_text(), "API rate limit exceeded");

    let err = MilkError::Internal("boom".to_string());
    assert_eq!(err.error_text(), "Internal error: boom");
}

#[test]
fn test_error_mappings_total() {
    let e = MilkError::from_config_error(milk_lib::config::ConfigError::InvalidPath);
    assert!(matches!(e, MilkError::InvalidPath(_)));
    assert_eq!(e.category(), "FileSystem");

    let e = MilkError::from_metadata_error(milk_lib::metadata::MetadataError::UnsupportedFormat);
    assert!(matches!(e, MilkError::UnsupportedFormat(_)));

    let e = MilkError::from_scan_error(milk_lib::library::ScanError::InvalidPath);
    assert!(matches!(e, MilkError::InvalidPath(_)));

    let e =
        MilkError::from_skin_error(milk_lib::skin::SkinError::MissingAsset("main.bmp".to_string()));
    assert!(matches!(e, MilkError::MissingSkinAssets(_)));

    let e = MilkError::from_playlist_error(milk_lib::playlist::PlaylistError::NotFound(
        "p1".to_string(),
    ));
    assert!(matches!(e, MilkError::PlaylistNotFound(_)));

    let e = MilkError::from_storage_error(milk_lib::crypto::StorageError::DecryptionError(
        "bad tag".to_string(),
    ));
    match e {
        MilkError::SecureStorageError(m) => assert_eq!(m, "Decryption error: bad tag"),
        other => panic!("expected a storage error, got {:?}", other),
    }
}
