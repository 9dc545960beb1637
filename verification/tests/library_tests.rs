use milk_lib::errors::MilkError;
use milk_lib::library::LibraryScanner;
use milk_lib::metadata::TrackMetadata;

#[test]
fn test_is_supported_extension() {
    assert!(LibraryScanner::is_supported_extension("mp3"));
    assert!(LibraryScanner::is_supported_extension("MP3"));
    assert!(LibraryScanner::is_supported_extension("flac"));
    assert!(LibraryScanner::is_supported_extension("wav"));
    assert!(!LibraryScanner::is_supported_extension("jpg"));
    assert!(!LibraryScanner::is_supported_extension("txt"));
}

#[test]
fn test_validate_audio_format() {
    assert!(LibraryScanner::validate_audio_format(Some("mp3"), true).is_ok());
    assert!(matches!(
        LibraryScanner::validate_audio_format(None, true),
        Err(MilkError::UnsupportedFormat(_))
    ));
    match LibraryScanner::validate_audio_format(Some("ogg"), true) {
        Err(MilkError::UnsupportedFormat(ext)) => assert_eq!(ext, "ogg"),
        other => panic!("expected an unsupported format, got {:?}", other),
    }
    assert!(matches!(
        LibraryScanner::validate_audio_format(Some("wav"), false),
        Err(MilkError::DecodeError(_))
    ));
}

#[test]
fn test_metadata_completeness() {
    let empty = TrackMetadata {
        title: None,
        artist: None,
        album: None,
        year: None,
        genre: None,
        track_number: None,
        duration: None,
    };
    assert!(empty.is_empty());
    assert!(!empty.is_complete());

    let full = TrackMetadata {
        title: Some("t".to_string()),
        artist: Some("a".to_string()),
        album: Some("b".to_string()),
        year: Some(2001),
        genre: Some("g".to_string()),
        track_number: Some(1),
        duration: None,
    };
    assert!(full.is_complete());
    assert!(!full.is_empty());
}
