use milk_lib::json::JsonValue;
use milk_lib::service::{
    build_auth_code_params, build_refresh_params, classify_now_playing_status, parse_duration,
    parse_now_playing, parse_token_response, parse_video_metadata, NowPlayingStatus, TrackMetadata,
};
use milk_lib::token::{ApiError, Credentials};

#[test]
fn test_duration_parsing() {
    assert_eq!(parse_duration("PT4M13S").unwrap(), 253000);
    assert_eq!(parse_duration("PT1H2M3S").unwrap(), 3723000);
    assert_eq!(parse_duration("PT30S").unwrap(), 30000);
    assert_eq!(parse_duration("PT5M").unwrap(), 300000);
    assert_eq!(parse_duration("PT2H").unwrap(), 7200000);
}

#[test]
fn test_duration_parsing_rejects_bad_unit() {
    // An unrecognized unit letter is a format error.
    match parse_duration("PT3X") {
        Err(ApiError::ParseError(_)) => {}
        other => panic!("expected a parse failure, got {:?}", other),
    }
    // A unit letter with no digits before it is a format error too.
    assert!(parse_duration("PTM").is_err());
}

#[test]
fn test_track_metadata_equality() {
    let metadata1 = TrackMetadata {
        title: "Test Song".to_string(),
        artist: "Test Artist".to_string(),
        album: "Test Album".to_string(),
        duration_ms: 180000,
        is_playing: true,
        progress_ms: Some(60000),
    };

    let metadata2 = TrackMetadata {
        title: "Test Song".to_string(),
        artist: "Test Artist".to_string(),
        album: "Test Album".to_string(),
        duration_ms: 180000,
        is_playing: true,
        progress_ms: Some(60000),
    };

    assert_eq!(metadata1, metadata2);
}

fn obj(fields: Vec<(&str, JsonValue)>) -> JsonValue {
    JsonValue::Obj(fields.into_iter().map(|(k, v)| (k.to_string(), v)).collect())
}

fn s(text: &str) -> JsonValue {
    JsonValue::Str(text.to_string())
}

fn n(v: u64) -> JsonValue {
    JsonValue::Num(Some(v))
}

#[test]
fn test_parse_token_response() {
    let body = obj(vec![
        ("access_token", s("acc")),
        ("token_type", s("Bearer")),
        ("expires_in", n(3600)),
        ("refresh_token", s("ref")),
        ("scope", JsonValue::Null),
    ]);
    let token = parse_token_response(&body).unwrap();
    assert_eq!(token.access_token, "acc");
    assert_eq!(token.token_type, "Bearer");
    assert_eq!(token.expires_in, 3600);
    assert_eq!(token.refresh_token, Some("ref".to_string()));
    assert_eq!(token.scope, None);
}

#[test]
fn test_parse_token_response_omitted_refresh() {
    let body = obj(vec![
        ("access_token", s("acc")),
        ("token_type", s("Bearer")),
        ("expires_in", n(3600)),
    ]);
    let token = parse_token_response(&body).unwrap();
    assert_eq!(token.refresh_token, None);
}

#[test]
fn test_parse_token_response_missing_field() {
    let body = obj(vec![("token_type", s("Bearer")), ("expires_in", n(3600))]);
    assert!(matches!(parse_token_response(&body), Err(ApiError::ParseError(_))));
}

#[test]
fn test_parse_now_playing() {
    let body = obj(vec![
        (
            "item",
            obj(vec![
                ("name", s("Test Song")),
                ("artists", JsonValue::Arr(vec![obj(vec![("name", s("Test Artist"))])])),
                ("album", obj(vec![("name", s("Test Album"))])),
                ("duration_ms", n(180000)),
            ]),
        ),
        ("is_playing", JsonValue::Bool(true)),
        ("progress_ms", n(60000)),
    ]);
    let t = parse_now_playing(&body).unwrap();
    assert_eq!(t.title, "Test Song");
    assert_eq!(t.artist, "Test Artist");
    assert_eq!(t.album, "Test Album");
    assert_eq!(t.duration_ms, 180000);
    assert!(t.is_playing);
    assert_eq!(t.progress_ms, Some(60000));
}

#[test]
fn test_parse_now_playing_missing_item() {
    let body = obj(vec![("is_playing", JsonValue::Bool(true))]);
    assert!(matches!(parse_now_playing(&body), Err(ApiError::ParseError(_))));
}

#[test]
fn test_parse_now_playing_defaults() {
    // The playing flag defaults to false and the progress is optional.
    let body = obj(vec![(
        "item",
        obj(vec![
            ("name", s("Song")),
            ("artists", JsonValue::Arr(vec![obj(vec![("name", s("Artist"))])])),
            ("album", obj(vec![("name", s("Album"))])),
            ("duration_ms", n(1000)),
        ]),
    )]);
    let t = parse_now_playing(&body).unwrap();
    assert!(!t.is_playing);
    assert_eq!(t.progress_ms, None);
}

#[test]
fn test_parse_video_metadata() {
    let body = obj(vec![(
        "items",
        JsonValue::Arr(vec![obj(vec![
            ("snippet", obj(vec![("title", s("Video")), ("channelTitle", s("Channel"))])),
            ("contentDetails", obj(vec![("duration", s("PT4M13S"))])),
        ])]),
    )]);
    let t = parse_video_metadata(&body).unwrap();
    assert_eq!(t.title, "Video");
    assert_eq!(t.artist, "Channel");
    assert_eq!(t.album, "Channel");
    assert_eq!(t.duration_ms, 253000);
    assert!(!t.is_playing);
    assert_eq!(t.progress_ms, None);
}

#[test]
fn test_parse_video_metadata_empty_items() {
    let body = obj(vec![("items", JsonValue::Arr(vec![]))]);
    assert!(matches!(parse_video_metadata(&body), Err(ApiError::NoActivePlayback)));
}

#[test]
fn test_classify_now_playing_status() {
    assert_eq!(classify_now_playing_status(204), NowPlayingStatus::NoContent);
    assert_eq!(classify_now_playing_status(200), NowPlayingStatus::ReadBody);
    assert_eq!(classify_now_playing_status(401), NowPlayingStatus::Unauthorized);
    assert_eq!(classify_now_playing_status(500), NowPlayingStatus::Failed);
}

#[test]
fn test_request_params() {
    let credentials = Credentials {
        client_id: "id".to_string(),
        client_secret: "secret".to_string(),
        redirect_uri: "http://localhost/cb".to_string(),
    };
    let auth = build_auth_code_params(&credentials, "code123");
    assert_eq!(auth.len(), 5);
    assert_eq!(auth[0], ("grant_type".to_string(), "authorization_code".to_string()));
    assert_eq!(auth[1], ("code".to_string(), "code123".to_string()));
    assert_eq!(auth[2], ("redirect_uri".to_string(), "http://localhost/cb".to_string()));

    let refresh = build_refresh_params(&credentials, "ref456");
    assert_eq!(refresh.len(), 4);
    assert_eq!(refresh[0], ("grant_type".to_string(), "refresh_token".to_string()));
    assert_eq!(refresh[1], ("refresh_token".to_string(), "ref456".to_string()));
}
