use milk_lib::skin::{ParsedSkin, SkinError, SkinParser};

fn skin_with(assets: Vec<(&str, Vec<u8>)>) -> ParsedSkin {
    ParsedSkin {
        name: "test".to_string(),
        assets: assets.into_iter().map(|(k, v)| (k.to_string(), v)).collect(),
        regions: None,
    }
}

#[test]
fn test_validate_skin_no_images() {
    let skin = skin_with(vec![]);
    let result = SkinParser::validate_skin(&skin);
    assert!(result.is_err());
}

#[test]
fn test_validate_skin_success() {
    let skin = skin_with(vec![
        ("main.bmp", vec![0x42, 0x4d]),
        ("region.txt", b"275 116\n".to_vec()),
    ]);
    let result = SkinParser::validate_skin(&skin);
    assert!(result.is_ok());
}

#[test]
fn test_validate_skin_missing_main_bmp() {
    let skin = skin_with(vec![("cbuttons.png", vec![1, 2, 3])]);
    match SkinParser::validate_skin(&skin) {
        Err(SkinError::MissingAsset(name)) => assert_eq!(name, "main.bmp"),
        other => panic!("expected the missing main bitmap, got {:?}", other),
    }
}

#[test]
fn test_validate_skin_case_insensitive() {
    let skin = skin_with(vec![("MAIN.BMP", vec![1])]);
    assert!(SkinParser::validate_skin(&skin).is_ok());
}

#[test]
fn test_get_default_skin() {
    let skin = SkinParser::get_default_skin();
    assert_eq!(skin.name, "default");
    assert!(skin.regions.is_some());
}

#[test]
fn test_extract_assets_preserves_data() {
    let skin = skin_with(vec![("main.bmp", vec![7, 8, 9])]);
    let assets = SkinParser::extract_assets(&skin).unwrap();
    assert_eq!(assets.len(), 1);
    assert_eq!(assets[0].0, "main.bmp");
    assert_eq!(assets[0].1, vec![7, 8, 9]);
}

#[test]
fn test_parse_regions() {
    let with_region = vec![
        ("main.bmp".to_string(), vec![1u8]),
        ("Region.txt".to_string(), b"275 116\n".to_vec()),
    ];
    let config = SkinParser::parse_regions(&with_region).unwrap();
    assert_eq!(config.main.width, 275);
    assert_eq!(config.main.height, 116);

    let without_region = vec![("main.bmp".to_string(), vec![1u8])];
    assert!(SkinParser::parse_regions(&without_region).is_none());

    let empty_region = vec![("region.txt".to_string(), Vec::new())];
    assert!(SkinParser::parse_regions(&empty_region).is_none());
}
