use milk_lib::token::{
    carry_refresh, is_expired_at, valid_token_action, ServiceKind, Token, TokenAction, TokenLedger,
};
use milk_lib::vault::CredentialStore;

fn test_key() -> Vec<u8> {
    (0u8..32).collect()
}

fn token(access: &str, refresh: Option<&str>, expires_in: u64) -> Token {
    Token {
        access_token: access.to_string(),
        token_type: "Bearer".to_string(),
        expires_in,
        refresh_token: refresh.map(|s| s.to_string()),
        scope: None,
    }
}

#[test]
fn test_expiry_boundary() {
    // Issued at T with expires_in = E: not yet expired at T+E-61, already
    // expired at T+E-59 (the 60-second skew boundary).
    let t: u64 = 1_700_000_000;
    let e: u64 = 3600;
    let expiry = t + e;
    assert!(!is_expired_at(expiry - 61, expiry));
    assert!(is_expired_at(expiry - 59, expiry));
    assert!(is_expired_at(expiry - 60, expiry));
}

#[test]
fn test_ledger_save_and_expiry() {
    let mut store = CredentialStore::new(test_key());
    let ledger = TokenLedger::new(ServiceKind::Spotify);
    let now: u64 = 1_700_000_000;

    ledger.save(&mut store, &token("acc1", Some("ref1"), 3600), now).unwrap();

    assert_eq!(ledger.get_access_token(&store).unwrap(), Some("acc1".to_string()));
    assert_eq!(ledger.get_refresh_token(&store).unwrap(), Some("ref1".to_string()));

    // Fresh right after issuance; stale just before the skew boundary.
    assert!(!ledger.is_expired(&store, now).unwrap());
    assert!(!ledger.is_expired(&store, now + 3600 - 61).unwrap());
    assert!(ledger.is_expired(&store, now + 3600 - 59).unwrap());
}

#[test]
fn test_expired_when_no_record() {
    let store = CredentialStore::new(test_key());
    let ledger = TokenLedger::new(ServiceKind::YouTube);
    assert!(ledger.is_expired(&store, 0).unwrap());
}

#[test]
fn test_refresh_token_carryover() {
    // A refreshed token without a new refresh token keeps the prior one.
    let refreshed = carry_refresh(token("acc2", None, 3600), Some("old_refresh".to_string()));
    assert_eq!(refreshed.refresh_token, Some("old_refresh".to_string()));

    // One that carries a new refresh token replaces it.
    let replaced = carry_refresh(
        token("acc3", Some("new_refresh"), 3600),
        Some("old_refresh".to_string()),
    );
    assert_eq!(replaced.refresh_token, Some("new_refresh".to_string()));
}

#[test]
fn test_ledger_save_preserves_refresh_token() {
    let mut store = CredentialStore::new(test_key());
    let ledger = TokenLedger::new(ServiceKind::Spotify);
    let now: u64 = 1_700_000_000;

    ledger.save(&mut store, &token("acc1", Some("ref1"), 3600), now).unwrap();
    // A later save without a refresh token leaves the stored one in place.
    ledger.save(&mut store, &token("acc2", None, 3600), now + 100).unwrap();

    assert_eq!(ledger.get_access_token(&store).unwrap(), Some("acc2".to_string()));
    assert_eq!(ledger.get_refresh_token(&store).unwrap(), Some("ref1".to_string()));
}

#[test]
fn test_services_do_not_share_entries() {
    let mut store = CredentialStore::new(test_key());
    let spotify = TokenLedger::new(ServiceKind::Spotify);
    let youtube = TokenLedger::new(ServiceKind::YouTube);
    let now: u64 = 1_700_000_000;

    spotify.save(&mut store, &token("sp", Some("spr"), 3600), now).unwrap();
    assert_eq!(youtube.get_access_token(&store).unwrap(), None);
    assert!(youtube.is_expired(&store, now).unwrap());
}

#[test]
fn test_valid_token_action() {
    // A stored, unexpired token is used as is.
    match valid_token_action(false, Some("acc".to_string()), false) {
        TokenAction::UseStored(t) => assert_eq!(t, "acc"),
        other => panic!("expected the stored token, got {:?}", other),
    }
    // Expired with credentials: refresh.
    assert!(matches!(
        valid_token_action(true, Some("acc".to_string()), true),
        TokenAction::Refresh
    ));
    // Expired without credentials: re-authentication is required.
    assert!(matches!(
        valid_token_action(true, Some("acc".to_string()), false),
        TokenAction::AuthRequired
    ));
    // No stored token at all behaves like an expired one.
    assert!(matches!(valid_token_action(false, None, false), TokenAction::AuthRequired));
}

#[test]
fn test_decimal_round_trip() {
    for n in [0u64, 7, 10, 60, 12345, u64::MAX] {
        let text = milk_lib::strutil::to_decimal(n);
        assert_eq!(milk_lib::strutil::parse_u64(&text), Some(n));
    }
    assert_eq!(milk_lib::strutil::to_decimal(1_700_003_600), "1700003600");
    assert_eq!(milk_lib::strutil::parse_u64(""), None);
    assert_eq!(milk_lib::strutil::parse_u64("12a"), None);
    assert_eq!(milk_lib::strutil::parse_u64("99999999999999999999999"), None);
}
