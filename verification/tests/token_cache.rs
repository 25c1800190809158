use dceapi::Error;
use dceapi::TokenCache;
use dceapi::TokenResponse;

fn payload(token: &str, expires_in: i32) -> TokenResponse {
    TokenResponse {
        token_type: "Bearer".to_string(),
        access_token: token.to_string(),
        expires_in,
    }
}

#[test]
fn empty_cache_is_expired_at_any_time() {
    let c = TokenCache::new();
    assert_eq!(c.get_cached_token(), "");
    assert!(c.is_expired(0));
    assert!(c.is_expired(1_000_000));
    assert!(c.token_if_valid(0).is_none());
}

#[test]
fn install_applies_expiry_buffer() {
    let mut c = TokenCache::new();
    c.install("tok".to_string(), 3600, 1000);
    // effective window: 3600 - 60 = 3540 seconds from installation
    assert!(!c.is_expired(1000));
    assert!(!c.is_expired(1000 + 3539));
    assert!(c.is_expired(1000 + 3540));
    assert!(c.is_expired(1000 + 9999));
}

#[test]
fn expiry_buffer_boundary_for_short_lifetime() {
    // expires_in = 120: usable for exactly 60 seconds
    let mut c = TokenCache::new();
    c.install("tok".to_string(), 120, 50);
    assert!(!c.is_expired(50));
    assert!(!c.is_expired(109));
    assert!(c.is_expired(110));
}

#[test]
fn non_positive_lifetime_uses_default_window() {
    // default 3600 seconds, less the 60-second buffer
    let mut c = TokenCache::new();
    c.install("tok".to_string(), 0, 10);
    assert!(!c.is_expired(10 + 3539));
    assert!(c.is_expired(10 + 3540));

    let mut c2 = TokenCache::new();
    c2.install("tok".to_string(), -5, 10);
    assert!(c2.is_expired(10 + 3540));
    assert!(!c2.is_expired(10 + 3539));
}

#[test]
fn lifetime_within_buffer_expires_at_once() {
    let mut c = TokenCache::new();
    c.install("tok".to_string(), 30, 100);
    assert!(c.is_expired(100));
}

#[test]
fn token_if_valid_returns_cached_token_inside_window() {
    let mut c = TokenCache::new();
    c.install("tok".to_string(), 3600, 0);
    assert_eq!(c.token_if_valid(100), Some("tok".to_string()));
    assert!(c.token_if_valid(3540).is_none());
}

#[test]
fn clear_token_discards_state() {
    let mut c = TokenCache::new();
    c.install("tok".to_string(), 3600, 0);
    c.clear_token();
    assert_eq!(c.get_cached_token(), "");
    assert!(c.is_expired(1));
}

#[test]
fn auth_outcome_success_installs_token() {
    let mut c = TokenCache::new();
    let r = c.apply_auth_outcome(200, "ok", Some(payload("fresh", 3600)), 500);
    assert!(r.is_ok());
    assert_eq!(c.get_cached_token(), "fresh");
    assert!(!c.is_expired(500 + 3539));
    assert!(c.is_expired(500 + 3540));
}

#[test]
fn auth_outcome_error_codes_map_to_auth_errors() {
    let mut c = TokenCache::new();
    let cases = [
        (400, "invalid parameters: boom"),
        (401, "permission denied: boom"),
        (500, "server error: boom"),
        (501, "rate limited: boom"),
        (777, "authentication failed (code 777): boom"),
        (402, "authentication failed (code 402): boom"),
        (-3, "authentication failed (code -3): boom"),
    ];
    for (code, want) in cases {
        match c.apply_auth_outcome(code, "boom", None, 0) {
            Err(Error::Auth { reason }) => assert_eq!(reason, want),
            other => panic!("expected Auth error for code {}, got {:?}", code, other),
        }
        assert_eq!(c.get_cached_token(), "");
    }
}

#[test]
fn empty_token_is_rejected_and_cache_unchanged() {
    // a previously cached token must survive a failed refresh
    let mut c = TokenCache::new();
    c.install("old".to_string(), 3600, 0);
    let r = c.apply_auth_outcome(200, "ok", Some(payload("", 3600)), 100);
    match r {
        Err(Error::Auth { reason }) => assert_eq!(reason, "received empty access token"),
        other => panic!("expected Auth error, got {:?}", other),
    }
    assert_eq!(c.get_cached_token(), "old");
    assert!(!c.is_expired(3539));
}

#[test]
fn undecodable_payload_is_rejected_and_cache_unchanged() {
    let mut c = TokenCache::new();
    c.install("old".to_string(), 3600, 0);
    match c.apply_auth_outcome(200, "ok", None, 100) {
        Err(Error::Auth { reason }) => assert_eq!(reason, "failed to parse token data"),
        other => panic!("expected Auth error, got {:?}", other),
    }
    assert_eq!(c.get_cached_token(), "old");
}

#[test]
fn saturating_expiry_near_the_end_of_time() {
    let mut c = TokenCache::new();
    c.install("tok".to_string(), 3600, u64::MAX - 10);
    assert!(!c.is_expired(u64::MAX - 1));
}
