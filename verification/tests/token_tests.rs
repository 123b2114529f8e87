use spotify_mcp::authorization::{scopes, AUTH_URL, REDIRECT_URI, TOKEN_URL};
use spotify_mcp::token::{
    access_step, access_step_at, authorized_token, authorized_token_at, current_time, reading_from,
    refreshed_token, refreshed_token_at, startup_step, startup_step_at, AccessStep, StartupStep,
    Timestamp, TokenData, TokenError,
};

fn at(secs: i64, nanos: u32) -> Timestamp {
    Timestamp { secs, nanos }
}

fn token(expires_at: Timestamp) -> TokenData {
    TokenData { access_token: "access".to_string(), refresh_token: "refresh".to_string(), expires_at }
}

#[test]
fn expiry_starts_a_minute_early() {
    let t = token(at(10_000, 500));
    assert!(!t.is_expired_at(at(9_939, 999_999_999)));
    assert!(!t.is_expired_at(at(9_940, 499)));
    assert!(t.is_expired_at(at(9_940, 500)));
    assert!(t.is_expired_at(at(9_941, 0)));
    assert!(t.is_expired_at(at(20_000, 0)));
}

#[test]
fn expiry_by_the_clock() {
    assert_eq!(token(at(0, 0)).is_expired(), Some(true));
    assert_eq!(token(at(8_000_000_000_000, 0)).is_expired(), Some(false));
    let now = current_time().unwrap();
    assert!(now.secs > 1_600_000_000);
    assert!(now.nanos < 1_000_000_000);
}

#[test]
fn refresh_keeps_or_replaces_refresh_token() {
    let now = at(1_000, 7);
    let kept = refreshed_token_at("new-access".to_string(), None, "old-refresh", None, now).unwrap();
    assert_eq!(kept.access_token, "new-access");
    assert_eq!(kept.refresh_token, "old-refresh");
    assert_eq!(kept.expires_at, at(4_600, 7));
    let replaced = refreshed_token_at("a".to_string(), Some("r2".to_string()), "old", Some(60), now).unwrap();
    assert_eq!(replaced.refresh_token, "r2");
    assert_eq!(replaced.expires_at, at(1_060, 7));
    assert!(replaced.is_expired_at(now));
    assert!(!kept.is_expired_at(now));
}

#[test]
fn refresh_expiry_range() {
    let now = at(1_000, 0);
    // Lifetimes of 2^63 and more wrap to negative ones, as `as i64` does.
    let past = refreshed_token_at("a".to_string(), None, "old", Some(u64::MAX), now).unwrap();
    assert_eq!(past.expires_at, at(999, 0));
    assert!(past.is_expired_at(now));
    assert_eq!(
        refreshed_token_at("a".to_string(), None, "old", Some(9_223_372_036_854_776), now),
        Err(TokenError::ExpiryOutOfRange)
    );
    assert_eq!(
        refreshed_token_at("a".to_string(), None, "old", Some(9_000_000_000_000), now),
        Err(TokenError::ExpiryOutOfRange)
    );
    assert_eq!(
        refreshed_token_at("a".to_string(), None, "old", Some(1 << 63), now),
        Err(TokenError::ExpiryOutOfRange)
    );
    assert!(refreshed_token_at("a".to_string(), None, "old", Some(8_210_266_875_799), now).is_ok());
}

#[test]
fn refresh_by_the_clock() {
    let t = refreshed_token("a".to_string(), None, "old", Some(3600)).unwrap();
    assert_eq!(t.refresh_token, "old");
    assert_eq!(t.is_expired(), Some(false));
    assert!(refreshed_token("a".to_string(), None, "old", Some(0)).is_ok());
    assert_eq!(
        refreshed_token("a".to_string(), None, "old", Some(9_223_372_036_854_776)),
        Err(TokenError::ExpiryOutOfRange)
    );
}

#[test]
fn authorization_needs_a_refresh_token() {
    let now = at(100, 0);
    assert_eq!(authorized_token_at("a".to_string(), None, None, now), Err(TokenError::NoRefreshToken));
    assert_eq!(authorized_token_at("a".to_string(), None, Some(u64::MAX >> 1), now), Err(TokenError::NoRefreshToken));
    let t = authorized_token_at("a".to_string(), Some("r".to_string()), Some(10), now).unwrap();
    assert_eq!(t, TokenData { access_token: "a".to_string(), refresh_token: "r".to_string(), expires_at: at(110, 0) });
    assert_eq!(
        authorized_token_at("a".to_string(), Some("r".to_string()), Some(u64::MAX >> 1), now),
        Err(TokenError::ExpiryOutOfRange)
    );
    assert_eq!(authorized_token("a".to_string(), None, Some(10)), Err(TokenError::NoRefreshToken));
    assert!(authorized_token("a".to_string(), Some("r".to_string()), None).is_ok());
}

#[test]
fn access_steps() {
    let t = token(at(1_000, 0));
    assert_eq!(access_step_at(&t, at(900, 0)), AccessStep::UseCurrent("access".to_string()));
    assert_eq!(access_step_at(&t, at(940, 0)), AccessStep::Refresh("refresh".to_string()));
    assert_eq!(access_step(&t), Some(AccessStep::Refresh("refresh".to_string())));
}

#[test]
fn startup_steps() {
    assert_eq!(startup_step_at(&None, at(0, 0)), StartupStep::Authorize);
    assert_eq!(startup_step_at(&Some(token(at(1_000, 0))), at(0, 0)), StartupStep::UseSaved);
    assert_eq!(startup_step_at(&Some(token(at(1_000, 0))), at(5_000, 0)), StartupStep::RefreshSaved);
    assert_eq!(startup_step(&None), Some(StartupStep::Authorize));
    assert_eq!(startup_step(&Some(token(at(0, 0)))), Some(StartupStep::RefreshSaved));
}

#[test]
fn authorization_settings() {
    assert_eq!(AUTH_URL, "https://accounts.spotify.com/authorize");
    assert_eq!(TOKEN_URL, "https://accounts.spotify.com/api/token");
    assert_eq!(REDIRECT_URI, "http://127.0.0.1:8888/callback");
    let s = scopes();
    assert_eq!(s.len(), 10);
    assert_eq!(s[0], "user-modify-playback-state");
    assert_eq!(s[9], "user-library-modify");
}

#[test]
fn readings_of_the_clock() {
    assert_eq!(reading_from(None), None);
    assert_eq!(reading_from(Some((1_700_000_000, 5))), Some(at(1_700_000_000, 5)));
    assert_eq!(reading_from(Some((8_210_266_876_799, 0))), Some(at(8_210_266_876_799, 0)));
    assert_eq!(reading_from(Some((8_210_266_876_800, 0))), None);
    assert_eq!(reading_from(Some((u64::MAX, 0))), None);
}
