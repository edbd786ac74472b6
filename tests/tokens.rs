use blazer_auth::errors::ServerError;
use blazer_auth::jwt::{generate_token, generate_token_at, issue_token_at, validate_token, validate_token_at, TOKEN_TTL};

const SECRET: &str = "test-secret";

#[test]
fn token_round_trip_before_expiry() {
    let now: i64 = 1_700_000_000;
    let token = issue_token_at(SECRET, "42", "device-1", 3600, now);
    let claims = validate_token_at(SECRET, &token, now + 10).unwrap();
    assert_eq!(claims.sub, "42");
    assert_eq!(claims.device_id, "device-1");
    assert_eq!(claims.exp, now + 3600);
    let last = validate_token_at(SECRET, &token, now + 3599).unwrap();
    assert_eq!(last.sub, "42");
}

#[test]
fn token_has_three_segments() {
    let token = issue_token_at(SECRET, "1", "d", 60, 1000);
    assert_eq!(token.split('.').count(), 3);
    assert!(!token.is_empty());
}

#[test]
fn token_with_zero_ttl_is_expired() {
    let now: i64 = 1_700_000_000;
    let token = issue_token_at(SECRET, "7", "dev", 0, now);
    assert_eq!(validate_token_at(SECRET, &token, now).err(), Some(ServerError::Unauthorized));
    assert_eq!(validate_token_at(SECRET, &token, now + 100).err(), Some(ServerError::Unauthorized));
}

#[test]
fn token_expires_exactly_at_expiry() {
    let now: i64 = 1_700_000_000;
    let token = issue_token_at(SECRET, "7", "dev", 30, now);
    assert!(validate_token_at(SECRET, &token, now + 29).is_ok());
    assert_eq!(validate_token_at(SECRET, &token, now + 30).err(), Some(ServerError::Unauthorized));
}

#[test]
fn token_expiry_saturates() {
    let now: i64 = i64::MAX - 5;
    let token = issue_token_at(SECRET, "7", "dev", 3600, now);
    let claims = validate_token_at(SECRET, &token, i64::MAX - 1).unwrap();
    assert_eq!(claims.exp, i64::MAX);
}

#[test]
fn token_with_wrong_secret_is_rejected() {
    let token = issue_token_at(SECRET, "7", "dev", 3600, 1000);
    assert_eq!(validate_token_at("other-secret", &token, 1001).err(), Some(ServerError::Unauthorized));
}

#[test]
fn tampered_signature_is_rejected() {
    let now: i64 = 1_700_000_000;
    let token = issue_token_at(SECRET, "7", "dev", 3600, now);
    let cut = token.rfind('.').unwrap() + 1;
    let bytes = token.as_bytes();
    for i in cut..bytes.len() {
        let mut changed = bytes.to_vec();
        changed[i] = if changed[i] == b'A' { b'B' } else { b'A' };
        let forged = String::from_utf8(changed).unwrap();
        assert_eq!(validate_token_at(SECRET, &forged, now + 1).err(), Some(ServerError::Unauthorized));
    }
}

#[test]
fn malformed_token_is_rejected() {
    for t in ["", "abc", "a.b", "a.b.c", "not a token at all"] {
        assert_eq!(validate_token_at(SECRET, t, 1000).err(), Some(ServerError::Unauthorized));
        assert_eq!(validate_token(SECRET, t).err(), Some(ServerError::Unauthorized));
    }
}

#[test]
fn generated_token_names_user_in_decimal() {
    let now: i64 = 1_700_000_000;
    let token = generate_token_at(SECRET, 315, "dev", now);
    let claims = validate_token_at(SECRET, &token, now + 1).unwrap();
    assert_eq!(claims.sub, "315");
    assert_eq!(claims.exp, now + TOKEN_TTL as i64);
}

#[test]
fn fresh_token_validates_now() {
    let token = generate_token(SECRET, 9, "dev-9");
    let claims = validate_token(SECRET, &token).unwrap();
    assert_eq!(claims.sub, "9");
    assert_eq!(claims.device_id, "dev-9");
}
