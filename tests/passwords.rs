use blazer_auth::errors::ServerError;
use blazer_auth::password::{hash_password, verify_password};

#[test]
fn hash_then_verify_accepts_and_rejects() {
    let hash = hash_password("pw123").unwrap();
    assert_ne!(hash, "pw123");
    assert!(hash.starts_with("$2"));
    assert_eq!(verify_password("pw123", &hash), Ok(true));
    assert_eq!(verify_password("pw124", &hash), Ok(false));
}

#[test]
fn malformed_hash_is_internal_error() {
    assert_eq!(verify_password("pw123", "not-a-hash"), Err(ServerError::InternalError));
}
