use blazer_auth::errors::{Code, ServerError};

#[test]
fn failures_map_to_status() {
    let cases = [
        (ServerError::InternalError, Code::Internal, "Internal server error"),
        (ServerError::UserFound, Code::AlreadyExists, "User already exists"),
        (ServerError::UserNotFound, Code::NotFound, "User not found"),
        (ServerError::InvalidCredentials, Code::Unauthenticated, "Invalid credentials"),
        (ServerError::Unauthorized, Code::PermissionDenied, "Unauthorized"),
        (ServerError::InvalidRequest("bad email".to_string()), Code::InvalidArgument, "bad email"),
    ];
    for (e, code, message) in cases {
        let s = e.to_status();
        assert_eq!(s.code, code);
        assert_eq!(s.message, message);
    }
}
