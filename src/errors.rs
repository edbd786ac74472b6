use vstd::prelude::*;

verus! {

/// The failure kinds an account operation reports to its caller.
#[derive(Debug, Clone, PartialEq, Eq)]
pub enum ServerError {
    InternalError,
    UserFound,
    UserNotFound,
    InvalidCredentials,
    Unauthorized,
    InvalidRequest(String),
}

/// The status codes a failure crosses the service boundary with.
#[derive(Debug, Clone, Copy, PartialEq, Eq, Structural)]
pub enum Code {
    Internal,
    AlreadyExists,
    NotFound,
    Unauthenticated,
    PermissionDenied,
    InvalidArgument,
}

/// The status a failure is reported with: a code and a short message that
/// tells nothing of the failure's internals.
pub struct Status {
    pub code: Code,
    pub message: String,
}

/// The code each failure kind is reported with.
pub open spec fn code_of(e: ServerError) -> Code {
    match e {
        ServerError::InternalError => Code::Internal,
        ServerError::UserFound => Code::AlreadyExists,
        ServerError::UserNotFound => Code::NotFound,
        ServerError::InvalidCredentials => Code::Unauthenticated,
        ServerError::Unauthorized => Code::PermissionDenied,
        ServerError::InvalidRequest(_) => Code::InvalidArgument,
    }
}

/// The message each failure kind is reported with; a rejected request
/// carries its own explanation.
pub open spec fn message_of(e: ServerError) -> Seq<char> {
    match e {
        ServerError::InternalError => "Internal server error"@,
        ServerError::UserFound => "User already exists"@,
        ServerError::UserNotFound => "User not found"@,
        ServerError::InvalidCredentials => "Invalid credentials"@,
        ServerError::Unauthorized => "Unauthorized"@,
        ServerError::InvalidRequest(m) => m@,
    }
}

impl ServerError {
    /// The status this failure is reported with.
    pub fn to_status(self) -> (r: Status)
        ensures
            r.code == code_of(self),
            r.message@ == message_of(self),
    {
        match self {
            ServerError::InternalError => Status { code: Code::Internal, message: "Internal server error".to_owned() },
            ServerError::UserFound => Status { code: Code::AlreadyExists, message: "User already exists".to_owned() },
            ServerError::UserNotFound => Status { code: Code::NotFound, message: "User not found".to_owned() },
            ServerError::InvalidCredentials => Status {
                code: Code::Unauthenticated,
                message: "Invalid credentials".to_owned(),
            },
            ServerError::Unauthorized => Status { code: Code::PermissionDenied, message: "Unauthorized".to_owned() },
            ServerError::InvalidRequest(m) => Status { code: Code::InvalidArgument, message: m },
        }
    }
}

} // verus!
