use vstd::prelude::*;

use crate::clock::{is_uuid_v7_text, new_device_id, now_timestamp};
use crate::errors::ServerError;
use crate::jwt::{generate_token_at, grants_session, parsed_i32, session_token, user_id_of, valid_claims_at, validate_token_at};
use crate::password::{bcrypt_check, hash_password, is_bcrypt_text, verify_password};
use crate::state::AppState;
use crate::store::{deactivated, fresh_record, identity_taken, touched, User};

verus! {

/// A request to register a user.
pub struct SignupRequest {
    pub email: String,
    pub username: String,
    pub password: String,
}

/// A request to authenticate by email and password.
pub struct LoginRequest {
    pub email: String,
    pub password: String,
}

/// A request to end the session a token belongs to.
pub struct LogoutRequest {
    pub token: String,
}

/// A request to soft-delete the account a token was issued to.
pub struct DeleteAccountRequest {
    pub token: String,
}

/// A request to end the device session a token belongs to.
pub struct DeleteSessionRequest {
    pub token: String,
}

/// The answer to a signup or a login: the session token, the device
/// identifier it is bound to, and whether the call succeeded.
pub struct AuthResponse {
    pub token: String,
    pub session_id: String,
    pub success: bool,
    pub error_message: String,
}

/// The answer to an operation that only acknowledges.
pub struct StatusResponse {
    pub success: bool,
    pub message: String,
}

/// A successful answer carrying `token` for device `session_id`, and that
/// token grants the session of user `id` issued at `issued`.
pub open spec fn auth_success(secret: Seq<char>, resp: AuthResponse, id: i32, issued: i64) -> bool {
    &&& resp.success
    &&& resp.error_message@.len() == 0
    &&& resp.token@ == session_token(secret, id, issued, resp.session_id@)
    &&& issued >= 0 ==> grants_session(secret, resp.token@, id, issued, resp.session_id@)
}

/// What an operation that only checks its token answers at time `now`: the
/// acknowledgement `message` when the token is valid then, `Unauthorized`
/// otherwise.
pub open spec fn acknowledged(
    secret: Seq<char>,
    token: Seq<char>,
    now: i64,
    r: Result<StatusResponse, ServerError>,
    message: Seq<char>,
) -> bool {
    &&& r is Ok <==> valid_claims_at(secret, token, now) is Some
    &&& r is Ok ==> r->Ok_0.success && r->Ok_0.message@ == message
    &&& r is Err ==> r == Err::<StatusResponse, ServerError>(ServerError::Unauthorized)
}

/// What deleting the account of `token` at time `now` does to the records
/// `old` (leaving `new`) and answers: the subject of a token valid then,
/// read as a user id, names the record whose active flag is cleared.
pub open spec fn deletion_outcome(
    secret: Seq<char>,
    old: Seq<User>,
    new: Seq<User>,
    token: Seq<char>,
    now: i64,
    r: Result<StatusResponse, ServerError>,
) -> bool {
    match valid_claims_at(secret, token, now) {
        None => r == Err::<StatusResponse, ServerError>(ServerError::Unauthorized) && new == old,
        Some(c) => match parsed_i32(c.0) {
            None => r == Err::<StatusResponse, ServerError>(ServerError::Unauthorized) && new == old,
            Some(id) => if 1 <= id <= old.len() {
                &&& r is Ok
                &&& r->Ok_0.success
                &&& r->Ok_0.message@ == "Account successfully deleted"@
                &&& new.len() == old.len()
                &&& deactivated(old[id - 1], new[id - 1])
                &&& forall|k: int| 0 <= k < old.len() && k != id - 1 ==> new[k] == old[k]
            } else {
                r == Err::<StatusResponse, ServerError>(ServerError::UserNotFound) && new == old
            },
        },
    }
}

/// Once a signup has succeeded, its email is taken: the records it leaves
/// make every later signup with that email, under any username, fail with
/// `UserFound`.
pub proof fn lemma_signup_email_taken(
    before: Seq<User>,
    after: Seq<User>,
    email: Seq<char>,
    username: Seq<char>,
    other_username: Seq<char>,
)
    requires
        after.len() == before.len() + 1,
        after.last().email@ == email,
        after.last().username@ == username,
    ensures
        identity_taken(after, email, other_username),
{
    assert(crate::store::shares_identity(after[after.len() - 1], email, other_username));
}

/// The account operations: signup, login, logout, account deletion and
/// session deletion.
pub struct AccountService {
    state: AppState,
}

impl AccountService {
    /// The user records.
    pub closed spec fn users(&self) -> Seq<User> {
        self.state.db@
    }

    /// The secret key that signs session tokens.
    pub closed spec fn secret(&self) -> Seq<char> {
        self.state.config.secret_key@
    }

    /// The records are well formed: record `i` has identifier `i + 1`, and
    /// no two records share an email or a username.
    pub closed spec fn wf(&self) -> bool {
        self.state.db.wf()
    }

    pub fn new(state: AppState) -> (r: AccountService)
        requires
            state.db.wf(),
        ensures
            r.wf(),
            r.users() == state.db@,
            r.secret() == state.config.secret_key@,
    {
        AccountService { state }
    }

    /// The service's state: its user records and its settings, secret key
    /// included.
    pub fn state(&self) -> (r: &AppState)
        ensures
            r.db@ == self.users(),
            r.config.secret_key@ == self.secret(),
    {
        &self.state
    }

    /// Stores a new user whose password hash is `password_hash`, registered
    /// and last online at `now`, and answers with the session token of that
    /// user on device `device_id` issued at `now`. Fails with `UserFound`
    /// exactly when a record already holds the email or the username, and
    /// with `InternalError` exactly when identifiers have run out; the
    /// records are then unchanged.
    pub fn register(&mut self, email: String, username: String, password_hash: String, now: i64, device_id: String) -> (r: Result<AuthResponse, ServerError>)
        requires
            old(self).wf(),
        ensures
            final(self).wf(),
            final(self).secret() == old(self).secret(),
            r == Err::<AuthResponse, ServerError>(ServerError::UserFound)
                <==> identity_taken(old(self).users(), email@, username@),
            r == Err::<AuthResponse, ServerError>(ServerError::InternalError)
                <==> !identity_taken(old(self).users(), email@, username@) && old(self).users().len() + 1 >= i32::MAX,
            r matches Err(e) ==> e == ServerError::UserFound || e == ServerError::InternalError,
            r is Err ==> final(self).users() == old(self).users(),
            r is Ok ==> {
                let n = old(self).users().len();
                let u = final(self).users().last();
                &&& final(self).users().len() == n + 1
                &&& final(self).users().take(n as int) == old(self).users()
                &&& fresh_record(u, (n + 1) as int, email@, username@, password_hash@, now)
                &&& forall|k: int| 0 <= k < n ==> (#[trigger] old(self).users()[k]).id != u.id
                &&& r->Ok_0.session_id@ == device_id@
                &&& auth_success(old(self).secret(), r->Ok_0, u.id, now)
            },
    {
        let id = match self.state.db.insert(email, username, password_hash, now) {
            Ok(id) => id,
            Err(e) => return Err(e),
        };
        let token = generate_token_at(self.state.secret_key(), id, device_id.as_str(), now);
        Ok(AuthResponse { token, session_id: device_id, success: true, error_message: String::new() })
    }

    /// Registers a user. Fails with `UserFound` exactly when a record already
    /// holds the email or the username. Otherwise it hashes the password with
    /// a fresh salt and registers the user now on a fresh device (see
    /// `register`); `InternalError` comes when hashing fails or identifiers
    /// have run out, and nothing is stored then.
    pub fn signup(&mut self, request: SignupRequest) -> (r: Result<AuthResponse, ServerError>)
        requires
            old(self).wf(),
        ensures
            final(self).wf(),
            final(self).secret() == old(self).secret(),
            r == Err::<AuthResponse, ServerError>(ServerError::UserFound)
                <==> identity_taken(old(self).users(), request.email@, request.username@),
            r matches Err(e) ==> e == ServerError::UserFound || e == ServerError::InternalError,
            r is Err ==> final(self).users() == old(self).users(),
            r is Ok ==> {
                let n = old(self).users().len();
                let u = final(self).users().last();
                &&& final(self).users().len() == n + 1
                &&& final(self).users().take(n as int) == old(self).users()
                &&& forall|k: int| 0 <= k < n ==> (#[trigger] old(self).users()[k]).id != u.id
                &&& u.id == n + 1
                &&& u.email@ == request.email@
                &&& u.username@ == request.username@
                &&& bcrypt_check(request.password@, u.password@) == Some(true)
                &&& is_bcrypt_text(u.password@)
                &&& u.last_online == u.created_at
                &&& u.created_at >= 0
                &&& u.is_active
                &&& !u.is_verified
                &&& is_uuid_v7_text(r->Ok_0.session_id@)
                &&& auth_success(old(self).secret(), r->Ok_0, u.id, u.created_at)
            },
    {
        if self.state.db.find_by_email_or_username(&request.email, &request.username).is_some() {
            return Err(ServerError::UserFound);
        }
        let hashed = match hash_password(request.password.as_str()) {
            Ok(h) => h,
            Err(e) => return Err(e),
        };
        let now = now_timestamp();
        let device_id = new_device_id();
        self.register(request.email, request.username, hashed, now, device_id)
    }

    /// Authenticates a user by email and password. Fails with `UserNotFound`
    /// exactly when no record holds the email, with `InvalidCredentials` when
    /// the password does not match, and with `InternalError` when the stored
    /// hash is malformed. With a matching password it succeeds: the record's
    /// last-online time becomes now, and the answer carries the session token
    /// of that user on a fresh device, issued now.
    pub fn login(&mut self, request: LoginRequest) -> (r: Result<AuthResponse, ServerError>)
        requires
            old(self).wf(),
        ensures
            final(self).wf(),
            final(self).secret() == old(self).secret(),
            final(self).users().len() == old(self).users().len(),
            r == Err::<AuthResponse, ServerError>(ServerError::UserNotFound)
                <==> forall|k: int| 0 <= k < old(self).users().len()
                    ==> (#[trigger] old(self).users()[k]).email@ != request.email@,
            r matches Err(e) ==> e == ServerError::UserNotFound || e == ServerError::InvalidCredentials
                || e == ServerError::InternalError,
            r is Err ==> final(self).users() == old(self).users(),
            forall|i: int| 0 <= i < old(self).users().len() && (#[trigger] old(self).users()[i]).email@ == request.email@ ==> {
                let u = old(self).users()[i];
                let v = final(self).users()[i];
                &&& bcrypt_check(request.password@, u.password@) == Some(false)
                    <==> r == Err::<AuthResponse, ServerError>(ServerError::InvalidCredentials)
                &&& bcrypt_check(request.password@, u.password@) is None
                    <==> r == Err::<AuthResponse, ServerError>(ServerError::InternalError)
                &&& bcrypt_check(request.password@, u.password@) == Some(true) <==> r is Ok
                &&& r is Ok ==> {
                    &&& touched(u, v, v.last_online)
                    &&& v.last_online >= 0
                    &&& forall|k: int| 0 <= k < old(self).users().len() && k != i
                        ==> final(self).users()[k] == old(self).users()[k]
                    &&& is_uuid_v7_text(r->Ok_0.session_id@)
                    &&& auth_success(old(self).secret(), r->Ok_0, u.id, v.last_online)
                }
            },
    {
        let i = match self.state.db.find_by_email(&request.email) {
            Some(i) => i,
            None => return Err(ServerError::UserNotFound),
        };
        let valid = match verify_password(request.password.as_str(), self.state.db.get(i).password.as_str()) {
            Ok(b) => b,
            Err(e) => return Err(e),
        };
        if !valid {
            return Err(ServerError::InvalidCredentials);
        }
        let id = self.state.db.get(i).id;
        let now = now_timestamp();
        let device_id = new_device_id();
        let token = generate_token_at(self.state.secret_key(), id, device_id.as_str(), now);
        self.state.db.set_last_online(i, now);
        Ok(AuthResponse { token, session_id: device_id, success: true, error_message: String::new() })
    }

    /// Ends a session at time `now`: succeeds exactly for a token valid then,
    /// and fails with `Unauthorized` otherwise. No record changes.
    pub fn logout_at(&self, request: LogoutRequest, now: i64) -> (r: Result<StatusResponse, ServerError>)
        ensures
            acknowledged(self.secret(), request.token@, now, r, "Successfully logged out"@),
    {
        match validate_token_at(self.state.secret_key(), request.token.as_str(), now) {
            Ok(_) => Ok(StatusResponse { success: true, message: "Successfully logged out".to_owned() }),
            Err(e) => Err(e),
        }
    }

    /// Ends a session now (see `logout_at`).
    pub fn logout(&self, request: LogoutRequest) -> (r: Result<StatusResponse, ServerError>)
        ensures
            exists|now: i64| now >= 0 && acknowledged(self.secret(), request.token@, now, r, "Successfully logged out"@),
    {
        let now = now_timestamp();
        let token = Ghost(request.token@);
        let r = self.logout_at(request, now);
        assert(now >= 0 && acknowledged(self.secret(), token@, now, r, "Successfully logged out"@));
        r
    }

    /// Soft-deletes, at time `now`, the account a token was issued to: with a
    /// token valid then whose subject names a stored user, clears that
    /// record's active flag, whether or not it was already cleared. Fails
    /// with `Unauthorized` for a token not valid then or whose subject is not
    /// a number, and with `UserNotFound` when no record has that identifier;
    /// the records are then unchanged.
    pub fn delete_account_at(&mut self, request: DeleteAccountRequest, now: i64) -> (r: Result<StatusResponse, ServerError>)
        requires
            old(self).wf(),
        ensures
            final(self).wf(),
            final(self).secret() == old(self).secret(),
            deletion_outcome(old(self).secret(), old(self).users(), final(self).users(), request.token@, now, r),
    {
        let claims = match validate_token_at(self.state.secret_key(), request.token.as_str(), now) {
            Ok(c) => c,
            Err(e) => return Err(e),
        };
        let id = match user_id_of(claims.sub.as_str()) {
            Some(id) => id,
            None => return Err(ServerError::Unauthorized),
        };
        let i = match self.state.db.find_by_id(id) {
            Some(i) => i,
            None => return Err(ServerError::UserNotFound),
        };
        self.state.db.deactivate(i);
        Ok(StatusResponse { success: true, message: "Account successfully deleted".to_owned() })
    }

    /// Soft-deletes the account a token was issued to, now (see
    /// `delete_account_at`).
    pub fn delete_account(&mut self, request: DeleteAccountRequest) -> (r: Result<StatusResponse, ServerError>)
        requires
            old(self).wf(),
        ensures
            final(self).wf(),
            final(self).secret() == old(self).secret(),
            exists|now: i64| now >= 0 && deletion_outcome(
                old(self).secret(),
                old(self).users(),
                final(self).users(),
                request.token@,
                now,
                r,
            ),
    {
        let now = now_timestamp();
        let token = Ghost(request.token@);
        let r = self.delete_account_at(request, now);
        assert(now >= 0 && deletion_outcome(old(self).secret(), old(self).users(), self.users(), token@, now, r));
        r
    }

    /// Ends a device's session at time `now`: succeeds exactly for a token
    /// valid then, and fails with `Unauthorized` otherwise. No record changes.
    pub fn delete_session_at(&self, request: DeleteSessionRequest, now: i64) -> (r: Result<StatusResponse, ServerError>)
        ensures
            acknowledged(self.secret(), request.token@, now, r, "Session successfully deleted"@),
    {
        match validate_token_at(self.state.secret_key(), request.token.as_str(), now) {
            Ok(_) => Ok(StatusResponse { success: true, message: "Session successfully deleted".to_owned() }),
            Err(e) => Err(e),
        }
    }

    /// Ends a device's session now (see `delete_session_at`).
    pub fn delete_session(&self, request: DeleteSessionRequest) -> (r: Result<StatusResponse, ServerError>)
        ensures
            exists|now: i64| now >= 0 && acknowledged(self.secret(), request.token@, now, r, "Session successfully deleted"@),
    {
        let now = now_timestamp();
        let token = Ghost(request.token@);
        let r = self.delete_session_at(request, now);
        assert(now >= 0 && acknowledged(self.secret(), token@, now, r, "Session successfully deleted"@));
        r
    }
}

} // verus!
