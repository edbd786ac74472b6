use vstd::prelude::*;

use crate::clock::now_timestamp;
use crate::errors::ServerError;

verus! {

/// Seconds a freshly issued session token stays valid.
pub const TOKEN_TTL: u32 = 3600;

/// What a session token carries: its subject (a user id in decimal), its
/// expiry in seconds since the Unix epoch, and the device it was issued for.
pub struct Claims {
    pub sub: String,
    pub exp: i64,
    pub device_id: String,
}

impl View for Claims {
    type V = (Seq<char>, i64, Seq<char>);

    open spec fn view(&self) -> (Seq<char>, i64, Seq<char>) {
        (self.sub@, self.exp, self.device_id@)
    }
}

/// The compact HS256 token that signing the claims `{sub, exp, device_id}`
/// with `secret` yields.
pub uninterp spec fn hs256_token(secret: Seq<char>, sub: Seq<char>, exp: i64, device_id: Seq<char>) -> Seq<char>;

/// The claims `(sub, exp, device_id)` of `token` when it is well formed and
/// its HS256 signature holds under `secret`; expiry is not consulted.
pub uninterp spec fn hs256_claims(secret: Seq<char>, token: Seq<char>) -> Option<(Seq<char>, i64, Seq<char>)>;

/// Relies on jsonwebtoken::encode with an HS256 header and
/// EncodingKey::from_secret: the token depends on the secret and the claims
/// alone, and jsonwebtoken::decode with the same secret reads the same claims
/// back (its required `exp` claim is read as an unsigned number). Signing
/// cannot fail here: the key and the header are of the same family, the
/// claims are a map with string keys, and HMAC signing always succeeds.
#[verifier::external_body]
fn sign_claims(secret: &str, sub: &str, exp: i64, device_id: &str) -> (r: Option<String>)
    ensures
        r is Some,
        r is Some ==> r->Some_0@ == hs256_token(secret@, sub@, exp, device_id@),
        r is Some && exp >= 0 ==> hs256_claims(secret@, r->Some_0@) == Some((sub@, exp, device_id@)),
{
    let mut claims = serde_json::Map::new();
    claims.insert("sub".to_string(), serde_json::Value::from(sub));
    claims.insert("exp".to_string(), serde_json::Value::from(exp));
    claims.insert("device_id".to_string(), serde_json::Value::from(device_id));
    let key = jsonwebtoken::EncodingKey::from_secret(secret.as_bytes());
    let header = jsonwebtoken::Header::new(jsonwebtoken::Algorithm::HS256);
    jsonwebtoken::encode(&header, &claims, &key).ok()
}

/// Relies on jsonwebtoken::decode with HS256, DecodingKey::from_secret and
/// expiry checking switched off: whether the token is accepted, and the claims
/// read from it, depend on the secret and the token alone.
#[verifier::external_body]
fn open_token(secret: &str, token: &str) -> (r: Option<Claims>)
    ensures
        r matches Some(c) ==> hs256_claims(secret@, token@) == Some(c@),
        r is None ==> hs256_claims(secret@, token@) is None,
{
    let mut validation = jsonwebtoken::Validation::new(jsonwebtoken::Algorithm::HS256);
    validation.validate_exp = false;
    let key = jsonwebtoken::DecodingKey::from_secret(secret.as_bytes());
    let data = jsonwebtoken::decode::<serde_json::Map<String, serde_json::Value>>(token, &key, &validation).ok()?;
    let sub = data.claims.get("sub")?.as_str()?.to_string();
    let exp = data.claims.get("exp")?.as_i64()?;
    let device_id = data.claims.get("device_id")?.as_str()?.to_string();
    Some(Claims { sub, exp, device_id })
}

/// The decimal digits of `n`, most significant first.
pub open spec fn digits_of(n: nat) -> Seq<char>
    decreases n,
{
    let last = (('0' as u8) + n % 10) as char;
    if n < 10 {
        seq![last]
    } else {
        digits_of(n / 10).push(last)
    }
}

/// The decimal text of `n`: its digits, after a minus sign when negative.
pub open spec fn decimal_of(n: i32) -> Seq<char> {
    if n < 0 {
        seq!['-'] + digits_of((-n) as nat)
    } else {
        digits_of(n as nat)
    }
}

/// What `str::parse::<i32>` reads from `s`, if it reads a number.
pub uninterp spec fn parsed_i32(s: Seq<char>) -> Option<i32>;

/// Relies on `i32`'s `to_string`, which writes the number in decimal, and
/// on `str::parse::<i32>` reading the same number back from that text.
#[verifier::external_body]
fn subject_of(id: i32) -> (r: String)
    ensures
        r@ == decimal_of(id),
        parsed_i32(r@) == Some(id),
{
    id.to_string()
}

/// Relies on `str::parse::<i32>`: the number written in `s`, if any.
#[verifier::external_body]
pub(crate) fn user_id_of(s: &str) -> (r: Option<i32>)
    ensures
        r == parsed_i32(s@),
{
    s.parse::<i32>().ok()
}

/// The expiry of a token issued at `now` for `ttl` seconds, held at `i64::MAX`.
pub open spec fn expiry_after(now: i64, ttl: u32) -> i64 {
    if now + ttl > i64::MAX {
        i64::MAX
    } else {
        (now + ttl) as i64
    }
}

/// The claims a token is valid for at time `now`: its signature holds and
/// `now` lies strictly before its expiry.
pub open spec fn valid_claims_at(secret: Seq<char>, token: Seq<char>, now: i64) -> Option<(Seq<char>, i64, Seq<char>)> {
    match hs256_claims(secret, token) {
        Some(c) => if now < c.1 {
            Some(c)
        } else {
            None
        },
        None => None,
    }
}

/// Issues a token for `sub` and `device_id` at time `now`, expiring `ttl`
/// seconds later. With a non-negative expiry, the token validates to exactly
/// these claims at every instant before its expiry, and to nothing from its
/// expiry on.
pub fn issue_token_at(secret: &str, sub: &str, device_id: &str, ttl: u32, now: i64) -> (r: String)
    ensures
        r@ == hs256_token(secret@, sub@, expiry_after(now, ttl), device_id@),
        expiry_after(now, ttl) >= 0 ==> forall|later: i64| later < expiry_after(now, ttl)
            ==> #[trigger] valid_claims_at(secret@, r@, later) == Some((sub@, expiry_after(now, ttl), device_id@)),
        expiry_after(now, ttl) >= 0 ==> forall|later: i64| later >= expiry_after(now, ttl)
            ==> #[trigger] valid_claims_at(secret@, r@, later) is None,
{
    let exp: i64 = if now > i64::MAX - (ttl as i64) {
        i64::MAX
    } else {
        now + ttl as i64
    };
    sign_claims(secret, sub, exp, device_id).unwrap()
}

/// The token handed out for user `id` at time `now`, bound to device
/// `device_id`, valid for `TOKEN_TTL` seconds.
pub open spec fn session_token(secret: Seq<char>, id: i32, now: i64, device_id: Seq<char>) -> Seq<char> {
    hs256_token(secret, decimal_of(id), expiry_after(now, TOKEN_TTL), device_id)
}

/// `token` is the session of user `user_id` on device `device_id` issued at
/// `issued`: it validates to them at every instant before `TOKEN_TTL`
/// seconds have passed, and to nothing from then on.
pub open spec fn grants_session(secret: Seq<char>, token: Seq<char>, user_id: i32, issued: i64, device_id: Seq<char>) -> bool {
    &&& forall|later: i64| later < expiry_after(issued, TOKEN_TTL)
        ==> #[trigger] valid_claims_at(secret, token, later)
            == Some((decimal_of(user_id), expiry_after(issued, TOKEN_TTL), device_id))
    &&& forall|later: i64| later >= expiry_after(issued, TOKEN_TTL)
        ==> #[trigger] valid_claims_at(secret, token, later) is None
}

/// Issues the session token of user `user_id` on device `device_id` at time
/// `now`; issued after the epoch, it grants that session.
pub fn generate_token_at(secret: &str, user_id: i32, device_id: &str, now: i64) -> (r: String)
    ensures
        r@ == session_token(secret@, user_id, now, device_id@),
        now >= 0 ==> grants_session(secret@, r@, user_id, now, device_id@),
        parsed_i32(decimal_of(user_id)) == Some(user_id),
{
    let subject = subject_of(user_id);
    issue_token_at(secret, subject.as_str(), device_id, TOKEN_TTL, now)
}

/// Issues the session token of user `user_id` on device `device_id`, valid
/// for `TOKEN_TTL` seconds from now (see `generate_token_at`).
pub fn generate_token(secret: &str, user_id: i32, device_id: &str) -> (r: String)
    ensures
        exists|now: i64| now >= 0 && r@ == session_token(secret@, user_id, now, device_id@)
            && grants_session(secret@, r@, user_id, now, device_id@),
{
    let now = now_timestamp();
    let r = generate_token_at(secret, user_id, device_id, now);
    assert(now >= 0 && r@ == session_token(secret@, user_id, now, device_id@)
        && grants_session(secret@, r@, user_id, now, device_id@));
    r
}

/// A token is never accepted at or after the expiry it carries, however its
/// signature stands.
pub proof fn lemma_expired_token_rejected(secret: Seq<char>, token: Seq<char>, now: i64)
    requires
        hs256_claims(secret, token) matches Some(c) && now >= c.1,
    ensures
        valid_claims_at(secret, token, now) is None,
{
}

/// Checks `token` at time `now`: its claims when its signature holds under
/// `secret` and it has not expired, `Unauthorized` otherwise.
pub fn validate_token_at(secret: &str, token: &str, now: i64) -> (r: Result<Claims, ServerError>)
    ensures
        r matches Ok(c) ==> valid_claims_at(secret@, token@, now) == Some(c@),
        r is Err ==> valid_claims_at(secret@, token@, now) is None,
        r matches Err(e) ==> e == ServerError::Unauthorized,
{
    match open_token(secret, token) {
        Some(c) => if now < c.exp {
            Ok(c)
        } else {
            Err(ServerError::Unauthorized)
        },
        None => Err(ServerError::Unauthorized),
    }
}

/// Checks `token` against the current time (see `validate_token_at`).
pub fn validate_token(secret: &str, token: &str) -> (r: Result<Claims, ServerError>)
    ensures
        r matches Ok(c) ==> hs256_claims(secret@, token@) == Some(c@),
        r matches Ok(c) ==> exists|now: i64| now >= 0 && valid_claims_at(secret@, token@, now) == Some(c@),
        r is Err ==> exists|now: i64| now >= 0 && valid_claims_at(secret@, token@, now) is None,
        hs256_claims(secret@, token@) is None ==> r is Err,
        r matches Err(e) ==> e == ServerError::Unauthorized,
{
    let now = now_timestamp();
    let r = validate_token_at(secret, token, now);
    assert(now >= 0 && (r matches Ok(c) ==> valid_claims_at(secret@, token@, now) == Some(c@)));
    assert(now >= 0 && (r is Err ==> valid_claims_at(secret@, token@, now) is None));
    r
}

} // verus!
