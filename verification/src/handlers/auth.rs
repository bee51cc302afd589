//! Token issue: credential checks and token generation.

use crate::config::JwtConfig;
use crate::errors::{reason_of, status_of, ApiError};
use crate::middleware::jwt::Claims;
use crate::models::User;
use crate::handlers::user::{registers, InputUser};
use crate::models::NewUser;
use crate::password::{argon2_accepts, argon2_verify};
use crate::token::{add_seconds, max_timestamp, min_timestamp, is_token_char, jwt_claims, jwt_encode, jwt_token, utc_now_timestamp};
use vstd::prelude::*;
use vstd::utf8::encode_utf8;

verus! {

/// Login request.
pub struct LoginRequest {
    pub email: String,
    pub password: String,
}

/// Login answer.
pub struct LoginResponse {
    pub token: String,
}

/// Outcome of checking `password` against the user record that the lookup by
/// email found (`None` when it found none): the record when its hash verifies
/// the password, otherwise invalid credentials.
pub open spec fn authentication(found: Option<User>, password: Seq<char>) -> Result<User, ApiError> {
    match found {
        Some(user) => if argon2_accepts(password, user.hashed_password@) {
            Ok(user)
        } else {
            Err(ApiError::InvalidCredentials {})
        },
        None => Err(ApiError::InvalidCredentials {}),
    }
}

/// Seconds a token lives: a day.
pub const TOKEN_LIFETIME: i64 = 86400;

/// Seconds a token lives: a day.
pub open spec fn token_lifetime() -> int {
    TOKEN_LIFETIME as int
}

/// The `exp` claim of a token issued at `now` (seconds since the epoch), as the
/// unsigned 64-bit integer that the claim is written as.
pub open spec fn token_expiration(now: i64) -> u64 {
    (now + token_lifetime()) as u64
}

/// The bytes of the signing secret.
pub open spec fn secret_bytes(cfg: JwtConfig) -> Seq<u8> {
    encode_utf8(cfg.secret@)
}

/// A token is signed with the whole configured secret: all the bytes of its UTF-8
/// encoding.
pub proof fn secret_is_the_whole_configured_secret(cfg: JwtConfig)
    ensures
        secret_bytes(cfg) == encode_utf8(cfg.secret@),
        secret_bytes(cfg).len() == encode_utf8(cfg.secret@).len(),
{
}

/// A token issued at `now` expires 86400 seconds (a day) later, wherever that time
/// is a valid claim.
pub proof fn token_expires_a_day_after_issue(now: i64)
    requires
        0 <= now + 86400,
    ensures
        token_expiration(now) == now + 86400,
{
}

/// `token` is the token issued for subject `sub`, expiring at `exp`, signed with
/// `secret`: made of base64url parts and dots, and giving back `sub` and `exp`
/// when decoded with the same secret.
pub open spec fn issued_token(token: Seq<char>, sub: Seq<char>, exp: u64, secret: Seq<u8>) -> bool {
    &&& token == jwt_token(sub, exp, secret)
    &&& forall|i: int| 0 <= i < token.len() ==> #[trigger] is_token_char(token[i])
    &&& jwt_claims(encode_utf8(token), secret) == Some((sub, exp))
}

/// Checks a password against the user record found by email (`None` when the
/// lookup found none).
pub fn authenticate_user(found: Option<User>, credentials: LoginRequest) -> (r: Result<User, ApiError>)
    ensures
        r == authentication(found, credentials.password@),
{
    match found {
        Some(user) => {
            if argon2_verify(credentials.password.as_str(), user.hashed_password.as_str()) {
                Ok(user)
            } else {
                Err(ApiError::InvalidCredentials {})
            }
        },
        None => Err(ApiError::InvalidCredentials {}),
    }
}

/// Issues a token for `user`, as if the time were `now`: subject is the user's
/// email, expiration a day after `now`.
///
/// Fails with `InvalidTimestamp` exactly when `now` or a day after it is out of the
/// calendar's range (years -262143 to 262142).
pub fn generate_jwt_token_at(user: &User, jwt_cfg: &JwtConfig, now: i64) -> (r: Result<String, ApiError>)
    ensures
        match r {
            Ok(token) => issued_token(token@, user.email@, token_expiration(now), secret_bytes(*jwt_cfg)),
            Err(e) => e is InvalidTimestamp,
        },
        r matches Ok(token) ==> jwt_claims(encode_utf8(token@), encode_utf8(jwt_cfg.secret@))
            == Some((user.email@, (now + 86400) as u64)),
        r is Ok <==> (min_timestamp() <= now && now + 86400 <= max_timestamp()),
{
    let expiration = match add_seconds(now, TOKEN_LIFETIME) {
        Some(t) => t,
        None => return Err(ApiError::InvalidTimestamp {}),
    };
    let claims = Claims { sub: user.email.clone(), exp: expiration as u64 };
    let secret = jwt_cfg.secret.as_str().as_bytes();
    match jwt_encode(&claims, secret) {
        Ok(token) => Ok(token),
        Err(message) => Err(ApiError::Jwt { message }),
    }
}

/// Issues a token for `user` at the current time.
pub fn generate_jwt_token(user: &User, jwt_cfg: &JwtConfig) -> (r: Result<String, ApiError>)
    ensures
        match r {
            Ok(token) => exists|now: i64|
                issued_token(token@, user.email@, #[trigger] token_expiration(now), secret_bytes(*jwt_cfg))
                && jwt_claims(encode_utf8(token@), encode_utf8(jwt_cfg.secret@))
                    == Some((user.email@, (now + 86400) as u64)),
            Err(e) => e is InvalidTimestamp,
        },
{
    let now = utc_now_timestamp();
    let r = generate_jwt_token_at(user, jwt_cfg, now);
    proof {
        if r is Ok {
            assert(issued_token(r->Ok_0@, user.email@, token_expiration(now), secret_bytes(*jwt_cfg)));
        }
    }
    r
}

/// Answers a token request, given the user record the lookup by email found
/// (`None` when it found none): a token for that user when the password
/// verifies, otherwise invalid credentials.
pub fn token(found: Option<User>, credentials: LoginRequest, jwt_cfg: &JwtConfig) -> (r: Result<LoginResponse, ApiError>)
    ensures
        match authentication(found, credentials.password@) {
            Ok(user) => match r {
                Ok(response) => exists|now: i64|
                    issued_token(response.token@, user.email@, #[trigger] token_expiration(now), secret_bytes(*jwt_cfg))
                    && jwt_claims(encode_utf8(response.token@), encode_utf8(jwt_cfg.secret@))
                        == Some((user.email@, (now + 86400) as u64)),
                Err(e) => e is InvalidTimestamp,
            },
            Err(e) => r == Err::<LoginResponse, ApiError>(e),
        },
{
    let user = match authenticate_user(found, credentials) {
        Ok(user) => user,
        Err(e) => return Err(e),
    };
    match generate_jwt_token(&user, jwt_cfg) {
        Ok(token) => Ok(LoginResponse { token }),
        Err(e) => Err(e),
    }
}

/// A user who registered can log in with the password they registered with: the
/// stored record of the registration passes the credential check.
pub proof fn registered_password_authenticates(item: InputUser, new_user: NewUser, stored: User)
    requires
        registers(item, new_user),
        stored.hashed_password@ == new_user.hashed_password@,
    ensures
        authentication(Some(stored), item.password@) == Ok::<User, ApiError>(stored),
{
}

/// An unknown email and a wrong password get the same answer: 400, "Invalid credentials".
pub proof fn unknown_email_answered_like_wrong_password(user: User, password: Seq<char>)
    requires
        !argon2_accepts(password, user.hashed_password@),
    ensures
        authentication(None, password) == authentication(Some(user), password),
        authentication(None, password) matches Err(e) && status_of(e) == 400
            && reason_of(e) == "Invalid credentials"@,
{
}

} // verus!
