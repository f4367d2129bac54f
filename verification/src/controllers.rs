//! Request and response shapes of the authentication endpoints, and the
//! rulings those endpoints make.
//!
//! The transport layer parses requests, looks accounts up and stores them;
//! it hands the rulings here plain values — the request payload, what the
//! account lookup found, the signing configuration — and gets back either
//! the successful value or the status code and error body to answer with.
//! Failure detail stays coarse on purpose: a caller sees `unauthorized`,
//! `conflict` or an internal error, never which cryptographic check failed.

use vstd::prelude::*;

use crate::jwt::{claims_of, create_token_at, JwtConfig};
use crate::user_service::{digest_matches, RegisterError, UserService};

verus! {

/// Payload of a registration request.
#[derive(Debug)]
pub struct RegisterRequest {
    pub email: String,
    pub password: String,
}

/// Payload of a login request.
#[derive(Debug)]
pub struct LoginRequest {
    pub email: String,
    pub password: String,
}

/// An account as answered to callers; the digest never leaves the server.
#[derive(Debug)]
pub struct UserResponse {
    pub id: String,
    pub email: String,
    pub created_at: String,
}

/// Answer to a successful login: the issued token and the account.
#[derive(Debug)]
pub struct LoginResponse {
    pub token: String,
    pub user: UserResponse,
}

/// An error body: one coarse machine-readable word.
#[derive(Debug)]
pub struct ErrorResponse {
    pub error: String,
}

/// Whether the looked-up account authenticates the presented password: it
/// exists and its stored digest accepts the password.
pub open spec fn authenticated(account: Option<(&str, &str)>, password: Seq<char>) -> bool {
    match account {
        Some(a) => digest_matches(password, a.1@),
        None => false,
    }
}

/// The identifier of the looked-up account; empty when there is none.
pub open spec fn account_id(account: Option<(&str, &str)>) -> Seq<char> {
    match account {
        Some(a) => a.0@,
        None => Seq::empty(),
    }
}

/// Registration ruling: with the email already taken the request is refused
/// with 409 `user_already_exists`; otherwise it yields the digest to store
/// for the new account — one that accepts exactly the chosen password — or
/// 500 `internal_error` if hashing failed.
pub fn register(payload: &RegisterRequest, email_taken: bool) -> (r: Result<
    String,
    (u16, ErrorResponse),
>)
    ensures
        email_taken ==> (r matches Err(e) && e.0 == 409 && e.1.error@ == "user_already_exists"@),
        !email_taken ==> match r {
            Ok(d) => d@.len() == 60 && digest_matches(payload.password@, d@),
            Err(e) => e.0 == 500 && e.1.error@ == "internal_error"@,
        },
{
    match UserService::register(email_taken, payload.password.as_str()) {
        Ok(d) => Ok(d),
        Err(RegisterError::AlreadyExists) => Err(
            (409, ErrorResponse { error: String::from_str("user_already_exists") }),
        ),
        Err(RegisterError::Hashing) => Err(
            (500, ErrorResponse { error: String::from_str("internal_error") }),
        ),
    }
}

/// Login ruling over what the account lookup found — the account identifier
/// and stored digest, if the email is known — the signing configuration,
/// and the instant of the attempt. A missing account or a digest that does
/// not accept the password is 401 `invalid_credentials`, and no token is
/// issued; with credentials good but no signing secret configured it is 500
/// `jwt_not_configured`; otherwise a token is issued that names the account
/// as its subject and expires one configured lifetime after `now` — 500
/// `token_error` only where that expiry instant is not representable.
pub fn login(
    account: Option<(&str, &str)>,
    payload: &LoginRequest,
    jwt: &Option<JwtConfig>,
    now: u64,
) -> (r: Result<String, (u16, ErrorResponse)>)
    ensures
        !authenticated(account, payload.password@) ==> (r matches Err(e) && e.0 == 401
            && e.1.error@ == "invalid_credentials"@),
        authenticated(account, payload.password@) ==> match *jwt {
            None => (r matches Err(e) && e.0 == 500 && e.1.error@ == "jwt_not_configured"@),
            Some(cfg) => if now + cfg.exp_minutes * 60 <= u64::MAX {
                r matches Ok(t) && claims_of(t@, cfg.secret@) == Ok::<(Seq<char>, u64), bool>(
                    (account_id(account), (now + cfg.exp_minutes * 60) as u64),
                )
            } else {
                r matches Err(e) && e.0 == 500 && e.1.error@ == "token_error"@
            },
        },
{
    let (user_id, stored) = match account {
        Some(a) => a,
        None => {
            return Err((401, ErrorResponse { error: String::from_str("invalid_credentials") }));
        },
    };
    if !UserService::authenticate(Some(stored), payload.password.as_str()) {
        return Err((401, ErrorResponse { error: String::from_str("invalid_credentials") }));
    }
    let cfg = match jwt {
        Some(c) => c,
        None => {
            return Err((500, ErrorResponse { error: String::from_str("jwt_not_configured") }));
        },
    };
    match create_token_at(user_id, cfg, now) {
        Ok(t) => Ok(t),
        Err(_) => Err((500, ErrorResponse { error: String::from_str("token_error") })),
    }
}

/// Identity ruling: the account the guard's subject resolved to, or 401
/// `user_not_found` when the store no longer has it.
pub fn me(user: Option<UserResponse>) -> (r: Result<UserResponse, (u16, ErrorResponse)>)
    ensures
        user matches Some(u) ==> r matches Ok(ru) && ru == u,
        user is None ==> (r matches Err(e) && e.0 == 401 && e.1.error@ == "user_not_found"@),
{
    match user {
        Some(u) => Ok(u),
        None => Err((401, ErrorResponse { error: String::from_str("user_not_found") })),
    }
}

} // verus!
