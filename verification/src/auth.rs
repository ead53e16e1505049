//! The login endpoint's decision and response.
//!
//! Logging in means: find the user by email, check the password against
//! its stored hash, and only then issue a token. The check itself and the
//! token signing are the caller's library calls; whether they may happen,
//! and what the client is told, is decided here.

use crate::users::UserRecord;
use vstd::prelude::*;

verus! {

/// What a login request carries.
#[derive(Debug, Clone)]
pub struct LoginParams {
    /// Login email.
    pub email: String,
    /// Password, in the clear, to be checked against the stored hash.
    pub password: String,
}

/// What a successful login returns.
#[derive(Debug, Clone)]
pub struct LoginResponse {
    /// The signed token the client will present.
    pub token: String,
    /// Public identifier of the user.
    pub pid: String,
    /// Display name of the user.
    pub name: String,
    /// Whether the account is verified.
    pub is_verified: bool,
}

impl LoginResponse {
    /// The response announcing `token` for `user`.
    pub fn new(user: &UserRecord, token: &String) -> (r: LoginResponse)
        ensures
            r.token@ == token@,
            r.pid@ == user.pid@,
            r.name@ == user.name@,
            r.is_verified == true,
    {
        LoginResponse {
            token: token.clone(),
            pid: user.pid.clone(),
            name: user.name.clone(),
            is_verified: true,
        }
    }
}

/// Whether a login attempt may proceed to token issuance: only when a
/// user with the given email was found and the password matched its hash.
pub fn login_allowed(user_found: bool, password_ok: bool) -> (r: bool)
    ensures
        r == (user_found && password_ok),
{
    user_found && password_ok
}

} // verus!
