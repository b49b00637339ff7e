use vstd::prelude::*;

use crate::error::FactorioopsError;
use crate::models::DbUser;
use crate::passwords::{argon2_verifies, argon2_verify_password};

verus! {

/// A login attempt.
#[derive(Debug)]
pub struct AuthLoginRequest {
    /// The username of the user attempting to log in.
    pub username: String,
    /// The password of the user attempting to log in.
    pub password: String,
}

/// The answer to a successful login.
#[derive(Debug)]
pub struct AuthLoginResponse {
    /// The access token (a JWT) issued for the authenticated user.
    pub access_token: String,
    /// The number of seconds until the access token expires.
    pub expires_in: u64,
}

/// Why a login was refused.
#[derive(Debug, Clone, Copy, PartialEq, Eq, Structural)]
pub enum LoginRejection {
    /// Looking the user up failed.
    InternalServerError,
    /// The credentials were not accepted.
    Unauthorized,
}

impl LoginRejection {
    /// The HTTP status code of the refusal.
    pub fn status_code(&self) -> (code: u16)
        ensures
            *self == LoginRejection::InternalServerError ==> code == 500,
            *self == LoginRejection::Unauthorized ==> code == 401,
    {
        match self {
            LoginRejection::InternalServerError => 500,
            LoginRejection::Unauthorized => 401,
        }
    }
}

/// Seconds for which an issued token is valid.
pub const TOKEN_LIFETIME_SECS: u64 = 3600;

/// The answer to a login, given the outcome of looking its user up,
/// whether the password verified against the found user's stored hash, and
/// the access token issued for that user: a failed lookup is an internal
/// error; a found user whose hash the password verifies against gets the
/// token, valid for an hour; anything else (no such user, or a wrong
/// password) is unauthorized.
pub fn login(
    lookup: Result<Option<DbUser>, FactorioopsError>,
    password_matches: bool,
    access_token: String,
) -> (res: Result<AuthLoginResponse, LoginRejection>)
    ensures
        lookup is Err ==> res == Err::<AuthLoginResponse, LoginRejection>(
            LoginRejection::InternalServerError,
        ),
        lookup matches Ok(found) ==> (res is Ok <==> (found is Some && password_matches)),
        lookup is Ok && !(res is Ok) ==> res == Err::<AuthLoginResponse, LoginRejection>(
            LoginRejection::Unauthorized,
        ),
        res matches Ok(r) ==> r.access_token@ == access_token@ && r.expires_in
            == TOKEN_LIFETIME_SECS,
{
    match lookup {
        Err(_) => Err(LoginRejection::InternalServerError),
        Ok(None) => Err(LoginRejection::Unauthorized),
        Ok(Some(_)) => {
            if password_matches {
                Ok(AuthLoginResponse { access_token, expires_in: TOKEN_LIFETIME_SECS })
            } else {
                Err(LoginRejection::Unauthorized)
            }
        },
    }
}

/// Authenticates a login attempt against the outcome of looking its user
/// up: the password is verified against the found user's stored hash.
/// Succeeds exactly when a user was found and the password verifies, and
/// then hands out the given access token; a failed lookup is an internal
/// error, everything else is unauthorized.
pub fn authenticate(
    req: &AuthLoginRequest,
    lookup: Result<Option<DbUser>, FactorioopsError>,
    access_token: String,
) -> (res: Result<AuthLoginResponse, LoginRejection>)
    ensures
        lookup is Err ==> res == Err::<AuthLoginResponse, LoginRejection>(
            LoginRejection::InternalServerError,
        ),
        lookup is Ok ==> (res is Ok <==> (lookup matches Ok(Some(u)) && argon2_verifies(
            req.password@,
            u.password_hash.0@,
        ))),
        lookup is Ok && !(res is Ok) ==> res == Err::<AuthLoginResponse, LoginRejection>(
            LoginRejection::Unauthorized,
        ),
        res matches Ok(r) ==> r.access_token@ == access_token@ && r.expires_in
            == TOKEN_LIFETIME_SECS,
{
    let password_matches = match &lookup {
        Ok(Some(user)) => argon2_verify_password(req.password.as_str(), user.password_hash.0.as_str()),
        _ => false,
    };
    login(lookup, password_matches, access_token)
}

} // verus!
