//! Registration, login and token checks: what the user service decides
//! between its database and cache round trips.

use vstd::prelude::*;

use crate::auth::claim::AccessClaims;
use crate::auth::credential::{spec_verify_password, verify_password, PasswordHashAlgorithm};
use crate::models;
use crate::proto::{self, LoginResponse, RegisterResponse, VerifyTokenResponse};
use crate::text::{i64_to_decimal, int_decimal, lemma_parse_decimal_roundtrip, parse_i64, spec_parse_i64};
use vstd::string::StringExecFns;

verus! {

broadcast use vstd::string::group_string_axioms;

/// How a service call failed, by gRPC status code.
#[derive(Debug, Clone)]
pub enum ServiceError {
    AlreadyExists(String),
    NotFound(String),
    Unauthenticated(String),
    Internal(String),
}

/// The role new users get.
pub fn default_role() -> (res: &'static str)
    ensures
        res@ == "user"@,
{
    "user"
}

/// The access level tokens are issued with.
pub const DEFAULT_ACCESS_LEVEL: u32 = 0;

/// Registration goes ahead only with an unused user name and an unused email;
/// the user name is checked first.
pub fn check_registration(username_taken: bool, email_taken: bool) -> (res: Result<(), ServiceError>)
    ensures
        username_taken ==> (res matches Err(ServiceError::AlreadyExists(m)) && m@
            == "Username already exists"@),
        !username_taken && email_taken ==> (res matches Err(ServiceError::AlreadyExists(m)) && m@
            == "Email already exists"@),
        !username_taken && !email_taken ==> res is Ok,
{
    if username_taken {
        return Err(ServiceError::AlreadyExists("Username already exists".to_string()));
    }
    if email_taken {
        return Err(ServiceError::AlreadyExists("Email already exists".to_string()));
    }
    Ok(())
}

/// A login succeeds for an existing user whose stored hash the password
/// verifies against.
pub fn check_login(user: Option<models::User>, password: &str, algo: PasswordHashAlgorithm) -> (res:
    Result<models::User, ServiceError>)
    ensures
        match user {
            None => res matches Err(ServiceError::NotFound(m)) && m@ == "User not found"@,
            Some(u) => if spec_verify_password(password@, u.password_hash@, algo) {
                res matches Ok(v) && v == u
            } else {
                res matches Err(ServiceError::Unauthenticated(m)) && m@ == "Invalid password"@
            },
        },
{
    let user = match user {
        Some(u) => u,
        None => return Err(ServiceError::NotFound("User not found".to_string())),
    };
    if !verify_password(password, user.password_hash.as_str(), algo) {
        return Err(ServiceError::Unauthenticated("Invalid password".to_string()));
    }
    Ok(user)
}

/// The cache key under which an access token is kept.
pub fn access_cache_key(token: &str) -> (res: String)
    ensures
        res@ == "access:"@ + token@,
{
    let mut key = "access:".to_string();
    key.append(token);
    key
}

/// The cache key under which a refresh token is kept.
pub fn refresh_cache_key(token: &str) -> (res: String)
    ensures
        res@ == "refresh:"@ + token@,
{
    let mut key = "refresh:".to_string();
    key.append(token);
    key
}

/// The subject written into a user's tokens: the decimal user id.
pub fn token_subject(user_id: i64) -> (res: String)
    ensures
        res@ == int_decimal(user_id as int),
{
    i64_to_decimal(user_id)
}

/// The user id a token subject names.
pub fn subject_user_id(sub: &str) -> (res: Result<i64, ServiceError>)
    ensures
        match spec_parse_i64(sub@) {
            Some(id) => res == Ok::<i64, ServiceError>(id),
            None => res matches Err(ServiceError::Internal(m)) && m@ == "Invalid user ID in token"@,
        },
{
    match parse_i64(sub) {
        Some(id) => Ok(id),
        None => Err(ServiceError::Internal("Invalid user ID in token".to_string())),
    }
}

/// The subject a token is issued with names the same user when it is read
/// back.
pub proof fn lemma_subject_roundtrip(user_id: i64)
    ensures
        spec_parse_i64(int_decimal(user_id as int)) == Some(user_id),
{
    lemma_parse_decimal_roundtrip(user_id);
}

/// What a token check does next once the cache and the token itself have
/// been checked.
#[derive(Debug, Clone)]
pub enum VerifyTokenNext {
    /// Answer at once.
    Respond(VerifyTokenResponse),
    /// Look up the user with this id, then answer with `verify_token_response`.
    LookUpUser(i64),
    /// Fail the call.
    Fail(ServiceError),
}

/// A token that is not cached, or does not validate (`claims` is `None`), is
/// answered as invalid; otherwise the user named by its subject is looked up,
/// and a subject that is not a user id fails the call.
pub fn after_token_checks(cached: bool, claims: Option<AccessClaims>) -> (res: VerifyTokenNext)
    ensures
        !cached ==> (res matches VerifyTokenNext::Respond(r) && !r.valid && r.user is None),
        cached && claims is None ==> (res matches VerifyTokenNext::Respond(r) && !r.valid
            && r.user is None),
        cached && claims is Some ==> match spec_parse_i64(claims->Some_0.sub@) {
            Some(id) => res matches VerifyTokenNext::LookUpUser(i) && i == id,
            None => res matches VerifyTokenNext::Fail(ServiceError::Internal(m)) && m@
                == "Invalid user ID in token"@,
        },
{
    if !cached {
        return VerifyTokenNext::Respond(invalid_token_response());
    }
    match claims {
        None => VerifyTokenNext::Respond(invalid_token_response()),
        Some(c) => match subject_user_id(c.sub.as_str()) {
            Ok(id) => VerifyTokenNext::LookUpUser(id),
            Err(e) => VerifyTokenNext::Fail(e),
        },
    }
}

/// Answer to a registration: the new user and its access token.
pub fn register_response(user: &models::User, token: String) -> (res: RegisterResponse)
    ensures
        res.user matches Some(u) && proto::user_message_of(u, *user),
        res.token == token,
{
    RegisterResponse { user: Some(proto::User::from_model(user)), token }
}

/// Answer to a login: the user, its access token, and the access lifetime.
pub fn login_response(user: &models::User, token: String, access_ttl_secs: i64) -> (res:
    LoginResponse)
    ensures
        res.user matches Some(u) && proto::user_message_of(u, *user),
        res.token == token,
        res.expires_in == access_ttl_secs,
{
    LoginResponse { user: Some(proto::User::from_model(user)), token, expires_in: access_ttl_secs }
}

/// Answer to a token check: valid with the user when the user still exists,
/// invalid without a user otherwise.
pub fn verify_token_response(user: Option<&models::User>) -> (res: VerifyTokenResponse)
    ensures
        res.valid == (user is Some),
        match user {
            Some(u) => res.user matches Some(p) && proto::user_message_of(p, *u),
            None => res.user is None,
        },
{
    match user {
        Some(u) => VerifyTokenResponse { valid: true, user: Some(proto::User::from_model(u)) },
        None => VerifyTokenResponse { valid: false, user: None },
    }
}

/// Answer to a check of a token that is not cached or does not validate.
pub fn invalid_token_response() -> (res: VerifyTokenResponse)
    ensures
        !res.valid,
        res.user is None,
{
    VerifyTokenResponse { valid: false, user: None }
}

} // verus!
