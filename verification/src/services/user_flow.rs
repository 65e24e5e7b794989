//! The user service's calls as state machines: each step takes what the
//! database or the cache answered and says what to do next. The caller
//! performs each action (a lookup, an insert, a cache write or check) and hands
//! back its outcome, until the step answers the call or fails it.

use vstd::prelude::*;

use crate::auth::claim::AccessClaims;
use crate::auth::credential::{hash_password, spec_hash_password, PasswordHashAlgorithm};
use crate::auth::jwt_manager::{JwtError, JwtManager};
use crate::models;
use crate::proto::{self, LoginResponse, RegisterResponse, VerifyTokenResponse};
use crate::services::user::{
    access_cache_key, check_login, check_registration, default_role, login_response,
    refresh_cache_key, register_response, subject_user_id, token_subject, verify_token_response,
    after_token_checks, invalid_token_response, ServiceError, VerifyTokenNext, DEFAULT_ACCESS_LEVEL,
};
use crate::auth::credential::{spec_verify_password, verify_password};
use crate::text::{int_decimal, spec_parse_i64};
use vstd::string::StringExecFns;

verus! {

broadcast use vstd::string::group_string_axioms;

/// What the caller is asked to do next.
#[derive(Debug, Clone)]
pub enum ServiceAction {
    /// Look up the user with this user name.
    FindUserByUsername(String),
    /// Look up the user with this email.
    FindUserByEmail(String),
    /// Look up the user with this id.
    FindUserById(i64),
    /// Insert a new user.
    CreateUser { username: String, email: String, password_hash: String, role: String },
    /// Keep `key` in the cache for `ttl_secs` seconds, with the user id as
    /// value.
    CacheToken { key: String, user_id: i64, ttl_secs: i64 },
    /// Check whether `key` is in the cache.
    CheckCachedKey(String),
    /// Answer a registration.
    RespondRegister(RegisterResponse),
    /// Answer a login.
    RespondLogin(LoginResponse),
    /// Answer a token check.
    RespondVerifyToken(VerifyTokenResponse),
    /// Fail the call.
    Fail(ServiceError),
}

/// The outcome of an action, handed back to the next step.
#[derive(Debug, Clone)]
pub enum ServiceEvent {
    /// A user lookup answered.
    UserFound(Option<models::User>),
    /// The new user was inserted.
    UserCreated(models::User),
    /// The cache write was done.
    TokenCached,
    /// The cache check answered.
    CacheChecked(bool),
}

/// `"unexpected event"`
pub open spec fn unexpected_event_message() -> Seq<char> {
    "unexpected event"@
}

/// `"Failed to generate access token: "`
pub open spec fn access_token_failure() -> Seq<char> {
    "Failed to generate access token: "@
}

/// `"Failed to generate refresh token: "`
pub open spec fn refresh_token_failure() -> Seq<char> {
    "Failed to generate refresh token: "@
}

/// `action` fails the call as an internal error with message `m`.
pub open spec fn fails_internally(action: ServiceAction, m: Seq<char>) -> bool {
    action matches ServiceAction::Fail(ServiceError::Internal(t)) && t@ == m
}

/// `action` caches `token` under `prefix` for the user for `ttl` seconds.
pub open spec fn caches(action: ServiceAction, prefix: Seq<char>, token: Seq<char>, user_id: i64, ttl: i64) -> bool {
    action matches ServiceAction::CacheToken { key, user_id: id, ttl_secs } && key@ == prefix + token
        && id == user_id && ttl_secs == ttl
}

fn internal_error(prefix: &str, detail: &str) -> (res: ServiceError)
    ensures
        res matches ServiceError::Internal(m) && m@ == prefix@ + detail@,
{
    let mut message = prefix.to_string();
    message.append(detail);
    ServiceError::Internal(message)
}

fn unexpected_event() -> (res: ServiceAction)
    ensures
        fails_internally(res, unexpected_event_message()),
{
    ServiceAction::Fail(ServiceError::Internal("unexpected event".to_string()))
}

/// Where a registration stands.
#[derive(Debug, Clone)]
pub enum RegisterStage {
    AwaitUsernameCheck,
    AwaitEmailCheck,
    AwaitCreation,
    /// The access token is being cached; then the call is answered.
    AwaitCaching(RegisterResponse),
    Finished,
}

/// A registration in progress.
#[derive(Debug, Clone)]
pub struct RegisterFlow {
    pub username: String,
    pub email: String,
    pub password: String,
    pub algorithm: PasswordHashAlgorithm,
    pub stage: RegisterStage,
}

/// After the new user's access token was signed with outcome `r`: cache it
/// and then answer with the user and the token, or fail the call.
pub open spec fn register_after_signing(
    jwt: JwtManager,
    user: models::User,
    r: Result<String, JwtError>,
    next: RegisterStage,
    action: ServiceAction,
) -> bool {
    match r {
        Ok(t) => {
            &&& next matches RegisterStage::AwaitCaching(resp) && resp.token == t
                && (resp.user matches Some(u) && proto::user_message_of(u, user))
            &&& caches(action, "access:"@, t@, user.id, jwt.config.access_ttl_secs)
        },
        Err(e) => next is Finished && fails_internally(action, access_token_failure() + e.message@),
    }
}

/// The step of a registration at `flow` on `event`, `now` being the current
/// epoch second: the user name is checked, then the email, then the user is
/// created with the hashed password and the default role, its access token
/// is signed and cached, and the call is answered.
pub open spec fn register_next(
    flow: RegisterFlow,
    jwt: JwtManager,
    now: i64,
    event: ServiceEvent,
    next: RegisterFlow,
    action: ServiceAction,
) -> bool {
    &&& next.username == flow.username
    &&& next.email == flow.email
    &&& next.password == flow.password
    &&& next.algorithm == flow.algorithm
    &&& match (flow.stage, event) {
        (RegisterStage::AwaitUsernameCheck, ServiceEvent::UserFound(Some(_))) => next.stage is Finished
            && (action matches ServiceAction::Fail(ServiceError::AlreadyExists(m))
            && m@ == "Username already exists"@),
        (RegisterStage::AwaitUsernameCheck, ServiceEvent::UserFound(None)) => next.stage is AwaitEmailCheck
            && (action matches ServiceAction::FindUserByEmail(e) && e == flow.email),
        (RegisterStage::AwaitEmailCheck, ServiceEvent::UserFound(Some(_))) => next.stage is Finished
            && (action matches ServiceAction::Fail(ServiceError::AlreadyExists(m))
            && m@ == "Email already exists"@),
        (RegisterStage::AwaitEmailCheck, ServiceEvent::UserFound(None)) => next.stage is AwaitCreation
            && (action matches ServiceAction::CreateUser { username, email, password_hash, role }
            && username == flow.username && email == flow.email
            && password_hash@ == spec_hash_password(flow.password@, flow.algorithm)
            && role@ == "user"@),
        (RegisterStage::AwaitCreation, ServiceEvent::UserCreated(user)) => exists|r: Result<String, JwtError>|
            #![trigger register_after_signing(jwt, user, r, next.stage, action)]
            jwt.access_signed(int_decimal(user.id as int), user.username@, user.role@, 0, now, r)
                && register_after_signing(jwt, user, r, next.stage, action),
        (RegisterStage::AwaitCaching(resp), ServiceEvent::TokenCached) => next.stage is Finished
            && action == ServiceAction::RespondRegister(resp),
        _ => next.stage is Finished && fails_internally(action, unexpected_event_message()),
    }
}

/// The step of a registration signs a token, which needs a signing key and
/// an expiry time that fits in an `i64`.
pub open spec fn register_signs(flow: RegisterFlow, event: ServiceEvent) -> bool {
    flow.stage is AwaitCreation && event is UserCreated
}

/// Signing an access token at `now` is possible with `jwt`.
pub open spec fn can_sign_access(jwt: JwtManager, now: i64) -> bool {
    jwt.keys.can_encode() && i64::MIN <= now + jwt.config.access_ttl_secs <= i64::MAX
}

/// Signing a refresh token at `now` is possible with `jwt`.
pub open spec fn can_sign_refresh(jwt: JwtManager, now: i64) -> bool {
    jwt.keys.can_encode() && i64::MIN <= now + jwt.config.refresh_ttl_secs <= i64::MAX
}

impl RegisterFlow {
    /// Starts a registration: the user name is looked up first.
    pub fn start(username: String, email: String, password: String, algorithm: PasswordHashAlgorithm) -> (res: (
        RegisterFlow,
        ServiceAction,
    ))
        ensures
            res.0.username == username,
            res.0.email == email,
            res.0.password == password,
            res.0.algorithm == algorithm,
            res.0.stage is AwaitUsernameCheck,
            res.1 matches ServiceAction::FindUserByUsername(u) && u == username,
    {
        let action = ServiceAction::FindUserByUsername(username.clone());
        (RegisterFlow { username, email, password, algorithm, stage: RegisterStage::AwaitUsernameCheck }, action)
    }

    /// Takes one step of a registration.
    pub fn step(self, jwt: &JwtManager, now: i64, event: ServiceEvent) -> (res: (RegisterFlow, ServiceAction))
        requires
            register_signs(self, event) ==> can_sign_access(*jwt, now),
        ensures
            register_next(self, *jwt, now, event, res.0, res.1),
    {
        let RegisterFlow { username, email, password, algorithm, stage } = self;
        match (stage, event) {
            (RegisterStage::AwaitUsernameCheck, ServiceEvent::UserFound(found)) => {
                match check_registration(found.is_some(), false) {
                    Err(e) => (
                        RegisterFlow { username, email, password, algorithm, stage: RegisterStage::Finished },
                        ServiceAction::Fail(e),
                    ),
                    Ok(()) => {
                        let action = ServiceAction::FindUserByEmail(email.clone());
                        (
                            RegisterFlow { username, email, password, algorithm, stage: RegisterStage::AwaitEmailCheck },
                            action,
                        )
                    },
                }
            },
            (RegisterStage::AwaitEmailCheck, ServiceEvent::UserFound(found)) => {
                match check_registration(false, found.is_some()) {
                    Err(e) => (
                        RegisterFlow { username, email, password, algorithm, stage: RegisterStage::Finished },
                        ServiceAction::Fail(e),
                    ),
                    Ok(()) => {
                        let action = ServiceAction::CreateUser {
                            username: username.clone(),
                            email: email.clone(),
                            password_hash: hash_password(password.as_str(), algorithm),
                            role: default_role().to_string(),
                        };
                        (
                            RegisterFlow { username, email, password, algorithm, stage: RegisterStage::AwaitCreation },
                            action,
                        )
                    },
                }
            },
            (RegisterStage::AwaitCreation, ServiceEvent::UserCreated(user)) => {
                let r = jwt.sign_access(
                    token_subject(user.id).as_str(),
                    user.username.as_str(),
                    user.role.as_str(),
                    DEFAULT_ACCESS_LEVEL,
                    now,
                );
                let ghost r_seen = r;
                let (stage, action) = match r {
                    Ok(token) => {
                        let key = access_cache_key(token.as_str());
                        let resp = register_response(&user, token);
                        (
                            RegisterStage::AwaitCaching(resp),
                            ServiceAction::CacheToken { key, user_id: user.id, ttl_secs: jwt.config.access_ttl_secs },
                        )
                    },
                    Err(e) => (
                        RegisterStage::Finished,
                        ServiceAction::Fail(internal_error("Failed to generate access token: ", e.message.as_str())),
                    ),
                };
                assert(register_after_signing(*jwt, user, r_seen, stage, action));
                (RegisterFlow { username, email, password, algorithm, stage }, action)
            },
            (RegisterStage::AwaitCaching(resp), ServiceEvent::TokenCached) => (
                RegisterFlow { username, email, password, algorithm, stage: RegisterStage::Finished },
                ServiceAction::RespondRegister(resp),
            ),
            _ => (
                RegisterFlow { username, email, password, algorithm, stage: RegisterStage::Finished },
                unexpected_event(),
            ),
        }
    }

    /// Takes one step of a registration, unless it must sign a token and the
    /// signing key cannot be derived or the expiry time overflows: then
    /// `None`.
    pub fn try_step(self, jwt: &JwtManager, now: i64, event: ServiceEvent) -> (res: Option<(RegisterFlow, ServiceAction)>)
        ensures
            res is None <==> (register_signs(self, event) && !can_sign_access(*jwt, now)),
            res matches Some(r) ==> register_next(self, *jwt, now, event, r.0, r.1),
    {
        let signs = match (&self.stage, &event) {
            (RegisterStage::AwaitCreation, ServiceEvent::UserCreated(_)) => true,
            _ => false,
        };
        if signs && !(jwt.keys.check_encodable() && now.checked_add(jwt.config.access_ttl_secs).is_some()) {
            None
        } else {
            Some(self.step(jwt, now, event))
        }
    }
}

/// Where a login stands.
#[derive(Debug, Clone)]
pub enum LoginStage {
    AwaitUser,
    /// The access token is being cached; then the refresh token is.
    AwaitAccessCaching { refresh_token: String, user_id: i64, response: LoginResponse },
    /// The refresh token is being cached; then the call is answered.
    AwaitRefreshCaching(LoginResponse),
    Finished,
}

/// A login in progress.
#[derive(Debug, Clone)]
pub struct LoginFlow {
    pub username: String,
    pub password: String,
    pub algorithm: PasswordHashAlgorithm,
    pub stage: LoginStage,
}

/// After the refresh token was signed with outcome `r`, the access token
/// being `access`: cache the access token, or fail the call.
pub open spec fn login_after_refresh(
    jwt: JwtManager,
    user: models::User,
    access: String,
    r: Result<String, JwtError>,
    next: LoginStage,
    action: ServiceAction,
) -> bool {
    match r {
        Ok(t) => {
            &&& next matches LoginStage::AwaitAccessCaching { refresh_token, user_id, response }
                && refresh_token == t && user_id == user.id && response.token == access
                && response.expires_in == jwt.config.access_ttl_secs
                && (response.user matches Some(p) && proto::user_message_of(p, user))
            &&& caches(action, "access:"@, access@, user.id, jwt.config.access_ttl_secs)
        },
        Err(e) => next is Finished && fails_internally(action, refresh_token_failure() + e.message@),
    }
}

/// After the access token was signed with outcome `r`: sign the refresh
/// token, or fail the call.
pub open spec fn login_after_access(
    jwt: JwtManager,
    now: i64,
    user: models::User,
    r: Result<String, JwtError>,
    next: LoginStage,
    action: ServiceAction,
) -> bool {
    match r {
        Ok(access) => exists|r2: Result<String, JwtError>|
            #![trigger login_after_refresh(jwt, user, access, r2, next, action)]
            jwt.refresh_signed(int_decimal(user.id as int), user.username@, user.role@, 0, now, r2)
                && login_after_refresh(jwt, user, access, r2, next, action),
        Err(e) => next is Finished && fails_internally(action, access_token_failure() + e.message@),
    }
}

/// The step of a login at `flow` on `event`: the user is looked up by name,
/// the password verified against the stored hash, an access and a refresh
/// token signed, the access token cached and then the refresh token, and the
/// call is answered with the user, the access token and its lifetime.
pub open spec fn login_next(
    flow: LoginFlow,
    jwt: JwtManager,
    now: i64,
    event: ServiceEvent,
    next: LoginFlow,
    action: ServiceAction,
) -> bool {
    &&& next.username == flow.username
    &&& next.password == flow.password
    &&& next.algorithm == flow.algorithm
    &&& match (flow.stage, event) {
        (LoginStage::AwaitUser, ServiceEvent::UserFound(None)) => next.stage is Finished
            && (action matches ServiceAction::Fail(ServiceError::NotFound(m)) && m@ == "User not found"@),
        (LoginStage::AwaitUser, ServiceEvent::UserFound(Some(user))) => if spec_verify_password(
            flow.password@,
            user.password_hash@,
            flow.algorithm,
        ) {
            exists|r: Result<String, JwtError>|
                #![trigger login_after_access(jwt, now, user, r, next.stage, action)]
                jwt.access_signed(int_decimal(user.id as int), user.username@, user.role@, 0, now, r)
                    && login_after_access(jwt, now, user, r, next.stage, action)
        } else {
            next.stage is Finished && (action matches ServiceAction::Fail(
                ServiceError::Unauthenticated(m),
            ) && m@ == "Invalid password"@)
        },
        (LoginStage::AwaitAccessCaching { refresh_token, user_id, response }, ServiceEvent::TokenCached) => {
            &&& next.stage == LoginStage::AwaitRefreshCaching(response)
            &&& caches(action, "refresh:"@, refresh_token@, user_id, jwt.config.refresh_ttl_secs)
        },
        (LoginStage::AwaitRefreshCaching(response), ServiceEvent::TokenCached) => next.stage is Finished
            && action == ServiceAction::RespondLogin(response),
        _ => next.stage is Finished && fails_internally(action, unexpected_event_message()),
    }
}

/// The step of a login signs tokens: the user was found and the password
/// verifies.
pub open spec fn login_signs(flow: LoginFlow, event: ServiceEvent) -> bool {
    &&& flow.stage is AwaitUser
    &&& event matches ServiceEvent::UserFound(Some(user))
        && spec_verify_password(flow.password@, user.password_hash@, flow.algorithm)
}

impl LoginFlow {
    /// Starts a login: the user is looked up by name.
    pub fn start(username: String, password: String, algorithm: PasswordHashAlgorithm) -> (res: (
        LoginFlow,
        ServiceAction,
    ))
        ensures
            res.0.username == username,
            res.0.password == password,
            res.0.algorithm == algorithm,
            res.0.stage is AwaitUser,
            res.1 matches ServiceAction::FindUserByUsername(u) && u == username,
    {
        let action = ServiceAction::FindUserByUsername(username.clone());
        (LoginFlow { username, password, algorithm, stage: LoginStage::AwaitUser }, action)
    }

    /// Takes one step of a login.
    pub fn step(self, jwt: &JwtManager, now: i64, event: ServiceEvent) -> (res: (LoginFlow, ServiceAction))
        requires
            login_signs(self, event) ==> can_sign_access(*jwt, now) && can_sign_refresh(*jwt, now),
        ensures
            login_next(self, *jwt, now, event, res.0, res.1),
    {
        let LoginFlow { username, password, algorithm, stage } = self;
        match (stage, event) {
            (LoginStage::AwaitUser, ServiceEvent::UserFound(found)) => {
                let user = match check_login(found, password.as_str(), algorithm) {
                    Ok(u) => u,
                    Err(e) => {
                        return (
                            LoginFlow { username, password, algorithm, stage: LoginStage::Finished },
                            ServiceAction::Fail(e),
                        );
                    },
                };
                let subject = token_subject(user.id);
                let r1 = jwt.sign_access(
                    subject.as_str(),
                    user.username.as_str(),
                    user.role.as_str(),
                    DEFAULT_ACCESS_LEVEL,
                    now,
                );
                let ghost r1_seen = r1;
                let (stage, action) = match r1 {
                    Err(e) => (
                        LoginStage::Finished,
                        ServiceAction::Fail(internal_error("Failed to generate access token: ", e.message.as_str())),
                    ),
                    Ok(access) => {
                        let r2 = jwt.sign_refresh(
                            subject.as_str(),
                            user.username.as_str(),
                            user.role.as_str(),
                            DEFAULT_ACCESS_LEVEL,
                            now,
                        );
                        let ghost r2_seen = r2;
                        let ghost access_seen = access;
                        let (stage, action) = match r2 {
                            Err(e) => (
                                LoginStage::Finished,
                                ServiceAction::Fail(
                                    internal_error("Failed to generate refresh token: ", e.message.as_str()),
                                ),
                            ),
                            Ok(refresh) => {
                                let key = access_cache_key(access.as_str());
                                let response = login_response(&user, access, jwt.config.access_ttl_secs);
                                (
                                    LoginStage::AwaitAccessCaching { refresh_token: refresh, user_id: user.id, response },
                                    ServiceAction::CacheToken { key, user_id: user.id, ttl_secs: jwt.config.access_ttl_secs },
                                )
                            },
                        };
                        assert(login_after_refresh(*jwt, user, access_seen, r2_seen, stage, action));
                        (stage, action)
                    },
                };
                assert(login_after_access(*jwt, now, user, r1_seen, stage, action));
                (LoginFlow { username, password, algorithm, stage }, action)
            },
            (LoginStage::AwaitAccessCaching { refresh_token, user_id, response }, ServiceEvent::TokenCached) => {
                let key = refresh_cache_key(refresh_token.as_str());
                (
                    LoginFlow { username, password, algorithm, stage: LoginStage::AwaitRefreshCaching(response) },
                    ServiceAction::CacheToken { key, user_id, ttl_secs: jwt.config.refresh_ttl_secs },
                )
            },
            (LoginStage::AwaitRefreshCaching(response), ServiceEvent::TokenCached) => (
                LoginFlow { username, password, algorithm, stage: LoginStage::Finished },
                ServiceAction::RespondLogin(response),
            ),
            _ => (LoginFlow { username, password, algorithm, stage: LoginStage::Finished }, unexpected_event()),
        }
    }

    /// Takes one step of a login, unless it must sign tokens and the signing
    /// key cannot be derived or an expiry time overflows: then `None`.
    pub fn try_step(self, jwt: &JwtManager, now: i64, event: ServiceEvent) -> (res: Option<(LoginFlow, ServiceAction)>)
        ensures
            res is None <==> (login_signs(self, event) && !(can_sign_access(*jwt, now) && can_sign_refresh(
                *jwt,
                now,
            ))),
            res matches Some(r) ==> login_next(self, *jwt, now, event, r.0, r.1),
    {
        let signs = match (&self.stage, &event) {
            (LoginStage::AwaitUser, ServiceEvent::UserFound(Some(user))) => verify_password(
                self.password.as_str(),
                user.password_hash.as_str(),
                self.algorithm,
            ),
            _ => false,
        };
        if signs && !(jwt.keys.check_encodable() && now.checked_add(jwt.config.access_ttl_secs).is_some()
            && now.checked_add(jwt.config.refresh_ttl_secs).is_some()) {
            None
        } else {
            Some(self.step(jwt, now, event))
        }
    }
}

/// Where a token check stands.
#[derive(Debug, Clone)]
pub enum VerifyTokenStage {
    AwaitCacheCheck,
    AwaitUser,
    Finished,
}

/// A token check in progress.
#[derive(Debug, Clone)]
pub struct VerifyTokenFlow {
    pub token: String,
    pub stage: VerifyTokenStage,
}

/// `action` answers a token check as invalid.
pub open spec fn answers_invalid(action: ServiceAction) -> bool {
    action matches ServiceAction::RespondVerifyToken(r) && !r.valid && r.user is None
}

/// After the cached token was validated with outcome `r`: look up the user
/// its subject names, answer as invalid, or fail on a subject that is no user
/// id.
pub open spec fn verify_after_validation(r: Result<AccessClaims, JwtError>, next: VerifyTokenStage, action: ServiceAction) -> bool {
    match r {
        Err(_) => next is Finished && answers_invalid(action),
        Ok(c) => match spec_parse_i64(c.sub@) {
            Some(id) => next is AwaitUser && action == ServiceAction::FindUserById(id),
            None => next is Finished && fails_internally(action, "Invalid user ID in token"@),
        },
    }
}

/// The step of a token check at `flow` on `event`: a token that is not cached
/// is invalid; a cached one is validated, and the user its subject names is
/// looked up; the answer is valid, with the user, when the user exists.
pub open spec fn verify_token_next(
    flow: VerifyTokenFlow,
    jwt: JwtManager,
    event: ServiceEvent,
    next: VerifyTokenFlow,
    action: ServiceAction,
) -> bool {
    &&& next.token == flow.token
    &&& match (flow.stage, event) {
        (VerifyTokenStage::AwaitCacheCheck, ServiceEvent::CacheChecked(false)) => next.stage is Finished
            && answers_invalid(action),
        (VerifyTokenStage::AwaitCacheCheck, ServiceEvent::CacheChecked(true)) => exists|
            r: Result<AccessClaims, JwtError>,
        |
            #![trigger verify_after_validation(r, next.stage, action)]
            jwt.access_validated(flow.token@, r) && verify_after_validation(r, next.stage, action),
        (VerifyTokenStage::AwaitUser, ServiceEvent::UserFound(found)) => {
            &&& next.stage is Finished
            &&& action matches ServiceAction::RespondVerifyToken(r) && r.valid == (found is Some) && match found {
                Some(u) => r.user matches Some(p) && proto::user_message_of(p, u),
                None => r.user is None,
            }
        },
        _ => next.stage is Finished && fails_internally(action, unexpected_event_message()),
    }
}

/// The step of a token check validates the token: it is cached.
pub open spec fn verify_token_validates(flow: VerifyTokenFlow, event: ServiceEvent) -> bool {
    flow.stage is AwaitCacheCheck && event == ServiceEvent::CacheChecked(true)
}

impl VerifyTokenFlow {
    /// Starts a token check: whether the token is cached is checked first.
    pub fn start(token: String) -> (res: (VerifyTokenFlow, ServiceAction))
        ensures
            res.0.token == token,
            res.0.stage is AwaitCacheCheck,
            res.1 matches ServiceAction::CheckCachedKey(k) && k@ == "access:"@ + token@,
    {
        let action = ServiceAction::CheckCachedKey(access_cache_key(token.as_str()));
        (VerifyTokenFlow { token, stage: VerifyTokenStage::AwaitCacheCheck }, action)
    }

    /// Takes one step of a token check.
    pub fn step(self, jwt: &JwtManager, event: ServiceEvent) -> (res: (VerifyTokenFlow, ServiceAction))
        requires
            verify_token_validates(self, event) ==> jwt.keys.can_decode() && jwt.leeway_in_range(),
        ensures
            verify_token_next(self, *jwt, event, res.0, res.1),
    {
        let VerifyTokenFlow { token, stage } = self;
        match (stage, event) {
            (VerifyTokenStage::AwaitCacheCheck, ServiceEvent::CacheChecked(cached)) => {
                if !cached {
                    return (
                        VerifyTokenFlow { token, stage: VerifyTokenStage::Finished },
                        ServiceAction::RespondVerifyToken(invalid_token_response()),
                    );
                }
                let r = jwt.validate_access(token.as_str());
                let ghost r_seen = r;
                let claims = match r {
                    Ok(c) => Some(c),
                    Err(_) => None,
                };
                let (stage, action) = match after_token_checks(true, claims) {
                    VerifyTokenNext::Respond(response) => (
                        VerifyTokenStage::Finished,
                        ServiceAction::RespondVerifyToken(response),
                    ),
                    VerifyTokenNext::LookUpUser(id) => (VerifyTokenStage::AwaitUser, ServiceAction::FindUserById(id)),
                    VerifyTokenNext::Fail(e) => (VerifyTokenStage::Finished, ServiceAction::Fail(e)),
                };
                assert(verify_after_validation(r_seen, stage, action));
                (VerifyTokenFlow { token, stage }, action)
            },
            (VerifyTokenStage::AwaitUser, ServiceEvent::UserFound(found)) => (
                VerifyTokenFlow { token, stage: VerifyTokenStage::Finished },
                ServiceAction::RespondVerifyToken(verify_token_response(found.as_ref())),
            ),
            _ => (VerifyTokenFlow { token, stage: VerifyTokenStage::Finished }, unexpected_event()),
        }
    }

    /// Takes one step of a token check, unless it must validate the token and
    /// the verifying key cannot be derived or the clock skew is out of range:
    /// then `None`.
    pub fn try_step(self, jwt: &JwtManager, event: ServiceEvent) -> (res: Option<(VerifyTokenFlow, ServiceAction)>)
        ensures
            res is None <==> (verify_token_validates(self, event) && !(jwt.keys.can_decode()
                && jwt.leeway_in_range())),
            res matches Some(r) ==> verify_token_next(self, *jwt, event, r.0, r.1),
    {
        let validates = match (&self.stage, &event) {
            (VerifyTokenStage::AwaitCacheCheck, ServiceEvent::CacheChecked(true)) => true,
            _ => false,
        };
        if validates && !(jwt.keys.check_decodable() && jwt.check_leeway()) {
            None
        } else {
            Some(self.step(jwt, event))
        }
    }
}

} // verus!
