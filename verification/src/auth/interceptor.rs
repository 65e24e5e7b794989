//! Authorization of incoming gRPC calls.

use vstd::prelude::*;

use std::sync::Arc;

use crate::auth::claim::AccessClaims;
use crate::auth::context::ClaimContext;
use crate::auth::jwt_manager::{
    access_claims_complete, expires_after_ceiling, passes_claim_checks, JwtConfig, JwtError,
    JwtManager,
};
use crate::json::{spec_i64_field, spec_str_field, spec_u64_field, JsonValue};
use crate::auth::key::JwtKeys;
use crate::auth::whitelist::{default_method_paths, default_whitelist, MethodWhitelist};
use crate::text::{chars_of, has_prefix, starts_with_chars, string_from};

verus! {

broadcast use vstd::string::group_string_axioms;

/// Why a call was refused.
#[derive(Debug, Clone)]
pub enum AuthError {
    /// No readable `authorization` header.
    MissingAuthorization,
    /// The header does not start with `Bearer `.
    InvalidAuthorizationFormat,
    /// The bearer token did not validate; the text says why.
    ValidationFailed(String),
}

/// `"Bearer "`
pub open spec fn bearer_prefix() -> Seq<char> {
    seq!['B', 'e', 'a', 'r', 'e', 'r', ' ']
}

/// The method name a call is checked under: the `method` header, or the empty
/// text when there is none.
pub open spec fn method_name(method: Option<&str>) -> Seq<char> {
    match method {
        Some(m) => m@,
        None => Seq::empty(),
    }
}

/// The token of an `authorization` header of the form `Bearer <token>`.
pub fn bearer_token(header: &str) -> (res: Option<String>)
    ensures
        match res {
            Some(token) => has_prefix(header@, bearer_prefix()) && token@ == header@.skip(7),
            None => !has_prefix(header@, bearer_prefix()),
        },
{
    let chars = chars_of(header);
    let prefix: Vec<char> = vec!['B', 'e', 'a', 'r', 'e', 'r', ' '];
    assert(prefix@ =~= bearer_prefix());
    if !starts_with_chars(&chars, &prefix) {
        return None;
    }
    Some(string_from(&chars, 7))
}

/// The caller context of validated access claims.
pub fn context_from_claims(claims: AccessClaims) -> (res: ClaimContext)
    ensures
        res.user_id == claims.sub,
        res.user_name == claims.name,
        res.role == claims.role,
        res.access_level == claims.acl,
        res.jti == claims.jti,
        res.issued_at == claims.iat,
        res.expires_at == claims.exp,
{
    ClaimContext::new(
        claims.sub,
        claims.name,
        claims.role,
        claims.acl,
        claims.jti,
        claims.iat,
        claims.exp,
    )
}

/// Checks calls against a whitelist and, for other methods, a bearer token.
#[derive(Clone)]
pub struct AuthIpInterceptor {
    pub jwt: Arc<JwtManager>,
    pub whitelist: MethodWhitelist,
}

impl AuthIpInterceptor {
    /// An interceptor with the default whitelist.
    pub fn new(jwt: Arc<JwtManager>) -> (res: Self)
        ensures
            res.jwt == jwt,
            res.whitelist@ == default_method_paths(),
    {
        AuthIpInterceptor { jwt, whitelist: default_whitelist() }
    }

    /// An interceptor over a new token manager with the default whitelist.
    pub fn from_jwt_config(config: JwtConfig, keys: JwtKeys) -> (res: Self)
        ensures
            res.jwt.config == config,
            res.jwt.keys == keys,
            res.whitelist@ == default_method_paths(),
    {
        let manager = JwtManager::new(config, keys);
        Self::new(Arc::new(manager))
    }

    /// Whether deciding a call needs its bearer token validated: the method
    /// is not whitelisted and the `authorization` header has the `Bearer `
    /// form.
    pub open spec fn needs_token_check(&self, method: Option<&str>, authorization: Option<&str>) -> bool {
        &&& !self.whitelist@.contains(method_name(method))
        &&& authorization matches Some(header) && has_prefix(header@, bearer_prefix())
    }

    /// The answer to a call: whitelisted methods pass with no caller; other
    /// calls without header are refused as `MissingAuthorization`, with a
    /// header not of the form `Bearer <token>` as `InvalidAuthorizationFormat`;
    /// otherwise the answer is that of an outcome of validating the token.
    pub open spec fn authorized(
        &self,
        method: Option<&str>,
        authorization: Option<&str>,
        res: Result<Option<ClaimContext>, AuthError>,
    ) -> bool {
        if self.whitelist@.contains(method_name(method)) {
            res matches Ok(None)
        } else {
            match authorization {
                None => res matches Err(AuthError::MissingAuthorization),
                Some(header) => if !has_prefix(header@, bearer_prefix()) {
                    res matches Err(AuthError::InvalidAuthorizationFormat)
                } else {
                    exists|r: Result<AccessClaims, JwtError>|
                        #![trigger validation_answer(r)]
                        self.jwt.access_validated(header@.skip(7), r) && res == validation_answer(r)
                },
            }
        }
    }

    /// Decides a call: whitelisted methods pass with no caller (`Ok(None)`);
    /// other calls need an `authorization` header of the form `Bearer <token>`
    /// whose token validates as an access token, and pass with its caller.
    /// The verifying key and the clock skew are needed only for the token.
    pub fn authorize(&self, method: Option<&str>, authorization: Option<&str>) -> (res: Result<
        Option<ClaimContext>,
        AuthError,
    >)
        requires
            self.needs_token_check(method, authorization) ==> self.jwt.keys.can_decode()
                && self.jwt.leeway_in_range(),
        ensures
            self.authorized(method, authorization, res),
    {
        let whitelisted = self.is_whitelisted(method);
        if whitelisted {
            return Ok(None);
        }
        let header = match authorization {
            Some(h) => h,
            None => return Err(AuthError::MissingAuthorization),
        };
        let token = match bearer_token(header) {
            Some(t) => t,
            None => return Err(AuthError::InvalidAuthorizationFormat),
        };
        let outcome = self.jwt.validate_access(token.as_str());
        let res = answer_for_validation(outcome);
        assert(self.jwt.access_validated(header@.skip(7), outcome) && res == validation_answer(outcome));
        res
    }

    /// Whether the method a call is checked under is whitelisted.
    fn is_whitelisted(&self, method: Option<&str>) -> (res: bool)
        ensures
            res == self.whitelist@.contains(method_name(method)),
    {
        match method {
            Some(m) => self.whitelist.contains(m),
            None => {
                proof {
                    reveal_strlit("");
                }
                assert(""@ =~= Seq::<char>::empty());
                self.whitelist.contains("")
            },
        }
    }

    /// Decides a call like `authorize`, unless its token must be validated
    /// and the verifying key cannot be derived or the clock skew is out of
    /// range: then `None`.
    pub fn try_authorize(&self, method: Option<&str>, authorization: Option<&str>) -> (res: Option<
        Result<Option<ClaimContext>, AuthError>,
    >)
        ensures
            res is None <==> (self.needs_token_check(method, authorization) && !(
            self.jwt.keys.can_decode() && self.jwt.leeway_in_range())),
            res matches Some(r) ==> self.authorized(method, authorization, r),
    {
        let needs_check = !self.is_whitelisted(method) && match authorization {
            Some(h) => bearer_token(h).is_some(),
            None => false,
        };
        if needs_check && !(self.jwt.keys.check_decodable() && self.jwt.check_leeway()) {
            None
        } else {
            Some(self.authorize(method, authorization))
        }
    }
}

/// `ctx` names the caller the claims document `doc` describes.
pub open spec fn context_read(doc: JsonValue, ctx: ClaimContext) -> bool {
    &&& spec_str_field(doc, "sub"@) == Some(ctx.user_id@)
    &&& spec_str_field(doc, "name"@) == Some(ctx.user_name@)
    &&& spec_str_field(doc, "role"@) == Some(ctx.role@)
    &&& spec_u64_field(doc, "acl"@) == Some(ctx.access_level as u64)
    &&& spec_str_field(doc, "jti"@) == Some(ctx.jti@)
    &&& spec_i64_field(doc, "iat"@) == Some(ctx.issued_at)
    &&& spec_i64_field(doc, "exp"@) == Some(ctx.expires_at)
}

/// A call to a method outside the whitelist with a `Bearer` token whose
/// verified payload carries every access claim and passes every check but
/// expiry is let through with the caller the payload names, whatever its
/// access level, or refused as expired; it is refused for no other reason,
/// and not at all when the token expires after the clock ceiling.
pub proof fn lemma_valid_bearer_token_passes(
    i: AuthIpInterceptor,
    method: Option<&str>,
    header: &str,
    doc: JsonValue,
    res: Result<Option<ClaimContext>, AuthError>,
)
    requires
        i.authorized(method, Some(header), res),
        !i.whitelist@.contains(method_name(method)),
        has_prefix(header@, bearer_prefix()),
        i.jwt.verified_payload(header@.skip(7)) == Some(doc),
        i.jwt.config.algorithm.family() == i.jwt.keys.spec_decoding_key().0,
        passes_claim_checks(doc, i.jwt.config.issuer@, i.jwt.config.issuer@),
        access_claims_complete(doc),
    ensures
        match res {
            Ok(Some(ctx)) => context_read(doc, ctx),
            Err(AuthError::ValidationFailed(m)) => m@ == "ExpiredSignature"@,
            _ => false,
        },
        expires_after_ceiling(doc) ==> res matches Ok(Some(_)),
{
    let r = choose|r: Result<AccessClaims, JwtError>|
        #![trigger validation_answer(r)]
        i.jwt.access_validated(header@.skip(7), r) && res == validation_answer(r);
    assert(i.jwt.access_validated(header@.skip(7), r) && res == validation_answer(r));
}

/// The answer to a call whose bearer token was validated with outcome `r`:
/// the caller context of accepted claims, or `ValidationFailed` with the
/// refusal's text.
pub open spec fn validation_answer(r: Result<AccessClaims, JwtError>) -> Result<Option<ClaimContext>, AuthError> {
    match r {
        Ok(c) => Ok(
            Some(
                ClaimContext {
                    user_id: c.sub,
                    user_name: c.name,
                    role: c.role,
                    access_level: c.acl,
                    jti: c.jti,
                    issued_at: c.iat,
                    expires_at: c.exp,
                },
            ),
        ),
        Err(e) => Err(AuthError::ValidationFailed(e.message)),
    }
}

/// Answers a call whose bearer token was validated with outcome `r`.
pub fn answer_for_validation(r: Result<AccessClaims, JwtError>) -> (res: Result<Option<ClaimContext>, AuthError>)
    ensures
        res == validation_answer(r),
{
    match r {
        Ok(claims) => Ok(Some(context_from_claims(claims))),
        Err(e) => Err(AuthError::ValidationFailed(e.message)),
    }
}

} // verus!
