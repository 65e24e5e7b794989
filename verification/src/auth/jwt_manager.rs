//! Issuing and validating access and refresh tokens.

use vstd::prelude::*;

use crate::auth::claim::{access_claims_json, refresh_claims_json, AccessClaims, RefreshClaims};
use crate::auth::key::{DecodingKey, EncodingKey, JwtKeys, KeyFamily};
use crate::json::{
    json_from_serde, json_i64_field, json_str_field, json_u64_field, spec_i64_field, spec_str_field,
    spec_u64_field, JsonValue,
};
use crate::text::has_prefix;
use crate::tools::utils::{generate_uuid, is_uuid_v4_text};
use vstd::string::StringExecFns;

verus! {

broadcast use vstd::string::group_string_axioms;

/// `jsonwebtoken::errors::Error`, carried opaquely.
#[verifier::external_type_specification]
#[verifier::external_body]
pub struct ExJsonWebTokenError(jsonwebtoken::errors::Error);

/// `jsonwebtoken::Algorithm`, carried opaquely.
#[verifier::external_type_specification]
#[verifier::external_body]
pub struct ExJsonWebTokenAlgorithm(jsonwebtoken::Algorithm);

/// Signature algorithms of JSON Web Tokens.
#[allow(non_camel_case_types)]
#[derive(Debug, Clone, Copy, PartialEq, Eq, Structural)]
pub enum JwtAlgorithm {
    HS256,
    HS384,
    HS512,
    ES256,
    ES384,
    RS256,
    RS384,
    RS512,
    PS256,
    PS384,
    PS512,
    EdDSA,
}

impl JwtAlgorithm {
    /// The kind of key the algorithm signs and verifies with.
    pub open spec fn family(self) -> KeyFamily {
        match self {
            JwtAlgorithm::HS256 | JwtAlgorithm::HS384 | JwtAlgorithm::HS512 => KeyFamily::Hmac,
            JwtAlgorithm::ES256 | JwtAlgorithm::ES384 => KeyFamily::Ec,
            JwtAlgorithm::EdDSA => KeyFamily::Ed,
            _ => KeyFamily::Rsa,
        }
    }

    /// Whether a signature depends on the message and key alone (no random
    /// nonce or salt): HMAC, RSA PKCS#1 v1.5 and EdDSA.
    pub open spec fn signs_deterministically(self) -> bool {
        match self {
            JwtAlgorithm::ES256 | JwtAlgorithm::ES384 => false,
            JwtAlgorithm::PS256 | JwtAlgorithm::PS384 | JwtAlgorithm::PS512 => false,
            _ => true,
        }
    }
}

/// Converts to `jsonwebtoken::Algorithm`, variant for variant.
#[verifier::external_body]
fn to_jsonwebtoken_algorithm(alg: JwtAlgorithm) -> jsonwebtoken::Algorithm {
    match alg {
        JwtAlgorithm::HS256 => jsonwebtoken::Algorithm::HS256,
        JwtAlgorithm::HS384 => jsonwebtoken::Algorithm::HS384,
        JwtAlgorithm::HS512 => jsonwebtoken::Algorithm::HS512,
        JwtAlgorithm::ES256 => jsonwebtoken::Algorithm::ES256,
        JwtAlgorithm::ES384 => jsonwebtoken::Algorithm::ES384,
        JwtAlgorithm::RS256 => jsonwebtoken::Algorithm::RS256,
        JwtAlgorithm::RS384 => jsonwebtoken::Algorithm::RS384,
        JwtAlgorithm::RS512 => jsonwebtoken::Algorithm::RS512,
        JwtAlgorithm::PS256 => jsonwebtoken::Algorithm::PS256,
        JwtAlgorithm::PS384 => jsonwebtoken::Algorithm::PS384,
        JwtAlgorithm::PS512 => jsonwebtoken::Algorithm::PS512,
        JwtAlgorithm::EdDSA => jsonwebtoken::Algorithm::EdDSA,
    }
}

/// The token `jsonwebtoken::encode` produces for a header with algorithm `alg`
/// and key id `kid`, the given JSON claims and key, or `None` when it fails.
pub uninterp spec fn jwt_signed_token(
    alg: JwtAlgorithm,
    kid: Option<Seq<char>>,
    claims_json: Seq<char>,
    family: KeyFamily,
    key: Seq<u8>,
) -> Option<Seq<char>>;

/// `jsonwebtoken::encode` with `Header::new(alg)` (plus `kid`), the claims JSON
/// taken verbatim, and a key built from the family and bytes. The claims are:
/// a key of another family than the algorithm's is refused, and for algorithms
/// without random nonce or salt the result is the token named by
/// `jwt_signed_token` (an error exactly where that name is `None`).
#[verifier::external_body]
fn jwt_encode(alg: JwtAlgorithm, kid: Option<String>, claims_json: &str, key: &EncodingKey) -> (res:
    Result<String, jsonwebtoken::errors::Error>)
    ensures
        alg.family() != key.family ==> res is Err,
        alg.signs_deterministically() ==> match res {
            Ok(t) => jwt_signed_token(alg, crate::text::opt_view(kid), claims_json@, key.family, key.content@)
                == Some(t@),
            Err(_) => jwt_signed_token(alg, crate::text::opt_view(kid), claims_json@, key.family, key.content@) is None,
        },
{
    let mut header = jsonwebtoken::Header::new(to_jsonwebtoken_algorithm(alg));
    header.kid = kid;
    let claims = serde_json::value::RawValue::from_string(claims_json.to_string())?;
    let key = match key.family {
        KeyFamily::Hmac => jsonwebtoken::EncodingKey::from_secret(&key.content),
        KeyFamily::Rsa => jsonwebtoken::EncodingKey::from_rsa_der(&key.content),
        KeyFamily::Ec => jsonwebtoken::EncodingKey::from_ec_der(&key.content),
        KeyFamily::Ed => jsonwebtoken::EncodingKey::from_ed_der(&key.content),
    };
    jsonwebtoken::encode(&header, &claims, &key)
}

/// The largest clock-skew allowance, in seconds, that validation accepts.
pub const MAX_LEEWAY_SECS: u64 = 1_000_000_000;

/// The epoch second the machine's clock is taken to be past: September 2001.
pub const CLOCK_FLOOR_SECS: u64 = 1_000_000_000;

/// The epoch second the machine's clock is taken to be before: the start of
/// the year 10000.
pub const CLOCK_CEILING_SECS: u64 = 253_402_300_800;

/// `doc` expires no earlier than the clock ceiling: it cannot have expired.
pub open spec fn expires_after_ceiling(doc: JsonValue) -> bool {
    spec_i64_field(doc, "exp"@) matches Some(exp) && exp >= CLOCK_CEILING_SECS
}

/// The claims document of `token` as `jsonwebtoken::decode` reads it when its
/// time-independent checks pass: the key's family is the algorithm's, the
/// token's header names `alg`, its signature verifies under `alg` with the
/// key of `family` and bytes `key`, its payload is a JSON document, and the
/// claims the validation reads (`exp`, `nbf`, `sub`, `iss`, `aud`, each at
/// most once) deserialize; `None` where any of these fails.
pub uninterp spec fn jwt_verified_payload(
    token: Seq<char>,
    alg: JwtAlgorithm,
    family: KeyFamily,
    key: Seq<u8>,
) -> Option<JsonValue>;

/// `doc` expired more than `leeway` seconds before the clock floor: its
/// `exp` is an integer below `CLOCK_FLOOR_SECS - leeway`.
pub open spec fn expired_before_floor(doc: JsonValue, leeway: int) -> bool {
    spec_i64_field(doc, "exp"@) matches Some(exp) && exp + leeway < CLOCK_FLOOR_SECS
}

/// The checks of the validation other than expiry pass on `doc`: `exp` is a
/// non-negative integer, `iss` is `issuer` and `aud` is `audience`.
pub open spec fn passes_claim_checks(doc: JsonValue, issuer: Seq<char>, audience: Seq<char>) -> bool {
    &&& spec_i64_field(doc, "exp"@) matches Some(exp) && exp >= 0
    &&& spec_str_field(doc, "iss"@) == Some(issuer)
    &&& spec_str_field(doc, "aud"@) == Some(audience)
}

/// `jsonwebtoken::decode` into a JSON document, with `Validation::new(alg)`
/// expecting `issuer` as issuer and `audience` as audience and allowing
/// `leeway` seconds of clock skew; the accepted payload is converted to a
/// `JsonValue`, a refusal to the `Display` text of the error. The claims are
/// what `decode` and its validation show:
/// - a key of another family than the algorithm's is refused, and so is a
///   token without a verified payload (`jwt_verified_payload`);
/// - an accepted payload is that verified payload, a string `iss` or `aud`
///   member in it is `issuer` or `audience`, and an integer `exp` in it is
///   not negative (a required claim that must read as a `u64`);
/// - the expiry check (`exp < now - leeway` refuses) runs on the current
///   epoch second `now`, which is past `CLOCK_FLOOR_SECS`: a payload whose
///   `exp` is below `CLOCK_FLOOR_SECS - leeway` is refused;
/// - a verified payload that passes the other checks can only be refused as
///   expired (`ExpiredSignature`), and is accepted when its `exp` is past
///   `CLOCK_CEILING_SECS`, which the current epoch second is below;
/// - a refusal's text has the form of a `jsonwebtoken` error text.
/// Whether a token is expired otherwise depends on the current time, which is
/// left unsaid. `leeway` is bounded by `MAX_LEEWAY_SECS`, below the clock
/// floor, so that `now - leeway` does not overflow.
#[verifier::external_body]
fn jwt_decode(
    token: &str,
    key: &DecodingKey,
    alg: JwtAlgorithm,
    issuer: &str,
    audience: &str,
    leeway: u64,
) -> (res: Result<JsonValue, String>)
    requires
        leeway <= MAX_LEEWAY_SECS,
    ensures
        alg.family() != key.family ==> res is Err,
        jwt_verified_payload(token@, alg, key.family, key.content@) is None ==> res is Err,
        res matches Ok(doc) ==> jwt_verified_payload(token@, alg, key.family, key.content@) == Some(doc),
        res matches Ok(doc) ==> (spec_str_field(doc, "iss"@) matches Some(s) ==> s == issuer@),
        res matches Ok(doc) ==> (spec_str_field(doc, "aud"@) matches Some(s) ==> s == audience@),
        res matches Ok(doc) ==> (spec_i64_field(doc, "exp"@) matches Some(e) ==> e >= 0),
        jwt_verified_payload(token@, alg, key.family, key.content@) matches Some(doc) ==> (
        expired_before_floor(doc, leeway as int) ==> res is Err),
        jwt_verified_payload(token@, alg, key.family, key.content@) matches Some(doc) ==> (
        alg.family() == key.family && passes_claim_checks(doc, issuer@, audience@) ==> (
        res matches Err(t) ==> t@ == "ExpiredSignature"@)),
        jwt_verified_payload(token@, alg, key.family, key.content@) matches Some(doc) ==> (
        alg.family() == key.family && passes_claim_checks(doc, issuer@, audience@)
            && expires_after_ceiling(doc) ==> res is Ok),
        res matches Err(t) ==> jwt_error_text_form(t@),
{
    let mut validation = jsonwebtoken::Validation::new(to_jsonwebtoken_algorithm(alg));
    validation.set_audience(&[audience]);
    validation.set_issuer(&[issuer]);
    validation.leeway = leeway;
    let key = match key.family {
        KeyFamily::Hmac => jsonwebtoken::DecodingKey::from_secret(&key.content),
        KeyFamily::Rsa => jsonwebtoken::DecodingKey::from_rsa_der(&key.content),
        KeyFamily::Ec => jsonwebtoken::DecodingKey::from_ec_der(&key.content),
        KeyFamily::Ed => jsonwebtoken::DecodingKey::from_ed_der(&key.content),
    };
    match jsonwebtoken::decode::<serde_json::Value>(token, &key, &validation) {
        Ok(data) => Ok(json_from_serde(&data.claims)),
        Err(e) => Err(e.to_string()),
    }
}

/// The forms the `Display` text of a `jsonwebtoken` error takes: the name of
/// a plain error kind, or a fixed prefix before the details of the kind.
pub open spec fn jwt_error_text_form(t: Seq<char>) -> bool {
    ||| t == "InvalidToken"@
    ||| t == "InvalidSignature"@
    ||| t == "InvalidEcdsaKey"@
    ||| t == "ExpiredSignature"@
    ||| t == "RsaFailedSigning"@
    ||| t == "MissingAlgorithm"@
    ||| t == "InvalidIssuer"@
    ||| t == "InvalidAudience"@
    ||| t == "InvalidSubject"@
    ||| t == "ImmatureSignature"@
    ||| t == "InvalidAlgorithm"@
    ||| t == "InvalidKeyFormat"@
    ||| t == "InvalidAlgorithmName"@
    ||| has_prefix(t, "Missing required claim: "@)
    ||| has_prefix(t, "RSA key invalid: "@)
    ||| has_prefix(t, "JSON error: "@)
    ||| has_prefix(t, "UTF-8 error: "@)
    ||| has_prefix(t, "Crypto error: "@)
    ||| has_prefix(t, "Base64 error: "@)
}

/// The `Display` text of a `jsonwebtoken` error. The claim is the form of
/// that text, as the crate's `Display` impl writes it; which kind of error,
/// and the details after a prefix, are left unsaid, the error being opaque
/// here.
#[verifier::external_body]
fn jwt_error_text(e: &jsonwebtoken::errors::Error) -> (res: String)
    ensures
        jwt_error_text_form(res@),
{
    e.to_string()
}

/// Why issuing or validating a token failed.
#[derive(Debug, Clone)]
pub struct JwtError {
    pub message: String,
}

fn jwt_error(e: jsonwebtoken::errors::Error) -> (res: JwtError)
    ensures
        jwt_error_text_form(res.message@),
{
    JwtError { message: jwt_error_text(&e) }
}

/// Token settings.
#[derive(Debug, Clone)]
pub struct JwtConfig {
    pub issuer: String,
    pub audience: String,
    pub access_ttl_secs: i64,
    pub refresh_ttl_secs: i64,
    pub skew_secs: i64,
    pub algorithm: JwtAlgorithm,
}

/// Issues and validates tokens with one configuration and key set.
#[derive(Debug, Clone)]
pub struct JwtManager {
    pub config: JwtConfig,
    pub keys: JwtKeys,
}

/// JSON of access claims given by their parts.
pub open spec fn access_json_of(
    sub: Seq<char>,
    name: Seq<char>,
    role: Seq<char>,
    acl: u32,
    iss: Seq<char>,
    aud: Seq<char>,
    iat: i64,
    nbf: i64,
    exp: i64,
    jti: Seq<char>,
) -> Seq<char> {
    "{\"sub\":"@ + crate::text::json_string(sub) + ",\"name\":"@ + crate::text::json_string(name)
        + ",\"role\":"@ + crate::text::json_string(role) + ",\"acl\":"@ + crate::text::int_decimal(
        acl as int,
    ) + ",\"iss\":"@ + crate::text::json_string(iss) + ",\"aud\":"@ + crate::text::json_string(aud)
        + ",\"iat\":"@ + crate::text::int_decimal(iat as int) + ",\"nbf\":"@
        + crate::text::int_decimal(nbf as int) + ",\"exp\":"@ + crate::text::int_decimal(exp as int)
        + ",\"jti\":"@ + crate::text::json_string(jti) + "}"@
}

/// JSON of refresh claims given by their parts.
pub open spec fn refresh_json_of(
    sub: Seq<char>,
    iss: Seq<char>,
    aud: Seq<char>,
    iat: i64,
    nbf: i64,
    exp: i64,
    jti: Seq<char>,
    typ: Seq<char>,
    name: Seq<char>,
    role: Seq<char>,
    acl: u32,
) -> Seq<char> {
    "{\"sub\":"@ + crate::text::json_string(sub) + ",\"iss\":"@ + crate::text::json_string(iss)
        + ",\"aud\":"@ + crate::text::json_string(aud) + ",\"iat\":"@ + crate::text::int_decimal(
        iat as int,
    ) + ",\"nbf\":"@ + crate::text::int_decimal(nbf as int) + ",\"exp\":"@
        + crate::text::int_decimal(exp as int) + ",\"jti\":"@ + crate::text::json_string(jti)
        + ",\"typ\":"@ + crate::text::json_string(typ) + ",\"name\":"@ + crate::text::json_string(
        name,
    ) + ",\"role\":"@ + crate::text::json_string(role) + ",\"acl\":"@ + crate::text::int_decimal(
        acl as int,
    ) + "}"@
}

/// `"refresh"`
pub open spec fn refresh_typ() -> Seq<char> {
    "refresh"@
}

/// `"r-"`
pub open spec fn refresh_jti_prefix() -> Seq<char> {
    "r-"@
}

impl JwtManager {
    pub fn new(config: JwtConfig, keys: JwtKeys) -> (res: Self)
        ensures
            res.config == config,
            res.keys == keys,
    {
        JwtManager { config, keys }
    }

    /// The token `sign` produces for a claims JSON under this manager's
    /// algorithm and keys (`None` when signing fails).
    pub open spec fn spec_token_for(&self, kid: Option<Seq<char>>, claims_json: Seq<char>) -> Option<
        Seq<char>,
    > {
        jwt_signed_token(
            self.config.algorithm,
            kid,
            claims_json,
            self.keys.spec_encoding_key().0,
            self.keys.spec_encoding_key().1,
        )
    }

    /// What a signing call may return for the given claims JSON: a refusal
    /// when the key does not suit the algorithm, and otherwise, for
    /// algorithms without random nonce or salt, exactly the named token.
    pub open spec fn signed_as(
        &self,
        kid: Option<Seq<char>>,
        claims_json: Seq<char>,
        res: Result<String, JwtError>,
    ) -> bool {
        &&& self.config.algorithm.family() != self.keys.spec_encoding_key().0 ==> res is Err
        &&& self.config.algorithm.signs_deterministically() ==> match res {
            Ok(t) => self.spec_token_for(kid, claims_json) == Some(t@),
            Err(_) => self.spec_token_for(kid, claims_json) is None,
        }
    }

    /// What signing an access token may return: for some fresh UUID token id,
    /// the outcome `signed_as` describes for the access claims.
    pub open spec fn access_signed(
        &self,
        user_id: Seq<char>,
        user_name: Seq<char>,
        role_name: Seq<char>,
        access_level: u32,
        now_epoch: i64,
        res: Result<String, JwtError>,
    ) -> bool {
        exists|jti: Seq<char>|
            #![trigger is_uuid_v4_text(jti)]
            is_uuid_v4_text(jti) && self.signed_as(
                self.keys.spec_kid(),
                access_json_of(
                    user_id,
                    user_name,
                    role_name,
                    access_level,
                    self.config.issuer@,
                    self.config.audience@,
                    now_epoch,
                    now_epoch,
                    (now_epoch + self.config.access_ttl_secs) as i64,
                    jti,
                ),
                res,
            )
    }

    /// What signing a refresh token may return: for some fresh UUID, the
    /// outcome `signed_as` describes for the refresh claims with token id
    /// `r-` and that UUID.
    pub open spec fn refresh_signed(
        &self,
        user_id: Seq<char>,
        user_name: Seq<char>,
        role_name: Seq<char>,
        access_level: u32,
        now_epoch: i64,
        res: Result<String, JwtError>,
    ) -> bool {
        exists|uuid: Seq<char>|
            #![trigger is_uuid_v4_text(uuid)]
            is_uuid_v4_text(uuid) && self.signed_as(
                None,
                refresh_json_of(
                    user_id,
                    self.config.issuer@,
                    self.config.audience@,
                    now_epoch,
                    now_epoch,
                    (now_epoch + self.config.refresh_ttl_secs) as i64,
                    refresh_jti_prefix() + uuid,
                    refresh_typ(),
                    user_name,
                    role_name,
                    access_level,
                ),
                res,
            )
    }

    /// The claims of an access token issued at `now_epoch`.
    pub fn access_claims(
        &self,
        user_id: &str,
        user_name: &str,
        role_name: &str,
        access_level: u32,
        now_epoch: i64,
        jti: String,
    ) -> (res: AccessClaims)
        requires
            i64::MIN <= now_epoch + self.config.access_ttl_secs <= i64::MAX,
        ensures
            res.sub@ == user_id@,
            res.name@ == user_name@,
            res.role@ == role_name@,
            res.acl == access_level,
            res.iss@ == self.config.issuer@,
            res.aud@ == self.config.audience@,
            res.iat == now_epoch,
            res.nbf == now_epoch,
            res.exp == now_epoch + self.config.access_ttl_secs,
            res.jti == jti,
    {
        AccessClaims {
            sub: user_id.to_string(),
            name: user_name.to_string(),
            role: role_name.to_string(),
            acl: access_level,
            iss: self.config.issuer.clone(),
            aud: self.config.audience.clone(),
            iat: now_epoch,
            nbf: now_epoch,
            exp: now_epoch + self.config.access_ttl_secs,
            jti,
        }
    }

    /// The claims of a refresh token issued at `now_epoch`.
    pub fn refresh_claims(
        &self,
        user_id: &str,
        user_name: &str,
        role_name: &str,
        access_level: u32,
        now_epoch: i64,
        jti: String,
    ) -> (res: RefreshClaims)
        requires
            i64::MIN <= now_epoch + self.config.refresh_ttl_secs <= i64::MAX,
        ensures
            res.sub@ == user_id@,
            res.iss@ == self.config.issuer@,
            res.aud@ == self.config.audience@,
            res.iat == now_epoch,
            res.nbf == now_epoch,
            res.exp == now_epoch + self.config.refresh_ttl_secs,
            res.jti == jti,
            res.typ@ == refresh_typ(),
            res.name@ == user_name@,
            res.role@ == role_name@,
            res.acl == access_level,
    {
        RefreshClaims {
            sub: user_id.to_string(),
            iss: self.config.issuer.clone(),
            aud: self.config.audience.clone(),
            iat: now_epoch,
            nbf: now_epoch,
            exp: now_epoch + self.config.refresh_ttl_secs,
            jti,
            typ: "refresh".to_string(),
            name: user_name.to_string(),
            role: role_name.to_string(),
            acl: access_level,
        }
    }

    fn header_kid(&self) -> (res: Option<String>)
        ensures
            crate::text::opt_view(res) == self.keys.spec_kid(),
    {
        match &self.keys {
            JwtKeys::Rs256 { kid, .. } => match kid {
                Some(k) => Some(k.clone()),
                None => None,
            },
            JwtKeys::Hs256 { .. } => None,
        }
    }

    /// Signs an access token whose token id is `jti`. RSA keys with a key id
    /// put it in the header.
    pub fn sign_access_with_jti(
        &self,
        user_id: &str,
        user_name: &str,
        role_name: &str,
        access_level: u32,
        now_epoch: i64,
        jti: String,
    ) -> (res: Result<String, JwtError>)
        requires
            self.keys.can_encode(),
            i64::MIN <= now_epoch + self.config.access_ttl_secs <= i64::MAX,
        ensures
            self.signed_as(
                self.keys.spec_kid(),
                access_json_of(
                    user_id@,
                    user_name@,
                    role_name@,
                    access_level,
                    self.config.issuer@,
                    self.config.audience@,
                    now_epoch,
                    now_epoch,
                    (now_epoch + self.config.access_ttl_secs) as i64,
                    jti@,
                ),
                res,
            ),
    {
        let claims = self.access_claims(user_id, user_name, role_name, access_level, now_epoch, jti);
        let json = claims.to_json();
        let kid = self.header_kid();
        let key = self.keys.encoding_key();
        match jwt_encode(self.config.algorithm, kid, json.as_str(), &key) {
            Ok(token) => Ok(token),
            Err(e) => Err(jwt_error(e)),
        }
    }

    /// Signs an access token with a fresh random token id.
    pub fn sign_access(
        &self,
        user_id: &str,
        user_name: &str,
        role_name: &str,
        access_level: u32,
        now_epoch: i64,
    ) -> (res: Result<String, JwtError>)
        requires
            self.keys.can_encode(),
            i64::MIN <= now_epoch + self.config.access_ttl_secs <= i64::MAX,
        ensures
            self.access_signed(user_id@, user_name@, role_name@, access_level, now_epoch, res),
    {
        let jti = generate_uuid();
        let ghost jti_view = jti@;
        let res = self.sign_access_with_jti(
            user_id,
            user_name,
            role_name,
            access_level,
            now_epoch,
            jti,
        );
        assert(is_uuid_v4_text(jti_view));
        assert(self.signed_as(
            self.keys.spec_kid(),
            access_json_of(
                user_id@,
                user_name@,
                role_name@,
                access_level,
                self.config.issuer@,
                self.config.audience@,
                now_epoch,
                now_epoch,
                (now_epoch + self.config.access_ttl_secs) as i64,
                jti_view,
            ),
            res,
        ));
        res
    }

    /// Signs a refresh token whose token id is `jti`. The header carries no
    /// key id.
    pub fn sign_refresh_with_jti(
        &self,
        user_id: &str,
        user_name: &str,
        role_name: &str,
        access_level: u32,
        now_epoch: i64,
        jti: String,
    ) -> (res: Result<String, JwtError>)
        requires
            self.keys.can_encode(),
            i64::MIN <= now_epoch + self.config.refresh_ttl_secs <= i64::MAX,
        ensures
            self.signed_as(
                None,
                refresh_json_of(
                    user_id@,
                    self.config.issuer@,
                    self.config.audience@,
                    now_epoch,
                    now_epoch,
                    (now_epoch + self.config.refresh_ttl_secs) as i64,
                    jti@,
                    refresh_typ(),
                    user_name@,
                    role_name@,
                    access_level,
                ),
                res,
            ),
    {
        let claims = self.refresh_claims(user_id, user_name, role_name, access_level, now_epoch, jti);
        let json = claims.to_json();
        let key = self.keys.encoding_key();
        match jwt_encode(self.config.algorithm, None, json.as_str(), &key) {
            Ok(token) => Ok(token),
            Err(e) => Err(jwt_error(e)),
        }
    }

    /// Signs a refresh token whose token id is `r-` and a fresh random UUID.
    pub fn sign_refresh(
        &self,
        user_id: &str,
        user_name: &str,
        role_name: &str,
        access_level: u32,
        now_epoch: i64,
    ) -> (res: Result<String, JwtError>)
        requires
            self.keys.can_encode(),
            i64::MIN <= now_epoch + self.config.refresh_ttl_secs <= i64::MAX,
        ensures
            self.refresh_signed(user_id@, user_name@, role_name@, access_level, now_epoch, res),
    {
        let uuid = generate_uuid();
        let ghost uuid_view = uuid@;
        let mut jti = "r-".to_string();
        jti.append(uuid.as_str());
        let res = self.sign_refresh_with_jti(
            user_id,
            user_name,
            role_name,
            access_level,
            now_epoch,
            jti,
        );
        assert(is_uuid_v4_text(uuid_view));
        assert(self.signed_as(
            None,
            refresh_json_of(
                user_id@,
                self.config.issuer@,
                self.config.audience@,
                now_epoch,
                now_epoch,
                (now_epoch + self.config.refresh_ttl_secs) as i64,
                refresh_jti_prefix() + uuid_view,
                refresh_typ(),
                user_name@,
                role_name@,
                access_level,
            ),
            res,
        ));
        res
    }

    /// Signs an access token when the keys allow it and the expiry time fits
    /// in an `i64`; `None` otherwise.
    pub fn try_sign_access(
        &self,
        user_id: &str,
        user_name: &str,
        role_name: &str,
        access_level: u32,
        now_epoch: i64,
    ) -> (res: Option<Result<String, JwtError>>)
        ensures
            res is Some <==> (self.keys.can_encode() && i64::MIN <= now_epoch
                + self.config.access_ttl_secs <= i64::MAX),
            res matches Some(r) ==> self.access_signed(
                user_id@,
                user_name@,
                role_name@,
                access_level,
                now_epoch,
                r,
            ),
    {
        if self.keys.check_encodable() && now_epoch.checked_add(self.config.access_ttl_secs).is_some() {
            Some(self.sign_access(user_id, user_name, role_name, access_level, now_epoch))
        } else {
            None
        }
    }

    /// Signs a refresh token when the keys allow it and the expiry time fits
    /// in an `i64`; `None` otherwise.
    pub fn try_sign_refresh(
        &self,
        user_id: &str,
        user_name: &str,
        role_name: &str,
        access_level: u32,
        now_epoch: i64,
    ) -> (res: Option<Result<String, JwtError>>)
        ensures
            res is Some <==> (self.keys.can_encode() && i64::MIN <= now_epoch
                + self.config.refresh_ttl_secs <= i64::MAX),
            res matches Some(r) ==> self.refresh_signed(
                user_id@,
                user_name@,
                role_name@,
                access_level,
                now_epoch,
                r,
            ),
    {
        if self.keys.check_encodable() && now_epoch.checked_add(self.config.refresh_ttl_secs).is_some() {
            Some(self.sign_refresh(user_id, user_name, role_name, access_level, now_epoch))
        } else {
            None
        }
    }

    /// The verified payload of `token` under this manager's algorithm and
    /// verifying key.
    pub open spec fn verified_payload(&self, token: Seq<char>) -> Option<JsonValue> {
        jwt_verified_payload(
            token,
            self.config.algorithm,
            self.keys.spec_decoding_key().0,
            self.keys.spec_decoding_key().1,
        )
    }

    /// The configured clock skew is a leeway that validation accepts.
    pub open spec fn leeway_in_range(&self) -> bool {
        0 <= self.config.skew_secs <= MAX_LEEWAY_SECS
    }

    /// What holds of every outcome of validating `token` as an access token:
    /// a key of the wrong family, a token without verified payload, a payload
    /// lacking an access claim, or one that expired more than `skew_secs`
    /// before the clock floor is refused; a payload that passes every check
    /// but expiry can only be refused as expired, and is accepted when it
    /// expires after the clock ceiling; accepted claims are the
    /// payload's members, with the configured issuer as both issuer and
    /// audience; a refusal carries a `jsonwebtoken` error text.
    pub open spec fn access_validated(&self, token: Seq<char>, res: Result<AccessClaims, JwtError>) -> bool {
        &&& self.config.algorithm.family() != self.keys.spec_decoding_key().0 ==> res is Err
        &&& self.verified_payload(token) is None ==> res is Err
        &&& self.verified_payload(token) matches Some(doc) ==> (!access_claims_complete(doc) ==> res is Err)
        &&& self.verified_payload(token) matches Some(doc) ==> (expired_before_floor(
            doc,
            self.config.skew_secs as int,
        ) ==> res is Err)
        &&& self.verified_payload(token) matches Some(doc) ==> (self.config.algorithm.family()
            == self.keys.spec_decoding_key().0 && passes_claim_checks(
            doc,
            self.config.issuer@,
            self.config.issuer@,
        ) && access_claims_complete(doc) ==> (res matches Err(e) ==> e.message@ == "ExpiredSignature"@))
        &&& self.verified_payload(token) matches Some(doc) ==> (self.config.algorithm.family()
            == self.keys.spec_decoding_key().0 && passes_claim_checks(
            doc,
            self.config.issuer@,
            self.config.issuer@,
        ) && access_claims_complete(doc) && expires_after_ceiling(doc) ==> res is Ok)
        &&& res matches Ok(c) ==> {
            &&& self.verified_payload(token) matches Some(doc) && access_claims_read(doc, c)
            &&& c.iss@ == self.config.issuer@
            &&& c.aud@ == self.config.issuer@
            &&& c.exp >= 0
        }
        &&& res matches Err(e) ==> jwt_error_text_form(e.message@)
    }

    /// What holds of every outcome of validating `token` as a refresh token,
    /// as `access_validated` says for access tokens.
    pub open spec fn refresh_validated(&self, token: Seq<char>, res: Result<RefreshClaims, JwtError>) -> bool {
        &&& self.config.algorithm.family() != self.keys.spec_decoding_key().0 ==> res is Err
        &&& self.verified_payload(token) is None ==> res is Err
        &&& self.verified_payload(token) matches Some(doc) ==> (!refresh_claims_complete(doc) ==> res is Err)
        &&& self.verified_payload(token) matches Some(doc) ==> (expired_before_floor(
            doc,
            self.config.skew_secs as int,
        ) ==> res is Err)
        &&& self.verified_payload(token) matches Some(doc) ==> (self.config.algorithm.family()
            == self.keys.spec_decoding_key().0 && passes_claim_checks(
            doc,
            self.config.issuer@,
            self.config.issuer@,
        ) && refresh_claims_complete(doc) ==> (res matches Err(e) ==> e.message@ == "ExpiredSignature"@))
        &&& self.verified_payload(token) matches Some(doc) ==> (self.config.algorithm.family()
            == self.keys.spec_decoding_key().0 && passes_claim_checks(
            doc,
            self.config.issuer@,
            self.config.issuer@,
        ) && refresh_claims_complete(doc) && expires_after_ceiling(doc) ==> res is Ok)
        &&& res matches Ok(c) ==> {
            &&& self.verified_payload(token) matches Some(doc) && refresh_claims_read(doc, c)
            &&& c.iss@ == self.config.issuer@
            &&& c.aud@ == self.config.issuer@
            &&& c.exp >= 0
        }
        &&& res matches Err(e) ==> jwt_error_text_form(e.message@)
    }

    /// Checks a token's signature, algorithm, issuer, audience (which must be
    /// the issuer: the issuer is handed to the validation as both) and expiry
    /// (with `skew_secs` of leeway) and reads its access claims.
    pub fn validate_access(&self, token: &str) -> (res: Result<AccessClaims, JwtError>)
        requires
            self.keys.can_decode(),
            self.leeway_in_range(),
        ensures
            self.access_validated(token@, res),
    {
        let key = self.keys.decoding_key();
        let issuer = self.config.issuer.as_str();
        let leeway = self.config.skew_secs as u64;
        match jwt_decode(token, &key, self.config.algorithm, issuer, issuer, leeway) {
            Ok(doc) => access_claims_from_json(&doc),
            Err(message) => Err(JwtError { message }),
        }
    }

    /// Checks a token like `validate_access` and reads its refresh claims.
    pub fn validate_refresh(&self, token: &str) -> (res: Result<RefreshClaims, JwtError>)
        requires
            self.keys.can_decode(),
            self.leeway_in_range(),
        ensures
            self.refresh_validated(token@, res),
    {
        let key = self.keys.decoding_key();
        let issuer = self.config.issuer.as_str();
        let leeway = self.config.skew_secs as u64;
        match jwt_decode(token, &key, self.config.algorithm, issuer, issuer, leeway) {
            Ok(doc) => refresh_claims_from_json(&doc),
            Err(message) => Err(JwtError { message }),
        }
    }

    /// Whether the configured clock skew is a leeway that validation accepts.
    pub fn check_leeway(&self) -> (res: bool)
        ensures
            res == self.leeway_in_range(),
    {
        0 <= self.config.skew_secs && self.config.skew_secs <= 1_000_000_000
    }

    /// Validates an access token when the verifying key can be derived and
    /// the clock skew is in range; `None` otherwise.
    pub fn try_validate_access(&self, token: &str) -> (res: Option<Result<AccessClaims, JwtError>>)
        ensures
            res is Some <==> (self.keys.can_decode() && self.leeway_in_range()),
            res matches Some(r) ==> self.access_validated(token@, r),
    {
        if self.keys.check_decodable() && self.check_leeway() {
            Some(self.validate_access(token))
        } else {
            None
        }
    }

    /// Validates a refresh token when the verifying key can be derived and
    /// the clock skew is in range; `None` otherwise.
    pub fn try_validate_refresh(&self, token: &str) -> (res: Option<Result<RefreshClaims, JwtError>>)
        ensures
            res is Some <==> (self.keys.can_decode() && self.leeway_in_range()),
            res matches Some(r) ==> self.refresh_validated(token@, r),
    {
        if self.keys.check_decodable() && self.check_leeway() {
            Some(self.validate_refresh(token))
        } else {
            None
        }
    }
}

/// Expiry is checked with the configured clock skew: a token whose verified
/// payload expired more than `skew_secs` seconds before the clock floor (so
/// more than `skew_secs` seconds before now) is refused, as an access token
/// and as a refresh token.
pub proof fn lemma_expired_tokens_refused(
    m: JwtManager,
    token: Seq<char>,
    doc: JsonValue,
    exp: i64,
    access: Result<AccessClaims, JwtError>,
    refresh: Result<RefreshClaims, JwtError>,
)
    requires
        m.verified_payload(token) == Some(doc),
        spec_i64_field(doc, "exp"@) == Some(exp),
        exp + m.config.skew_secs < CLOCK_FLOOR_SECS,
        m.access_validated(token, access),
        m.refresh_validated(token, refresh),
    ensures
        access is Err,
        refresh is Err,
{
}

/// A token whose verified payload carries every claim and passes every
/// check of the validation but expiry (issuer and audience are the
/// configured issuer) is accepted with exactly the payload's claims, or
/// refused as expired; no other refusal is possible, whatever the claims hold
/// (an access level of 0 included), and one expiring after the clock ceiling
/// is accepted.
pub proof fn lemma_valid_access_token_accepted_or_expired(
    m: JwtManager,
    token: Seq<char>,
    doc: JsonValue,
    res: Result<AccessClaims, JwtError>,
)
    requires
        m.verified_payload(token) == Some(doc),
        m.config.algorithm.family() == m.keys.spec_decoding_key().0,
        passes_claim_checks(doc, m.config.issuer@, m.config.issuer@),
        access_claims_complete(doc),
        m.access_validated(token, res),
    ensures
        match res {
            Ok(c) => access_claims_read(doc, c),
            Err(e) => e.message@ == "ExpiredSignature"@,
        },
        expires_after_ceiling(doc) ==> res is Ok,
{
}

/// Signing is a function of the claims: two signing calls on the same claims
/// JSON and key id under an algorithm without random nonce or salt either both
/// fail or give the same token.
pub proof fn lemma_signing_deterministic(
    m: JwtManager,
    kid: Option<Seq<char>>,
    claims_json: Seq<char>,
    r1: Result<String, JwtError>,
    r2: Result<String, JwtError>,
)
    requires
        m.config.algorithm.signs_deterministically(),
        m.signed_as(kid, claims_json, r1),
        m.signed_as(kid, claims_json, r2),
    ensures
        r1 is Ok <==> r2 is Ok,
        r1 is Ok ==> r1->Ok_0@ == r2->Ok_0@,
{
}

/// A key of another family than the configured algorithm's can never sign:
/// every signing outcome is then a refusal.
pub proof fn lemma_family_mismatch_refuses(
    m: JwtManager,
    kid: Option<Seq<char>>,
    claims_json: Seq<char>,
    r: Result<String, JwtError>,
)
    requires
        m.config.algorithm.family() != m.keys.spec_encoding_key().0,
        m.signed_as(kid, claims_json, r),
    ensures
        r is Err,
{
}

fn missing_field(name: &str) -> (res: JwtError)
    ensures
        res.message@ == "JSON error: missing or invalid field `"@ + name@ + "`"@,
        has_prefix(res.message@, "JSON error: "@),
{
    let mut message = "JSON error: missing or invalid field `".to_string();
    message.append(name);
    message.append("`");
    proof {
        reveal_strlit("JSON error: ");
        reveal_strlit("JSON error: missing or invalid field `");
        let full = "JSON error: missing or invalid field `"@;
        assert(full.take(12) =~= "JSON error: "@);
        assert(message@.take(12) =~= full.take(12));
    }
    JwtError { message }
}

/// Every member of access claims is in `doc`, with its JSON type, and `acl`
/// fits in a `u32`.
pub open spec fn access_claims_complete(doc: JsonValue) -> bool {
    &&& spec_str_field(doc, "sub"@) is Some
    &&& spec_str_field(doc, "name"@) is Some
    &&& spec_str_field(doc, "role"@) is Some
    &&& spec_u64_field(doc, "acl"@) matches Some(a) && a <= u32::MAX
    &&& spec_str_field(doc, "iss"@) is Some
    &&& spec_str_field(doc, "aud"@) is Some
    &&& spec_i64_field(doc, "iat"@) is Some
    &&& spec_i64_field(doc, "nbf"@) is Some
    &&& spec_i64_field(doc, "exp"@) is Some
    &&& spec_str_field(doc, "jti"@) is Some
}

/// `c` holds the members of `doc`.
pub open spec fn access_claims_read(doc: JsonValue, c: AccessClaims) -> bool {
    &&& spec_str_field(doc, "sub"@) == Some(c.sub@)
    &&& spec_str_field(doc, "name"@) == Some(c.name@)
    &&& spec_str_field(doc, "role"@) == Some(c.role@)
    &&& spec_u64_field(doc, "acl"@) == Some(c.acl as u64)
    &&& spec_str_field(doc, "iss"@) == Some(c.iss@)
    &&& spec_str_field(doc, "aud"@) == Some(c.aud@)
    &&& spec_i64_field(doc, "iat"@) == Some(c.iat)
    &&& spec_i64_field(doc, "nbf"@) == Some(c.nbf)
    &&& spec_i64_field(doc, "exp"@) == Some(c.exp)
    &&& spec_str_field(doc, "jti"@) == Some(c.jti@)
}

/// Every member of refresh claims is in `doc`, with its JSON type, and `acl`
/// fits in a `u32`.
pub open spec fn refresh_claims_complete(doc: JsonValue) -> bool {
    &&& spec_str_field(doc, "sub"@) is Some
    &&& spec_str_field(doc, "iss"@) is Some
    &&& spec_str_field(doc, "aud"@) is Some
    &&& spec_i64_field(doc, "iat"@) is Some
    &&& spec_i64_field(doc, "nbf"@) is Some
    &&& spec_i64_field(doc, "exp"@) is Some
    &&& spec_str_field(doc, "jti"@) is Some
    &&& spec_str_field(doc, "typ"@) is Some
    &&& spec_str_field(doc, "name"@) is Some
    &&& spec_str_field(doc, "role"@) is Some
    &&& spec_u64_field(doc, "acl"@) matches Some(a) && a <= u32::MAX
}

/// `c` holds the members of `doc`.
pub open spec fn refresh_claims_read(doc: JsonValue, c: RefreshClaims) -> bool {
    &&& spec_str_field(doc, "sub"@) == Some(c.sub@)
    &&& spec_str_field(doc, "iss"@) == Some(c.iss@)
    &&& spec_str_field(doc, "aud"@) == Some(c.aud@)
    &&& spec_i64_field(doc, "iat"@) == Some(c.iat)
    &&& spec_i64_field(doc, "nbf"@) == Some(c.nbf)
    &&& spec_i64_field(doc, "exp"@) == Some(c.exp)
    &&& spec_str_field(doc, "jti"@) == Some(c.jti@)
    &&& spec_str_field(doc, "typ"@) == Some(c.typ@)
    &&& spec_str_field(doc, "name"@) == Some(c.name@)
    &&& spec_str_field(doc, "role"@) == Some(c.role@)
    &&& spec_u64_field(doc, "acl"@) == Some(c.acl as u64)
}

/// Reads access claims out of a token payload.
pub fn access_claims_from_json(doc: &JsonValue) -> (res: Result<AccessClaims, JwtError>)
    ensures
        res is Ok <==> access_claims_complete(*doc),
        res matches Ok(c) ==> access_claims_read(*doc, c),
        res matches Err(e) ==> has_prefix(e.message@, "JSON error: "@),
{
    AccessClaims::from_parts(
        json_str_field(doc, "sub"),
        json_str_field(doc, "name"),
        json_str_field(doc, "role"),
        json_u64_field(doc, "acl"),
        json_str_field(doc, "iss"),
        json_str_field(doc, "aud"),
        json_i64_field(doc, "iat"),
        json_i64_field(doc, "nbf"),
        json_i64_field(doc, "exp"),
        json_str_field(doc, "jti"),
    )
}

/// Reads refresh claims out of a token payload.
pub fn refresh_claims_from_json(doc: &JsonValue) -> (res: Result<RefreshClaims, JwtError>)
    ensures
        res is Ok <==> refresh_claims_complete(*doc),
        res matches Ok(c) ==> refresh_claims_read(*doc, c),
        res matches Err(e) ==> has_prefix(e.message@, "JSON error: "@),
{
    RefreshClaims::from_parts(
        json_str_field(doc, "sub"),
        json_str_field(doc, "iss"),
        json_str_field(doc, "aud"),
        json_i64_field(doc, "iat"),
        json_i64_field(doc, "nbf"),
        json_i64_field(doc, "exp"),
        json_str_field(doc, "jti"),
        json_str_field(doc, "typ"),
        json_str_field(doc, "name"),
        json_str_field(doc, "role"),
        json_u64_field(doc, "acl"),
    )
}

impl AccessClaims {
    /// Assembles access claims from the fields read out of a token payload:
    /// every field must be present and `acl` must fit in a `u32`.
    pub fn from_parts(
        sub: Option<String>,
        name: Option<String>,
        role: Option<String>,
        acl: Option<u64>,
        iss: Option<String>,
        aud: Option<String>,
        iat: Option<i64>,
        nbf: Option<i64>,
        exp: Option<i64>,
        jti: Option<String>,
    ) -> (res: Result<AccessClaims, JwtError>)
        ensures
            res is Ok <==> (sub is Some && name is Some && role is Some && acl is Some
                && acl.unwrap() <= u32::MAX && iss is Some && aud is Some && iat is Some
                && nbf is Some && exp is Some && jti is Some),
            res matches Ok(c) ==> {
                &&& Some(c.sub) == sub
                &&& Some(c.name) == name
                &&& Some(c.role) == role
                &&& Some(c.acl as u64) == acl
                &&& Some(c.iss) == iss
                &&& Some(c.aud) == aud
                &&& Some(c.iat) == iat
                &&& Some(c.nbf) == nbf
                &&& Some(c.exp) == exp
                &&& Some(c.jti) == jti
            },
            res matches Err(e) ==> has_prefix(e.message@, "JSON error: "@),
    {
        let sub = match sub { Some(v) => v, None => return Err(missing_field("sub")) };
        let name = match name { Some(v) => v, None => return Err(missing_field("name")) };
        let role = match role { Some(v) => v, None => return Err(missing_field("role")) };
        let acl = match acl {
            Some(v) => if v <= 4294967295 { v as u32 } else { return Err(missing_field("acl")) },
            None => return Err(missing_field("acl")),
        };
        let iss = match iss { Some(v) => v, None => return Err(missing_field("iss")) };
        let aud = match aud { Some(v) => v, None => return Err(missing_field("aud")) };
        let iat = match iat { Some(v) => v, None => return Err(missing_field("iat")) };
        let nbf = match nbf { Some(v) => v, None => return Err(missing_field("nbf")) };
        let exp = match exp { Some(v) => v, None => return Err(missing_field("exp")) };
        let jti = match jti { Some(v) => v, None => return Err(missing_field("jti")) };
        Ok(AccessClaims { sub, name, role, acl, iss, aud, iat, nbf, exp, jti })
    }
}

impl RefreshClaims {
    /// Assembles refresh claims from the fields read out of a token payload:
    /// every field must be present and `acl` must fit in a `u32`.
    pub fn from_parts(
        sub: Option<String>,
        iss: Option<String>,
        aud: Option<String>,
        iat: Option<i64>,
        nbf: Option<i64>,
        exp: Option<i64>,
        jti: Option<String>,
        typ: Option<String>,
        name: Option<String>,
        role: Option<String>,
        acl: Option<u64>,
    ) -> (res: Result<RefreshClaims, JwtError>)
        ensures
            res is Ok <==> (sub is Some && iss is Some && aud is Some && iat is Some
                && nbf is Some && exp is Some && jti is Some && typ is Some && name is Some
                && role is Some && acl is Some && acl.unwrap() <= u32::MAX),
            res matches Ok(c) ==> {
                &&& Some(c.sub) == sub
                &&& Some(c.iss) == iss
                &&& Some(c.aud) == aud
                &&& Some(c.iat) == iat
                &&& Some(c.nbf) == nbf
                &&& Some(c.exp) == exp
                &&& Some(c.jti) == jti
                &&& Some(c.typ) == typ
                &&& Some(c.name) == name
                &&& Some(c.role) == role
                &&& Some(c.acl as u64) == acl
            },
            res matches Err(e) ==> has_prefix(e.message@, "JSON error: "@),
    {
        let sub = match sub { Some(v) => v, None => return Err(missing_field("sub")) };
        let iss = match iss { Some(v) => v, None => return Err(missing_field("iss")) };
        let aud = match aud { Some(v) => v, None => return Err(missing_field("aud")) };
        let iat = match iat { Some(v) => v, None => return Err(missing_field("iat")) };
        let nbf = match nbf { Some(v) => v, None => return Err(missing_field("nbf")) };
        let exp = match exp { Some(v) => v, None => return Err(missing_field("exp")) };
        let jti = match jti { Some(v) => v, None => return Err(missing_field("jti")) };
        let typ = match typ { Some(v) => v, None => return Err(missing_field("typ")) };
        let name = match name { Some(v) => v, None => return Err(missing_field("name")) };
        let role = match role { Some(v) => v, None => return Err(missing_field("role")) };
        let acl = match acl {
            Some(v) => if v <= 4294967295 { v as u32 } else { return Err(missing_field("acl")) },
            None => return Err(missing_field("acl")),
        };
        Ok(RefreshClaims { sub, iss, aud, iat, nbf, exp, jti, typ, name, role, acl })
    }
}

} // verus!
