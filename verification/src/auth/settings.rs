//! Token and password settings read from the JSON configuration.

use vstd::prelude::*;

use crate::auth::credential::{spec_algorithm_from_name, PasswordHashAlgorithm};
use crate::auth::jwt_manager::{JwtAlgorithm, JwtConfig};
use crate::auth::key_manager::RsaKeyManager;
use crate::json::{
    json_i64_field, json_member, json_str_field, spec_i64_field, spec_str_field, JsonValue,
};
use crate::text::opt_view;
use crate::text::str_eq;

verus! {

broadcast use vstd::string::group_string_axioms;

/// The members of a `jwt` configuration object, each present or not.
#[derive(Debug, Clone)]
pub struct JwtSettings {
    pub issuer: Option<String>,
    pub audience: Option<String>,
    pub access_ttl_secs: Option<i64>,
    pub refresh_ttl_secs: Option<i64>,
    pub skew_secs: Option<i64>,
    pub alg: Option<String>,
    pub secret: Option<String>,
    pub private_key_path: Option<String>,
    pub public_key_path: Option<String>,
}

impl JwtSettings {
    /// Reads the members of a `jwt` configuration document; a member that is
    /// absent or of another JSON type is `None`.
    pub fn from_json(jwt_cfg: &JsonValue) -> (res: JwtSettings)
        ensures
            opt_view(res.issuer) == spec_str_field(*jwt_cfg, "issuer"@),
            opt_view(res.audience) == spec_str_field(*jwt_cfg, "audience"@),
            res.access_ttl_secs == spec_i64_field(*jwt_cfg, "access_ttl_secs"@),
            res.refresh_ttl_secs == spec_i64_field(*jwt_cfg, "refresh_ttl_secs"@),
            res.skew_secs == spec_i64_field(*jwt_cfg, "skew_secs"@),
            opt_view(res.alg) == spec_str_field(*jwt_cfg, "alg"@),
            opt_view(res.secret) == spec_str_field(*jwt_cfg, "secret"@),
            opt_view(res.private_key_path) == spec_str_field(*jwt_cfg, "private_key_path"@),
            opt_view(res.public_key_path) == spec_str_field(*jwt_cfg, "public_key_path"@),
    {
        JwtSettings {
            issuer: json_str_field(jwt_cfg, "issuer"),
            audience: json_str_field(jwt_cfg, "audience"),
            access_ttl_secs: json_i64_field(jwt_cfg, "access_ttl_secs"),
            refresh_ttl_secs: json_i64_field(jwt_cfg, "refresh_ttl_secs"),
            skew_secs: json_i64_field(jwt_cfg, "skew_secs"),
            alg: json_str_field(jwt_cfg, "alg"),
            secret: json_str_field(jwt_cfg, "secret"),
            private_key_path: json_str_field(jwt_cfg, "private_key_path"),
            public_key_path: json_str_field(jwt_cfg, "public_key_path"),
        }
    }
}

/// Access tokens live 15 minutes unless configured otherwise.
pub const DEFAULT_ACCESS_TTL_SECS: i64 = 900;

/// Refresh tokens live 7 days unless configured otherwise.
pub const DEFAULT_REFRESH_TTL_SECS: i64 = 604800;

/// Clock skew allowed when validating, unless configured otherwise.
pub const DEFAULT_SKEW_SECS: i64 = 60;

/// The configured algorithm: `HS256` and `RS256` are taken as named; any other
/// name, or none, falls back to `HS256`.
pub open spec fn spec_algorithm_from_setting(alg: Option<Seq<char>>) -> JwtAlgorithm {
    match alg {
        Some(name) => if name == "RS256"@ {
            JwtAlgorithm::RS256
        } else {
            JwtAlgorithm::HS256
        },
        None => JwtAlgorithm::HS256,
    }
}

/// A configured text, or its default.
pub open spec fn text_or(o: Option<String>, default: Seq<char>) -> Seq<char> {
    match o {
        Some(s) => s@,
        None => default,
    }
}

/// A configured number, or its default.
pub open spec fn number_or(o: Option<i64>, default: i64) -> i64 {
    match o {
        Some(n) => n,
        None => default,
    }
}

/// Selects the signing algorithm from its configured name.
pub fn algorithm_from_setting(alg: &Option<String>) -> (res: JwtAlgorithm)
    ensures
        res == spec_algorithm_from_setting(crate::text::opt_view(*alg)),
{
    match alg {
        Some(name) => {
            if str_eq(name.as_str(), "HS256") {
                assert(name@ != "RS256"@) by {
                    reveal_strlit("HS256");
                    reveal_strlit("RS256");
                    assert("HS256"@[0] == 'H');
                    assert("RS256"@[0] == 'R');
                }
                JwtAlgorithm::HS256
            } else if str_eq(name.as_str(), "RS256") {
                JwtAlgorithm::RS256
            } else {
                JwtAlgorithm::HS256
            }
        },
        None => JwtAlgorithm::HS256,
    }
}

fn text_or_default(o: &Option<String>, default: &str) -> (res: String)
    ensures
        res@ == text_or(*o, default@),
{
    match o {
        Some(s) => s.clone(),
        None => default.to_string(),
    }
}

fn number_or_default(o: &Option<i64>, default: i64) -> (res: i64)
    ensures
        res == number_or(*o, default),
{
    match o {
        Some(n) => *n,
        None => default,
    }
}

/// The token configuration of `settings`, with the given default issuer and
/// audience, 900 s access and 604800 s refresh lifetimes and 60 s of skew.
pub fn jwt_config_with_defaults(
    settings: &JwtSettings,
    default_issuer: &str,
    default_audience: &str,
) -> (res: JwtConfig)
    ensures
        res.issuer@ == text_or(settings.issuer, default_issuer@),
        res.audience@ == text_or(settings.audience, default_audience@),
        res.access_ttl_secs == number_or(settings.access_ttl_secs, DEFAULT_ACCESS_TTL_SECS),
        res.refresh_ttl_secs == number_or(settings.refresh_ttl_secs, DEFAULT_REFRESH_TTL_SECS),
        res.skew_secs == number_or(settings.skew_secs, DEFAULT_SKEW_SECS),
        res.algorithm == spec_algorithm_from_setting(crate::text::opt_view(settings.alg)),
{
    JwtConfig {
        issuer: text_or_default(&settings.issuer, default_issuer),
        audience: text_or_default(&settings.audience, default_audience),
        access_ttl_secs: number_or_default(&settings.access_ttl_secs, DEFAULT_ACCESS_TTL_SECS),
        refresh_ttl_secs: number_or_default(&settings.refresh_ttl_secs, DEFAULT_REFRESH_TTL_SECS),
        skew_secs: number_or_default(&settings.skew_secs, DEFAULT_SKEW_SECS),
        algorithm: algorithm_from_setting(&settings.alg),
    }
}

/// The token configuration `build_jwt_manager` uses: issuer `tmplinker`,
/// audience `tmplinker-clients` unless configured.
pub fn build_jwt_config(settings: &JwtSettings) -> (res: JwtConfig)
    ensures
        res.issuer@ == text_or(settings.issuer, "tmplinker"@),
        res.audience@ == text_or(settings.audience, "tmplinker-clients"@),
        res.access_ttl_secs == number_or(settings.access_ttl_secs, DEFAULT_ACCESS_TTL_SECS),
        res.refresh_ttl_secs == number_or(settings.refresh_ttl_secs, DEFAULT_REFRESH_TTL_SECS),
        res.skew_secs == number_or(settings.skew_secs, DEFAULT_SKEW_SECS),
        res.algorithm == spec_algorithm_from_setting(crate::text::opt_view(settings.alg)),
{
    jwt_config_with_defaults(settings, "tmplinker", "tmplinker-clients")
}

/// The token configuration `build_jwt_manager_from_value` uses: issuer
/// `linker`, audience `normal-user` unless configured.
pub fn build_jwt_config_from_value(settings: &JwtSettings) -> (res: JwtConfig)
    ensures
        res.issuer@ == text_or(settings.issuer, "linker"@),
        res.audience@ == text_or(settings.audience, "normal-user"@),
        res.access_ttl_secs == number_or(settings.access_ttl_secs, DEFAULT_ACCESS_TTL_SECS),
        res.refresh_ttl_secs == number_or(settings.refresh_ttl_secs, DEFAULT_REFRESH_TTL_SECS),
        res.skew_secs == number_or(settings.skew_secs, DEFAULT_SKEW_SECS),
        res.algorithm == spec_algorithm_from_setting(crate::text::opt_view(settings.alg)),
{
    jwt_config_with_defaults(settings, "linker", "normal-user")
}

/// Where the keys of a token manager come from.
#[derive(Debug, Clone)]
pub enum KeySource {
    /// An HMAC secret.
    Secret(String),
    /// An RSA key pair kept in files.
    RsaFiles(RsaKeyManager),
}

/// `"mattlinker-default-secret"`
pub open spec fn default_secret() -> Seq<char> {
    "mattlinker-default-secret"@
}

/// The key source for an algorithm: the RSA key files for `RS*` algorithms,
/// otherwise the configured secret (default `mattlinker-default-secret`).
pub fn key_source(settings: &JwtSettings, algorithm: JwtAlgorithm) -> (res: KeySource)
    ensures
        match algorithm {
            JwtAlgorithm::RS256 | JwtAlgorithm::RS384 | JwtAlgorithm::RS512 => res matches KeySource::RsaFiles(
                km,
            ) && km.spec_private_key_path() == text_or(
                settings.private_key_path,
                crate::auth::key_manager::default_private_key_path(),
            ) && km.spec_public_key_path() == text_or(
                settings.public_key_path,
                crate::auth::key_manager::default_public_key_path(),
            ),
            _ => res matches KeySource::Secret(s) && s@ == text_or(settings.secret, default_secret()),
        },
{
    match algorithm {
        JwtAlgorithm::RS256 | JwtAlgorithm::RS384 | JwtAlgorithm::RS512 => KeySource::RsaFiles(
            RsaKeyManager::from_paths(settings.private_key_path.clone(), settings.public_key_path.clone()),
        ),
        _ => KeySource::Secret(text_or_default(&settings.secret, "mattlinker-default-secret")),
    }
}

/// The password hashing algorithm named by a `password.hash` setting
/// (`plain` when absent).
pub fn password_hash_algorithm_from_setting(hash: Option<&str>) -> (res: PasswordHashAlgorithm)
    ensures
        res == match hash {
            Some(name) => spec_algorithm_from_name(name@),
            None => PasswordHashAlgorithm::Plain,
        },
{
    match hash {
        Some(name) => PasswordHashAlgorithm::from_name(name),
        None => {
            let plain = PasswordHashAlgorithm::from_name("plain");
            assert(spec_algorithm_from_name("plain"@) == PasswordHashAlgorithm::Plain) by {
                reveal_strlit("plain");
                assert(crate::text::lower_ascii_seq("plain"@)[0] == 'p');
            }
            plain
        },
    }
}

/// The `password.hash` setting of a `security` configuration document.
pub open spec fn spec_password_hash_setting(security_cfg: JsonValue) -> Option<Seq<char>> {
    match json_member(security_cfg, "password"@) {
        Some(password) => spec_str_field(password, "hash"@),
        None => None,
    }
}

/// The password hashing algorithm of a `security` configuration document:
/// the string at `password.hash`, `plain` when absent.
pub fn password_hash_algorithm_from_value(security_cfg: &JsonValue) -> (res: PasswordHashAlgorithm)
    ensures
        res == match spec_password_hash_setting(*security_cfg) {
            Some(name) => spec_algorithm_from_name(name),
            None => PasswordHashAlgorithm::Plain,
        },
{
    let hash = match security_cfg.get("password") {
        Some(password) => json_str_field(password, "hash"),
        None => None,
    };
    match hash {
        Some(name) => password_hash_algorithm_from_setting(Some(name.as_str())),
        None => password_hash_algorithm_from_setting(None),
    }
}

} // verus!
