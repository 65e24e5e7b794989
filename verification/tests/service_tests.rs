use std::sync::Arc;

use blog_backend::auth::credential::{hash_password, PasswordHashAlgorithm};
use blog_backend::auth::interceptor::{context_from_claims, AuthError, AuthIpInterceptor};
use blog_backend::auth::jwt_manager::{JwtAlgorithm, JwtConfig, JwtManager};
use blog_backend::auth::key::JwtKeys;
use blog_backend::auth::settings::{
    build_jwt_config, build_jwt_config_from_value, key_source, password_hash_algorithm_from_setting,
    password_hash_algorithm_from_value, JwtSettings, KeySource,
};
use blog_backend::auth::whitelist::{default_whitelist, short_whitelist};
use blog_backend::json::{JsonNumber, JsonValue};
use blog_backend::auth::interceptor::bearer_token;
use blog_backend::models::{self, UtcTime};
use blog_backend::proto;
use blog_backend::repositories::{
    article_list_query, article_order_clause, asset_list_queries, checked_page_offset,
    keyword_pattern, page_offset, prefix_pattern,
};
use blog_backend::services::user::{
    access_cache_key, check_login, check_registration, default_role, invalid_token_response,
    login_response, refresh_cache_key, register_response, subject_user_id, token_subject,
    verify_token_response, after_token_checks, ServiceError, VerifyTokenNext,
};
use blog_backend::tools::utils::generate_uuid;

fn now() -> i64 {
    std::time::SystemTime::now()
        .duration_since(std::time::UNIX_EPOCH)
        .unwrap()
        .as_secs() as i64
}

fn manager() -> JwtManager {
    JwtManager::new(
        JwtConfig {
            issuer: "svc".to_string(),
            audience: "svc".to_string(),
            access_ttl_secs: 900,
            refresh_ttl_secs: 604800,
            skew_secs: 60,
            algorithm: JwtAlgorithm::HS256,
        },
        JwtKeys::Hs256 { secret: "k".to_string() },
    )
}

fn sample_user(password_hash: &str) -> models::User {
    models::User {
        id: 42,
        username: "alice".to_string(),
        email: "a@example.com".to_string(),
        password_hash: password_hash.to_string(),
        role: "user".to_string(),
        created_at: UtcTime { secs: 0, nanos: 0 },
        updated_at: UtcTime { secs: 86400, nanos: 500_000_000 },
    }
}

#[test]
fn whitelists_hold_the_public_methods() {
    let w = default_whitelist();
    assert!(w.contains("/user.UserService/Register"));
    assert!(w.contains("/user.UserService/Login"));
    assert!(w.contains("/user.UserService/RefreshToken"));
    assert!(!w.contains("Register"));
    assert!(!w.contains("/user.UserService/GetProfile"));
    let s = short_whitelist();
    assert!(s.contains("Login"));
    assert!(!s.contains("/user.UserService/Login"));
}

#[test]
fn whitelisted_methods_need_no_token() {
    let i = AuthIpInterceptor::new(Arc::new(manager()));
    assert!(matches!(i.authorize(Some("/user.UserService/Login"), None), Ok(None)));
}

#[test]
fn other_methods_need_a_bearer_header() {
    let i = AuthIpInterceptor::new(Arc::new(manager()));
    assert!(matches!(i.authorize(Some("/x.Y/Z"), None), Err(AuthError::MissingAuthorization)));
    assert!(matches!(i.authorize(None, None), Err(AuthError::MissingAuthorization)));
    assert!(matches!(
        i.authorize(Some("/x.Y/Z"), Some("Basic abc")),
        Err(AuthError::InvalidAuthorizationFormat)
    ));
    assert!(matches!(
        i.authorize(Some("/x.Y/Z"), Some("bearer abc")),
        Err(AuthError::InvalidAuthorizationFormat)
    ));
    assert!(matches!(
        i.authorize(Some("/x.Y/Z"), Some("Bearer abc")),
        Err(AuthError::ValidationFailed(_))
    ));
}

#[test]
fn valid_bearer_token_gives_caller_context() {
    let m = manager();
    let token = m.sign_access("42", "alice", "user", 5, now()).unwrap();
    let i = AuthIpInterceptor::from_jwt_config(m.config.clone(), m.keys.clone());
    let header = format!("Bearer {}", token);
    let ctx = i.authorize(Some("/x.Y/Z"), Some(&header)).unwrap().unwrap();
    assert_eq!(ctx.user_id, "42");
    assert_eq!(ctx.user_name, "alice");
    assert_eq!(ctx.access_level, 5);
    assert_eq!(ctx.expires_at - ctx.issued_at, 900);
    assert!(i.try_authorize(Some("/x.Y/Z"), Some(&header)).is_some());
}

#[test]
fn context_copies_claims() {
    let c = manager().access_claims("1", "n", "r", 2, 10, "j".to_string());
    let ctx = context_from_claims(c);
    assert_eq!((ctx.user_id.as_str(), ctx.jti.as_str(), ctx.issued_at, ctx.expires_at), ("1", "j", 10, 910));
}

fn text(s: &str) -> JsonValue {
    JsonValue::Str(s.to_string())
}

fn object(members: Vec<(&str, JsonValue)>) -> JsonValue {
    JsonValue::Object(members.into_iter().map(|(k, v)| (k.to_string(), v)).collect())
}

#[test]
fn jwt_settings_defaults() {
    let cfg = object(vec![("alg", text("RS512")), ("skew_secs", JsonValue::Number(JsonNumber::PosInt(5)))]);
    let s = JwtSettings::from_json(&cfg);
    let c = build_jwt_config(&s);
    assert_eq!(c.issuer, "tmplinker");
    assert_eq!(c.audience, "tmplinker-clients");
    assert_eq!((c.access_ttl_secs, c.refresh_ttl_secs, c.skew_secs), (900, 604800, 5));
    assert_eq!(c.algorithm, JwtAlgorithm::HS256);
    let c2 = build_jwt_config_from_value(&s);
    assert_eq!(c2.issuer, "linker");
    assert_eq!(c2.audience, "normal-user");
    match key_source(&s, c.algorithm) {
        KeySource::Secret(secret) => assert_eq!(secret, "mattlinker-default-secret"),
        _ => panic!("expected a secret"),
    }
}

#[test]
fn jwt_settings_rs256_uses_key_files() {
    let cfg = object(vec![("alg", text("RS256")), ("issuer", text("me")), ("public_key_path", text("p"))]);
    let s = JwtSettings::from_json(&cfg);
    let c = build_jwt_config(&s);
    assert_eq!(c.algorithm, JwtAlgorithm::RS256);
    assert_eq!(c.issuer, "me");
    match key_source(&s, c.algorithm) {
        KeySource::RsaFiles(km) => {
            assert_eq!(km.public_key_path(), "p");
            assert_eq!(km.private_key_path(), "fixtures/jwt_dev_private.pem");
        }
        _ => panic!("expected key files"),
    }
}

#[test]
fn password_algorithm_settings() {
    let cfg = object(vec![("password", object(vec![("hash", text("SHA256"))]))]);
    assert_eq!(password_hash_algorithm_from_value(&cfg), PasswordHashAlgorithm::Sha256Hex);
    let empty = object(vec![]);
    assert_eq!(password_hash_algorithm_from_value(&empty), PasswordHashAlgorithm::Plain);
    assert_eq!(password_hash_algorithm_from_setting(None), PasswordHashAlgorithm::Plain);
    assert_eq!(password_hash_algorithm_from_setting(Some("sha256hex")), PasswordHashAlgorithm::Sha256Hex);
}

#[test]
fn user_message_from_row() {
    let u = proto::User::from_model(&sample_user("x"));
    assert_eq!(u.id, 42);
    assert_eq!(u.username, "alice");
    assert_eq!(u.created_at.unwrap().value, "1970-01-01T00:00:00+00:00");
    let t = proto::Timestamp::from_utc(UtcTime { secs: 86400, nanos: 500_000_000 }).unwrap();
    assert_eq!(t.value, "1970-01-02T00:00:00.500+00:00");
    assert!(proto::Timestamp::from_utc(UtcTime { secs: i64::MAX, nanos: 0 }).is_none());
}

#[test]
fn article_message_fills_defaults() {
    let a = models::Article {
        id: 1,
        title: "t".to_string(),
        content: "c".to_string(),
        summary: None,
        author_id: 2,
        category_id: None,
        tags: vec!["x".to_string(), "y".to_string()],
        status: "draft".to_string(),
        view_count: 9,
        cover_image: Some("img.png".to_string()),
        created_at: UtcTime { secs: 0, nanos: 0 },
        updated_at: UtcTime { secs: 0, nanos: 0 },
    };
    let m = proto::Article::from_model(&a);
    assert_eq!(m.summary, "");
    assert_eq!(m.category_id, 0);
    assert_eq!(m.author_name, "");
    assert_eq!(m.tags, vec!["x".to_string(), "y".to_string()]);
    assert_eq!(m.cover_image, "img.png");
}

#[test]
fn category_and_asset_messages() {
    let c = models::Category {
        id: 3,
        name: "Rust".to_string(),
        slug: "rust".to_string(),
        description: Some("d".to_string()),
        created_at: UtcTime { secs: 0, nanos: 0 },
        updated_at: UtcTime { secs: 0, nanos: 0 },
    };
    let m = proto::Category::from_model(&c);
    assert_eq!((m.description.as_str(), m.article_count), ("d", 0));
    let a = models::Asset {
        id: 4,
        filename: "f.png".to_string(),
        file_path: "2024/f.png".to_string(),
        mime_type: "image/png".to_string(),
        size: 10,
        uploader_id: 1,
        created_at: UtcTime { secs: 0, nanos: 0 },
    };
    let m = proto::Asset::from_model(&a);
    assert_eq!(m.url, "/uploads/2024/f.png");
    assert_eq!(m.file_path, "2024/f.png");
}

#[test]
fn paging_and_patterns() {
    assert_eq!(page_offset(3, 10), 20);
    assert_eq!(page_offset(1, 10), 0);
    assert_eq!(page_offset(0, 10), -10);
    assert_eq!(checked_page_offset(3, 10), Some(20));
    assert_eq!(checked_page_offset(i64::MIN, 1), None);
    assert_eq!(checked_page_offset(i64::MAX, 3), None);
    assert_eq!(keyword_pattern("rust"), "%rust%");
    assert_eq!(prefix_pattern("image/"), "image/%");
}

#[test]
fn article_ordering_choice() {
    assert_eq!(article_order_clause("view_count"), "ORDER BY view_count DESC");
    assert_eq!(article_order_clause("created_at"), "ORDER BY created_at DESC");
    assert_eq!(article_order_clause("anything"), "ORDER BY created_at DESC");
    let q = article_list_query("view_count");
    assert!(q.contains("ORDER BY view_count DESC\n            LIMIT $4 OFFSET $5"));
}

#[test]
fn asset_queries_depend_on_prefix() {
    let (count, select) = asset_list_queries(true);
    assert_eq!(count, "SELECT COUNT(*) FROM assets WHERE mime_type LIKE $1");
    assert!(select.contains("LIMIT $2 OFFSET $3"));
    let (count, select) = asset_list_queries(false);
    assert_eq!(count, "SELECT COUNT(*) FROM assets");
    assert!(select.contains("LIMIT $1 OFFSET $2"));
}

#[test]
fn registration_checks_username_then_email() {
    assert!(matches!(check_registration(true, true), Err(ServiceError::AlreadyExists(m)) if m == "Username already exists"));
    assert!(matches!(check_registration(false, true), Err(ServiceError::AlreadyExists(m)) if m == "Email already exists"));
    assert!(check_registration(false, false).is_ok());
    assert_eq!(default_role(), "user");
}

#[test]
fn login_checks_user_and_password() {
    let stored = hash_password("pw", PasswordHashAlgorithm::Sha256Hex);
    let user = sample_user(&stored);
    assert!(matches!(check_login(None, "pw", PasswordHashAlgorithm::Sha256Hex), Err(ServiceError::NotFound(m)) if m == "User not found"));
    assert!(matches!(check_login(Some(user.clone()), "bad", PasswordHashAlgorithm::Sha256Hex), Err(ServiceError::Unauthenticated(m)) if m == "Invalid password"));
    assert_eq!(check_login(Some(user), "pw", PasswordHashAlgorithm::Sha256Hex).unwrap().id, 42);
}

#[test]
fn cache_keys_and_subjects() {
    assert_eq!(access_cache_key("tok"), "access:tok");
    assert_eq!(refresh_cache_key("tok"), "refresh:tok");
    assert_eq!(token_subject(42), "42");
    assert_eq!(token_subject(-3), "-3");
    assert_eq!(subject_user_id(&token_subject(i64::MIN)).unwrap(), i64::MIN);
    assert!(matches!(subject_user_id("abc"), Err(ServiceError::Internal(m)) if m == "Invalid user ID in token"));
}

#[test]
fn responses() {
    let u = sample_user("x");
    let r = register_response(&u, "t".to_string());
    assert_eq!(r.user.unwrap().id, 42);
    let l = login_response(&u, "t".to_string(), 900);
    assert_eq!(l.expires_in, 900);
    let v = verify_token_response(Some(&u));
    assert!(v.valid && v.user.is_some());
    let v = verify_token_response(None);
    assert!(!v.valid && v.user.is_none());
    assert!(!invalid_token_response().valid);
}

#[test]
fn uuids_are_hyphenated_version_4() {
    let u = generate_uuid();
    assert_eq!(u.len(), 36);
    assert_eq!(u.chars().nth(14), Some('4'));
    assert!(matches!(u.chars().nth(19), Some('8' | '9' | 'a' | 'b')));
    for (i, c) in u.chars().enumerate() {
        if i == 8 || i == 13 || i == 18 || i == 23 {
            assert_eq!(c, '-');
        } else {
            assert!(c.is_ascii_digit() || ('a'..='f').contains(&c));
        }
    }
    assert_ne!(u, generate_uuid());
}

#[test]
fn token_check_steps() {
    let c = manager().access_claims("42", "n", "r", 0, 0, "j".to_string());
    assert!(matches!(after_token_checks(false, Some(c.clone())), VerifyTokenNext::Respond(r) if !r.valid));
    assert!(matches!(after_token_checks(true, None), VerifyTokenNext::Respond(r) if !r.valid && r.user.is_none()));
    assert!(matches!(after_token_checks(true, Some(c)), VerifyTokenNext::LookUpUser(42)));
    let bad = manager().access_claims("x42", "n", "r", 0, 0, "j".to_string());
    assert!(matches!(after_token_checks(true, Some(bad)), VerifyTokenNext::Fail(ServiceError::Internal(_))));
}

#[test]
fn whitelist_paths_are_service_path_and_short_name() {
    let full = default_whitelist();
    for short in ["Register", "Login", "RefreshToken"] {
        assert!(short_whitelist().contains(short));
        assert!(full.contains(&format!("/user.UserService/{}", short)));
    }
}

#[test]
fn bearer_tokens() {
    assert_eq!(bearer_token("Bearer abc.def"), Some("abc.def".to_string()));
    assert_eq!(bearer_token("Bearer "), Some(String::new()));
    assert_eq!(bearer_token("Bearer"), None);
    assert_eq!(bearer_token("Token abc"), None);
}

fn undecodable_interceptor() -> AuthIpInterceptor {
    let m = manager();
    let keys = JwtKeys::Rs256 { private_pem: "x".to_string(), public_pem: "y".to_string(), kid: None };
    AuthIpInterceptor::from_jwt_config(m.config.clone(), keys)
}

#[test]
fn early_answers_need_no_verifying_key() {
    let i = undecodable_interceptor();
    assert!(matches!(i.try_authorize(Some("/user.UserService/Login"), None), Some(Ok(None))));
    assert!(matches!(i.authorize(Some("/user.UserService/Login"), Some("Bearer t")), Ok(None)));
    assert!(matches!(
        i.try_authorize(Some("/x.Y/Z"), None),
        Some(Err(AuthError::MissingAuthorization))
    ));
    assert!(matches!(
        i.try_authorize(Some("/x.Y/Z"), Some("Token t")),
        Some(Err(AuthError::InvalidAuthorizationFormat))
    ));
    assert!(i.try_authorize(Some("/x.Y/Z"), Some("Bearer t")).is_none());
}

#[test]
fn validation_failure_carries_the_error_text() {
    let i = AuthIpInterceptor::new(Arc::new(manager()));
    match i.authorize(Some("/x.Y/Z"), Some("Bearer abc")) {
        Err(AuthError::ValidationFailed(text)) => assert_eq!(text, "InvalidToken"),
        _ => panic!("expected a validation failure"),
    }
}

#[test]
fn negative_skew_is_not_used_for_validation() {
    let mut m = manager();
    m.config.skew_secs = -1;
    assert!(m.try_validate_access("a.b.c").is_none());
    assert!(m.try_validate_refresh("a.b.c").is_none());
    let i = AuthIpInterceptor::new(Arc::new(m));
    assert!(i.try_authorize(Some("/x.Y/Z"), Some("Bearer t")).is_none());
    assert!(matches!(i.try_authorize(Some("/x.Y/Z"), None), Some(Err(AuthError::MissingAuthorization))));
}

#[test]
fn user_message_ignores_password_hash_and_update_time() {
    let a = sample_user("hash-one");
    let mut b = sample_user("hash-two");
    b.updated_at = UtcTime { secs: 1, nanos: 0 };
    let ma = proto::User::from_model(&a);
    let mb = proto::User::from_model(&b);
    assert_eq!((ma.id, &ma.username, &ma.email, &ma.role), (mb.id, &mb.username, &mb.email, &mb.role));
    assert_eq!(ma.created_at.unwrap().value, mb.created_at.unwrap().value);
}
