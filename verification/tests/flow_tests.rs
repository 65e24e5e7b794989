use blog_backend::auth::credential::{hash_password, PasswordHashAlgorithm};
use blog_backend::auth::jwt_manager::{JwtAlgorithm, JwtConfig, JwtManager};
use blog_backend::auth::key::JwtKeys;
use blog_backend::models::{User, UtcTime};
use blog_backend::services::user::ServiceError;
use blog_backend::services::user_flow::{
    LoginFlow, LoginStage, RegisterFlow, RegisterStage, ServiceAction, ServiceEvent,
    VerifyTokenFlow, VerifyTokenStage,
};

fn jwt() -> JwtManager {
    JwtManager::new(
        JwtConfig {
            issuer: "svc".to_string(),
            audience: "svc".to_string(),
            access_ttl_secs: 900,
            refresh_ttl_secs: 604800,
            skew_secs: 60,
            algorithm: JwtAlgorithm::HS256,
        },
        JwtKeys::Hs256 { secret: "k".to_string() },
    )
}

fn now() -> i64 {
    std::time::SystemTime::now().duration_since(std::time::UNIX_EPOCH).unwrap().as_secs() as i64
}

fn user(password_hash: &str) -> User {
    User {
        id: 7,
        username: "bob".to_string(),
        email: "b@example.com".to_string(),
        password_hash: password_hash.to_string(),
        role: "user".to_string(),
        created_at: UtcTime { secs: 0, nanos: 0 },
        updated_at: UtcTime { secs: 0, nanos: 0 },
    }
}

#[test]
fn registration_runs_its_steps_in_order() {
    let m = jwt();
    let (flow, action) = RegisterFlow::start(
        "bob".to_string(),
        "b@example.com".to_string(),
        "pw".to_string(),
        PasswordHashAlgorithm::Sha256Hex,
    );
    assert!(matches!(action, ServiceAction::FindUserByUsername(ref u) if u == "bob"));
    let (flow, action) = flow.step(&m, now(), ServiceEvent::UserFound(None));
    assert!(matches!(action, ServiceAction::FindUserByEmail(ref e) if e == "b@example.com"));
    let (flow, action) = flow.step(&m, now(), ServiceEvent::UserFound(None));
    match action {
        ServiceAction::CreateUser { username, email, password_hash, role } => {
            assert_eq!(username, "bob");
            assert_eq!(email, "b@example.com");
            assert_eq!(password_hash, hash_password("pw", PasswordHashAlgorithm::Sha256Hex));
            assert_eq!(role, "user");
        }
        other => panic!("unexpected {:?}", other),
    }
    let (flow, action) = flow.step(&m, now(), ServiceEvent::UserCreated(user("h")));
    let token = match action {
        ServiceAction::CacheToken { key, user_id, ttl_secs } => {
            assert!(key.starts_with("access:"));
            assert_eq!((user_id, ttl_secs), (7, 900));
            key["access:".len()..].to_string()
        }
        other => panic!("unexpected {:?}", other),
    };
    assert!(matches!(flow.stage, RegisterStage::AwaitCaching(_)));
    let (flow, action) = flow.step(&m, now(), ServiceEvent::TokenCached);
    match action {
        ServiceAction::RespondRegister(r) => {
            assert_eq!(r.token, token);
            assert_eq!(r.user.unwrap().username, "bob");
        }
        other => panic!("unexpected {:?}", other),
    }
    assert!(matches!(flow.stage, RegisterStage::Finished));
    assert_eq!(m.validate_access(&token).unwrap().sub, "7");
}

#[test]
fn registration_refuses_taken_names() {
    let m = jwt();
    let start = || {
        RegisterFlow::start("bob".to_string(), "e".to_string(), "pw".to_string(), PasswordHashAlgorithm::Plain)
    };
    let (flow, _) = start();
    let (_, action) = flow.step(&m, 0, ServiceEvent::UserFound(Some(user("h"))));
    assert!(matches!(action, ServiceAction::Fail(ServiceError::AlreadyExists(ref t)) if t == "Username already exists"));
    let (flow, _) = start();
    let (flow, _) = flow.step(&m, 0, ServiceEvent::UserFound(None));
    let (_, action) = flow.step(&m, 0, ServiceEvent::UserFound(Some(user("h"))));
    assert!(matches!(action, ServiceAction::Fail(ServiceError::AlreadyExists(ref t)) if t == "Email already exists"));
}

#[test]
fn unexpected_events_fail_the_call() {
    let m = jwt();
    let (flow, _) = RegisterFlow::start("a".to_string(), "b".to_string(), "c".to_string(), PasswordHashAlgorithm::Plain);
    let (flow, action) = flow.step(&m, 0, ServiceEvent::TokenCached);
    assert!(matches!(action, ServiceAction::Fail(ServiceError::Internal(ref t)) if t == "unexpected event"));
    assert!(matches!(flow.stage, RegisterStage::Finished));
}

#[test]
fn login_caches_access_then_refresh_token() {
    let m = jwt();
    let stored = hash_password("pw", PasswordHashAlgorithm::Plain);
    let (flow, action) = LoginFlow::start("bob".to_string(), "pw".to_string(), PasswordHashAlgorithm::Plain);
    assert!(matches!(action, ServiceAction::FindUserByUsername(ref u) if u == "bob"));
    let (flow, action) = flow.step(&m, now(), ServiceEvent::UserFound(Some(user(&stored))));
    let access = match action {
        ServiceAction::CacheToken { key, user_id, ttl_secs } => {
            assert_eq!((user_id, ttl_secs), (7, 900));
            key["access:".len()..].to_string()
        }
        other => panic!("unexpected {:?}", other),
    };
    let (flow, action) = flow.step(&m, now(), ServiceEvent::TokenCached);
    match action {
        ServiceAction::CacheToken { key, user_id, ttl_secs } => {
            assert!(key.starts_with("refresh:"));
            assert_eq!((user_id, ttl_secs), (7, 604800));
            let refresh = &key["refresh:".len()..];
            assert_eq!(m.validate_refresh(refresh).unwrap().typ, "refresh");
        }
        other => panic!("unexpected {:?}", other),
    }
    assert!(matches!(flow.stage, LoginStage::AwaitRefreshCaching(_)));
    let (_, action) = flow.step(&m, now(), ServiceEvent::TokenCached);
    match action {
        ServiceAction::RespondLogin(r) => {
            assert_eq!(r.token, access);
            assert_eq!(r.expires_in, 900);
        }
        other => panic!("unexpected {:?}", other),
    }
}

#[test]
fn login_refuses_unknown_users_and_wrong_passwords() {
    let m = jwt();
    let (flow, _) = LoginFlow::start("bob".to_string(), "pw".to_string(), PasswordHashAlgorithm::Plain);
    let (_, action) = flow.step(&m, 0, ServiceEvent::UserFound(None));
    assert!(matches!(action, ServiceAction::Fail(ServiceError::NotFound(ref t)) if t == "User not found"));
    let (flow, _) = LoginFlow::start("bob".to_string(), "bad".to_string(), PasswordHashAlgorithm::Plain);
    let (_, action) = flow.step(&m, 0, ServiceEvent::UserFound(Some(user("pw"))));
    assert!(matches!(action, ServiceAction::Fail(ServiceError::Unauthenticated(ref t)) if t == "Invalid password"));
}

#[test]
fn token_check_steps_through_cache_token_and_user() {
    let m = jwt();
    let token = m.sign_access("7", "bob", "user", 0, now()).unwrap();
    let (flow, action) = VerifyTokenFlow::start(token.clone());
    assert!(matches!(action, ServiceAction::CheckCachedKey(ref k) if *k == format!("access:{}", token)));
    let (flow, action) = flow.step(&m, ServiceEvent::CacheChecked(true));
    assert!(matches!(action, ServiceAction::FindUserById(7)));
    assert!(matches!(flow.stage, VerifyTokenStage::AwaitUser));
    let (_, action) = flow.step(&m, ServiceEvent::UserFound(Some(user("h"))));
    assert!(matches!(action, ServiceAction::RespondVerifyToken(ref r) if r.valid && r.user.is_some()));

    let (flow, _) = VerifyTokenFlow::start(token.clone());
    let (_, action) = flow.step(&m, ServiceEvent::CacheChecked(false));
    assert!(matches!(action, ServiceAction::RespondVerifyToken(ref r) if !r.valid && r.user.is_none()));

    let (flow, _) = VerifyTokenFlow::start("junk".to_string());
    let (_, action) = flow.step(&m, ServiceEvent::CacheChecked(true));
    assert!(matches!(action, ServiceAction::RespondVerifyToken(ref r) if !r.valid));

    let (flow, _) = VerifyTokenFlow::start(token);
    let (flow, _) = flow.step(&m, ServiceEvent::CacheChecked(true));
    let (_, action) = flow.step(&m, ServiceEvent::UserFound(None));
    assert!(matches!(action, ServiceAction::RespondVerifyToken(ref r) if !r.valid && r.user.is_none()));
}

#[test]
fn try_steps_refuse_unusable_keys_only_where_needed() {
    let mut m = jwt();
    m.keys = JwtKeys::Rs256 { private_pem: "x".to_string(), public_pem: "y".to_string(), kid: None };
    let (flow, _) = RegisterFlow::start("a".to_string(), "b".to_string(), "c".to_string(), PasswordHashAlgorithm::Plain);
    let (flow, _) = flow.try_step(&m, 0, ServiceEvent::UserFound(None)).unwrap();
    let (flow, _) = flow.try_step(&m, 0, ServiceEvent::UserFound(None)).unwrap();
    assert!(flow.try_step(&m, 0, ServiceEvent::UserCreated(user("h"))).is_none());
    let (flow, _) = VerifyTokenFlow::start("t".to_string());
    assert!(flow.clone().try_step(&m, ServiceEvent::CacheChecked(false)).is_some());
    assert!(flow.try_step(&m, ServiceEvent::CacheChecked(true)).is_none());
}
