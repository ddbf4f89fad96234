use zaps::auth::{generate_access_token, validate_jwt};
use zaps::middleware::{
    authenticate, bearer_token, get_user_id_from_request, rate_limit, rate_limit_key,
    AuthenticatedUser,
};
use zaps::api_error::ApiError;
use zaps::config::RateLimitScope;
use zaps::role::Role;

#[test]
fn test_role_from_str() {
    assert_eq!(Role::from_str("admin"), Role::Admin);
    assert_eq!(Role::from_str("Admin"), Role::Admin);
    assert_eq!(Role::from_str("ADMIN"), Role::Admin);
    assert_eq!(Role::from_str("merchant"), Role::Merchant);
    assert_eq!(Role::from_str("Merchant"), Role::Merchant);
    assert_eq!(Role::from_str("user"), Role::User);
    assert_eq!(Role::from_str("unknown"), Role::User);
    assert_eq!(Role::from_str(""), Role::User);
}

#[test]
fn test_role_as_str() {
    assert_eq!(Role::Admin.as_str(), "admin");
    assert_eq!(Role::Merchant.as_str(), "merchant");
    assert_eq!(Role::User.as_str(), "user");
}

#[test]
fn test_role_display() {
    assert_eq!(Role::Admin.to_string(), "admin");
    assert_eq!(Role::Merchant.to_string(), "merchant");
    assert_eq!(Role::User.to_string(), "user");
}

#[test]
fn test_role_default() {
    assert_eq!(Role::default(), Role::User);
}

#[test]
fn test_admin_has_all_permissions() {
    assert!(Role::Admin.has_permission(&Role::Admin));
    assert!(Role::Admin.has_permission(&Role::Merchant));
    assert!(Role::Admin.has_permission(&Role::User));
}

#[test]
fn test_merchant_permissions() {
    assert!(!Role::Merchant.has_permission(&Role::Admin));
    assert!(Role::Merchant.has_permission(&Role::Merchant));
    assert!(Role::Merchant.has_permission(&Role::User));
}

#[test]
fn test_user_permissions() {
    assert!(!Role::User.has_permission(&Role::Admin));
    assert!(!Role::User.has_permission(&Role::Merchant));
    assert!(Role::User.has_permission(&Role::User));
}

#[test]
fn test_role_equality() {
    assert_eq!(Role::Admin, Role::Admin);
    assert_eq!(Role::Merchant, Role::Merchant);
    assert_eq!(Role::User, Role::User);
    assert_ne!(Role::Admin, Role::Merchant);
    assert_ne!(Role::Merchant, Role::User);
    assert_ne!(Role::Admin, Role::User);
}

#[test]
fn test_role_clone() {
    let admin = Role::Admin;
    let cloned = admin.clone();
    assert_eq!(admin, cloned);
}

#[test]
fn test_jwt_with_user_role() {
    let token = generate_access_token("user123", Role::User, "test-secret", 1).unwrap();
    let claims = validate_jwt(&token, "test-secret").unwrap();

    assert_eq!(claims.sub, "user123");
    assert_eq!(claims.role, Role::User);
}

#[test]
fn test_jwt_with_admin_role() {
    let token = generate_access_token("admin123", Role::Admin, "test-secret", 1).unwrap();
    let claims = validate_jwt(&token, "test-secret").unwrap();

    assert_eq!(claims.sub, "admin123");
    assert_eq!(claims.role, Role::Admin);
}

#[test]
fn test_jwt_with_merchant_role() {
    let token = generate_access_token("merchant123", Role::Merchant, "test-secret", 1).unwrap();
    let claims = validate_jwt(&token, "test-secret").unwrap();

    assert_eq!(claims.sub, "merchant123");
    assert_eq!(claims.role, Role::Merchant);
}

#[test]
fn test_jwt_invalid_token() {
    let result = validate_jwt("invalid-token", "test-secret");
    assert!(result.is_err());
}

#[test]
fn test_jwt_wrong_secret() {
    let token = generate_access_token("user123", Role::User, "secret1", 1).unwrap();
    let result = validate_jwt(&token, "secret2");
    assert!(result.is_err());
}

#[test]
fn test_jwt_role_preserved_in_claims() {
    for role in [Role::User, Role::Merchant, Role::Admin] {
        let token = generate_access_token("testuser", role, "secret", 1).unwrap();
        let claims = validate_jwt(&token, "secret").unwrap();
        assert_eq!(claims.role, role, "Role should be preserved in JWT claims");
    }
}

#[test]
fn test_authenticated_user_creation() {
    let user = AuthenticatedUser { user_id: "user123".to_string(), role: Role::Admin };

    assert_eq!(user.user_id, "user123");
    assert_eq!(user.role, Role::Admin);
}

#[test]
fn test_authenticated_user_clone() {
    let user = AuthenticatedUser { user_id: "user123".to_string(), role: Role::Merchant };

    let cloned = user.clone();
    assert_eq!(user.user_id, cloned.user_id);
    assert_eq!(user.role, cloned.role);
}

#[test]
fn role_names_are_parsed_exactly_for_tokens() {
    assert_eq!(Role::parse_exact("admin"), Some(Role::Admin));
    assert_eq!(Role::parse_exact("merchant"), Some(Role::Merchant));
    assert_eq!(Role::parse_exact("user"), Some(Role::User));
    assert_eq!(Role::parse_exact("Admin"), None);
    assert_eq!(Role::parse_exact("unknown"), None);
    assert_eq!(Role::parse_exact(""), None);
}

#[test]
fn role_names_are_read_whatever_the_case_of_ascii_letters() {
    assert_eq!(Role::from_str("mErChAnT"), Role::Merchant);
    assert_eq!(Role::from_str("admin "), Role::User);
    assert_eq!(Role::from_str("admi"), Role::User);
    assert_eq!(Role::from_str("ädmin"), Role::User);
    assert_eq!(Role::from_str("USER"), Role::User);
}

#[test]
fn the_bearer_token_is_what_follows_the_prefix() {
    assert_eq!(bearer_token("Bearer abc.def"), Some("abc.def"));
    assert_eq!(bearer_token("Bearer "), Some(""));
    assert_eq!(bearer_token("Bearer  x"), Some(" x"));
    assert_eq!(bearer_token("Bearer tökén"), Some("tökén"));
    assert_eq!(bearer_token("bearer abc"), None);
    assert_eq!(bearer_token("Bearer"), None);
    assert_eq!(bearer_token("Basic abc"), None);
    assert_eq!(bearer_token(""), None);
    assert_eq!(bearer_token(" Bearer abc"), None);
}

#[test]
fn a_request_is_authenticated_by_a_sound_access_token() {
    let secret = "test-secret";
    let access = generate_access_token("user123", Role::Merchant, secret, 1).unwrap();
    let header = format!("Bearer {}", access);
    let user = authenticate(Some(&header), secret).expect("the token is sound");
    assert_eq!(user.user_id, "user123");
    assert_eq!(user.role, Role::Merchant);

    assert!(authenticate(None, secret).is_none());
    assert!(authenticate(Some(&access), secret).is_none());
    assert!(authenticate(Some("Bearer nonsense"), secret).is_none());
    assert!(authenticate(Some(&header), "other-secret").is_none());
    let refresh = zaps::auth::generate_refresh_token("user123", Role::Merchant, secret, 1).unwrap();
    assert!(authenticate(Some(&format!("Bearer {}", refresh)), secret).is_none());
}

#[test]
fn the_user_of_a_request_is_the_authenticated_one() {
    let user = AuthenticatedUser { user_id: "user123".to_string(), role: Role::User };
    assert_eq!(get_user_id_from_request(Some(user)), Some("user123".to_string()));
    assert_eq!(get_user_id_from_request(None), None);
}

#[test]
fn the_rate_limit_key_follows_the_scope() {
    let ip = || "127.0.0.1".to_string();
    let user = || Some("user123".to_string());
    let key = || Some("key-1".to_string());
    assert_eq!(rate_limit_key(RateLimitScope::Ip, ip(), user(), key()), "127.0.0.1");
    assert_eq!(rate_limit_key(RateLimitScope::User, ip(), user(), key()), "user123");
    assert_eq!(rate_limit_key(RateLimitScope::User, ip(), None, key()), "127.0.0.1");
    assert_eq!(rate_limit_key(RateLimitScope::ApiKey, ip(), user(), key()), "key-1");
    assert_eq!(rate_limit_key(RateLimitScope::ApiKey, ip(), user(), None), "127.0.0.1");
}

#[test]
fn a_request_over_the_limit_is_refused() {
    assert!(rate_limit(true).is_ok());
    match rate_limit(false) {
        Err(ApiError::RateLimit(message)) => assert_eq!(message, "Too many requests"),
        other => panic!("unexpected answer: {:?}", other),
    }
}
