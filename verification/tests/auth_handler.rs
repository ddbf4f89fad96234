use zaps::api_error::ApiError;
use zaps::auth::{self, TokenType};
use zaps::config::JwtConfig;
use zaps::http_auth::{
    issue_tokens, login, refresh_claims, refresh_token, register_pin, token_failure, LoginRequest,
    RefreshTokenRequest, RegisterRequest,
};
use zaps::role::Role;

#[test]
fn test_pin_hash_and_verify_flow() {
    let pin = "1234";
    let hash = auth::hash_pin(pin).expect("Failed to hash");

    assert!(auth::verify_pin(pin, &hash).expect("Failed to verify"));
    assert!(!auth::verify_pin("wrong", &hash).expect("Failed to verify"));
}

#[test]
fn test_access_token_cannot_refresh() {
    let secret = "test-secret";
    let role = Role::User;
    let access_token = auth::generate_access_token("user1", role, secret, 1).unwrap();

    let result = auth::validate_refresh_token(&access_token, secret);
    assert!(result.is_err());
}

#[test]
fn test_refresh_token_cannot_access() {
    let secret = "test-secret";
    let role = Role::User;
    let refresh_token = auth::generate_refresh_token("user1", role, secret, 168).unwrap();

    let result = auth::validate_access_token(&refresh_token, secret);
    assert!(result.is_err());
}

#[test]
fn test_token_pair_generation() {
    let secret = "test-secret";
    let user_id = "testuser";
    let role = Role::User;

    let access = auth::generate_access_token(user_id, role, secret, 24).unwrap();
    let refresh = auth::generate_refresh_token(user_id, role, secret, 168).unwrap();

    let access_claims = auth::validate_access_token(&access, secret).unwrap();
    let refresh_claims = auth::validate_refresh_token(&refresh, secret).unwrap();

    assert_eq!(access_claims.sub, user_id);
    assert_eq!(access_claims.role, role);
    assert_eq!(access_claims.token_type, TokenType::Access);
    assert_eq!(refresh_claims.sub, user_id);
    assert_eq!(refresh_claims.role, role);
    assert_eq!(refresh_claims.token_type, TokenType::Refresh);

    assert_ne!(access, refresh);
}

#[test]
fn a_hash_is_salted_and_has_the_shape_of_a_bcrypt_hash() {
    let first = auth::hash_pin("1234").unwrap();
    let second = auth::hash_pin("1234").unwrap();
    assert_ne!(first, "1234");
    assert_ne!(first, second);
    assert!(first.starts_with("$2b$12$"), "{}", first);
    assert_eq!(first.len(), 60);
    assert!(auth::verify_pin("1234", &second).unwrap());
}

#[test]
fn a_known_hash_is_verified() {
    let hash = "$2a$04$UuTkLRZZ6QofpDOlMz32MuuxEHA43WOemOYHPz6.SjsVsyO1tDU96";
    assert!(auth::verify_pin("password", hash).unwrap());
    assert!(!auth::verify_pin("passwore", hash).unwrap());
}

#[test]
fn a_text_that_is_no_hash_is_a_failure_of_the_service() {
    match auth::verify_pin("1234", "not-a-hash") {
        Err(ApiError::InternalServerError(message)) => assert_eq!(message, ""),
        other => panic!("unexpected answer: {:?}", other),
    }
}

fn jwt() -> JwtConfig {
    JwtConfig {
        secret: "test-secret".to_string(),
        expiration_hours: 24,
        refresh_expiration_hours: 168,
    }
}

#[test]
fn tokens_are_issued_with_their_lifetimes_in_seconds() {
    let response = issue_tokens(&jwt(), "user1", Role::Merchant).unwrap();
    assert_eq!(response.user_id, "user1");
    assert_eq!(response.role, "merchant");
    assert_eq!(response.expires_in, 86_400);
    assert_eq!(response.refresh_expires_in, 604_800);
    let access = auth::validate_access_token(&response.token, "test-secret").unwrap();
    assert_eq!(access.sub, "user1");
    assert_eq!(access.role, Role::Merchant);
    assert_eq!(access.exp - access.iat, 86_400);
    let refresh = auth::validate_refresh_token(&response.refresh_token, "test-secret").unwrap();
    assert_eq!(refresh.exp - refresh.iat, 604_800);
}

#[test]
fn tokens_with_an_impossible_lifetime_are_not_issued() {
    let config = JwtConfig { expiration_hours: i64::MAX, ..jwt() };
    match issue_tokens(&config, "user1", Role::User) {
        Err(ApiError::Authentication(message)) => assert_eq!(message, ""),
        other => panic!("unexpected answer: {:?}", other),
    }
}

#[test]
fn login_succeeds_with_the_stored_pin_only() {
    let hash = auth::hash_pin("1234").unwrap();
    let request = |pin: &str| LoginRequest { user_id: "user1".to_string(), pin: pin.to_string() };

    let response = login(&jwt(), &request("1234"), "user1", Role::User, &hash).unwrap();
    assert_eq!(response.user_id, "user1");
    assert_eq!(response.role, "user");
    assert_eq!(response.expires_in, 86_400);

    match login(&jwt(), &request("4321"), "user1", Role::User, &hash) {
        Err(ApiError::Authentication(message)) => assert_eq!(message, "Invalid credentials"),
        other => panic!("unexpected answer: {:?}", other),
    }
    match login(&jwt(), &request("1234"), "user1", Role::User, "no hash") {
        Err(ApiError::InternalServerError(_)) => {}
        other => panic!("unexpected answer: {:?}", other),
    }
}

#[test]
fn registration_of_an_existing_user_is_a_conflict() {
    let request =
        RegisterRequest { user_id: "user1".to_string(), pin: "1234".to_string(), role: None };
    match register_pin(&request, true) {
        Err(ApiError::Conflict(message)) => assert_eq!(message, "User already exists"),
        other => panic!("unexpected answer: {:?}", other),
    }
    let hash = register_pin(&request, false).unwrap();
    assert!(auth::verify_pin("1234", &hash).unwrap());
}

#[test]
fn only_a_refresh_token_buys_new_tokens() {
    let config = jwt();
    let access = auth::generate_access_token("user1", Role::Admin, &config.secret, 1).unwrap();
    let refresh = auth::generate_refresh_token("user1", Role::Admin, &config.secret, 1).unwrap();

    let refused = refresh_claims(&config, &RefreshTokenRequest { token: access });
    assert!(matches!(refused, Err(ApiError::Authentication(_))));
    let refused = refresh_claims(&config, &RefreshTokenRequest { token: "junk".to_string() });
    match refused {
        Err(ApiError::Authentication(message)) => assert!(!message.is_empty()),
        other => panic!("unexpected answer: {:?}", other),
    }

    let claims = refresh_claims(&config, &RefreshTokenRequest { token: refresh }).unwrap();
    assert_eq!(claims.sub, "user1");
    assert_eq!(claims.token_type, TokenType::Refresh);

    match refresh_token(&config, &claims, false) {
        Err(ApiError::Authentication(message)) => assert_eq!(message, "User not found"),
        other => panic!("unexpected answer: {:?}", other),
    }
    let response = refresh_token(&config, &claims, true).unwrap();
    assert_eq!(response.user_id, "user1");
    assert_eq!(response.role, "admin");
    assert_eq!(response.refresh_expires_in, 604_800);
}

#[test]
fn a_token_failure_is_a_failure_of_authentication() {
    match token_failure(auth::TokenError::Rejected("InvalidSignature".to_string())) {
        ApiError::Authentication(message) => assert_eq!(message, "InvalidSignature"),
        other => panic!("unexpected answer: {:?}", other),
    }
    match token_failure(auth::TokenError::WrongTokenType) {
        ApiError::Authentication(message) => assert_eq!(message, ""),
        other => panic!("unexpected answer: {:?}", other),
    }
}
