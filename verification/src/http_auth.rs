//! Logging in, registering and refreshing tokens: what the service decides
//! once the user store has answered.

use vstd::prelude::*;
use vstd::string::*;
use crate::api_error::ApiError;
use crate::auth::{
    generate_access_token, generate_refresh_token, hash_pin, pin_verification,
    validate_refresh_token, verify_pin, Claims, TokenError, TokenType,
};
use crate::config::JwtConfig;
use crate::role::{role_name, Role};

verus! {

/// A request to log in.
#[derive(Clone, Debug)]
pub struct LoginRequest {
    pub user_id: String,
    pub pin: String,
}

/// A request to register.
#[derive(Clone, Debug)]
pub struct RegisterRequest {
    pub user_id: String,
    pub pin: String,
    /// The role wished for. New users are plain users whatever it says.
    pub role: Option<String>,
}

/// A pair of tokens and how long each lives, in seconds.
#[derive(Clone, Debug)]
pub struct AuthResponse {
    pub token: String,
    pub refresh_token: String,
    pub user_id: String,
    pub role: String,
    pub expires_in: i64,
    pub refresh_expires_in: i64,
}

/// A request for a new pair of tokens.
#[derive(Clone, Debug)]
pub struct RefreshTokenRequest {
    pub token: String,
}

/// Reports a token that was not issued or not accepted as a failure of
/// authentication; the message is the token library's where it gave one.
pub fn token_failure(error: TokenError) -> (r: ApiError)
    ensures
        r is Authentication,
        error matches TokenError::Rejected(message) ==> (r matches ApiError::Authentication(m) && m
            == message),
        !(error is Rejected) ==> (r matches ApiError::Authentication(m) && m@.len() == 0),
{
    match error {
        TokenError::Rejected(message) => ApiError::Authentication(message),
        _ => ApiError::Authentication(String::new()),
    }
}

/// Issues an access token and a refresh token for `user_id` with `role`,
/// each with the lifetime that `jwt` gives it.
pub fn issue_tokens(jwt: &JwtConfig, user_id: &str, role: Role) -> (r: Result<AuthResponse, ApiError>)
    ensures
        match r {
            Ok(response) => {
                &&& response.user_id@ == user_id@
                &&& response.role@ == role_name(role)
                &&& response.expires_in == jwt.expiration_hours * 3600
                &&& response.refresh_expires_in == jwt.refresh_expiration_hours * 3600
            },
            Err(e) => e is Authentication,
        },
{
    let token = match generate_access_token(
        user_id,
        role,
        jwt.secret.as_str(),
        jwt.expiration_hours,
    ) {
        Ok(token) => token,
        Err(e) => {
            return Err(token_failure(e));
        },
    };
    let refresh_token = match generate_refresh_token(
        user_id,
        role,
        jwt.secret.as_str(),
        jwt.refresh_expiration_hours,
    ) {
        Ok(token) => token,
        Err(e) => {
            return Err(token_failure(e));
        },
    };
    Ok(
        AuthResponse {
            token,
            refresh_token,
            user_id: String::from_str(user_id),
            role: role.to_string(),
            expires_in: jwt.expiration_hours * 3600,
            refresh_expires_in: jwt.refresh_expiration_hours * 3600,
        },
    )
}

/// Answers a request to log in, for the user `user_id` with `role` whose
/// PIN is stored as `pin_hash`: tokens if the PIN of the request is the
/// stored one, and a failure of authentication if it is not.
pub fn login(
    jwt: &JwtConfig,
    request: &LoginRequest,
    user_id: &str,
    role: Role,
    pin_hash: &str,
) -> (r: Result<AuthResponse, ApiError>)
    ensures
        pin_verification(request.pin@, pin_hash@) is None ==> r matches Err(
            ApiError::InternalServerError(_),
        ),
        pin_verification(request.pin@, pin_hash@) == Some(false) ==> (r matches Err(
            ApiError::Authentication(message),
        ) && message@ == "Invalid credentials"@),
        pin_verification(request.pin@, pin_hash@) == Some(true) ==> match r {
            Ok(response) => {
                &&& response.user_id@ == user_id@
                &&& response.role@ == role_name(role)
                &&& response.expires_in == jwt.expiration_hours * 3600
                &&& response.refresh_expires_in == jwt.refresh_expiration_hours * 3600
            },
            Err(e) => e is Authentication,
        },
{
    match verify_pin(request.pin.as_str(), pin_hash) {
        Err(e) => Err(e),
        Ok(false) => Err(ApiError::Authentication(String::from_str("Invalid credentials"))),
        Ok(true) => issue_tokens(jwt, user_id, role),
    }
}

/// Answers the first half of a request to register: a conflict if the user
/// exists, and the hash of the PIN to store if not.
pub fn register_pin(request: &RegisterRequest, user_exists: bool) -> (r: Result<String, ApiError>)
    ensures
        user_exists ==> (r matches Err(ApiError::Conflict(message)) && message@
            == "User already exists"@),
        !user_exists ==> match r {
            Ok(hash) => pin_verification(request.pin@, hash@) == Some(true),
            Err(e) => e is InternalServerError,
        },
{
    if user_exists {
        return Err(ApiError::Conflict(String::from_str("User already exists")));
    }
    hash_pin(request.pin.as_str())
}

/// Accepts a request for new tokens only with a refresh token that is
/// sound.
pub fn refresh_claims(jwt: &JwtConfig, request: &RefreshTokenRequest) -> (r: Result<
    Claims,
    ApiError,
>)
    ensures
        match r {
            Ok(claims) => claims.token_type == TokenType::Refresh,
            Err(e) => e is Authentication,
        },
{
    match validate_refresh_token(request.token.as_str(), jwt.secret.as_str()) {
        Ok(claims) => Ok(claims),
        Err(e) => Err(token_failure(e)),
    }
}

/// Answers a request for new tokens whose refresh token stated `claims`:
/// tokens for the same user and role if the user still exists, and a
/// failure of authentication if not.
pub fn refresh_token(jwt: &JwtConfig, claims: &Claims, user_exists: bool) -> (r: Result<
    AuthResponse,
    ApiError,
>)
    ensures
        !user_exists ==> (r matches Err(ApiError::Authentication(message)) && message@
            == "User not found"@),
        user_exists ==> match r {
            Ok(response) => {
                &&& response.user_id@ == claims.sub@
                &&& response.role@ == role_name(claims.role)
                &&& response.expires_in == jwt.expiration_hours * 3600
                &&& response.refresh_expires_in == jwt.refresh_expiration_hours * 3600
            },
            Err(e) => e is Authentication,
        },
{
    if !user_exists {
        return Err(ApiError::Authentication(String::from_str("User not found")));
    }
    issue_tokens(jwt, claims.sub.as_str(), claims.role)
}

} // verus!
