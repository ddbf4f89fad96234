//! What the service decides before a request reaches its handler: who the
//! caller is, and under which key the request counts against the rate
//! limit.

use vstd::prelude::*;
use vstd::string::*;
use crate::api_error::ApiError;
use crate::auth::{issued, validate_access_token, TokenType};
use crate::config::RateLimitScope;
use crate::role::Role;
use crate::text::{has_prefix, strip_prefix};

verus! {

/// The caller of a request, as the access token states it.
#[derive(Clone, Debug)]
pub struct AuthenticatedUser {
    pub user_id: String,
    pub role: Role,
}

/// The token of an authorization header: what follows `Bearer `, if the
/// header begins so.
pub fn bearer_token<'a>(header: &'a str) -> (r: Option<&'a str>)
    ensures
        match r {
            Some(token) => has_prefix(header@, "Bearer "@) && token@ == header@.subrange(
                "Bearer "@.len() as int,
                header@.len() as int,
            ),
            None => !has_prefix(header@, "Bearer "@),
        },
{
    strip_prefix(header, "Bearer ")
}

/// The bearer token of a request with the given authorization header, if
/// it has one.
pub open spec fn bearer_text(header: Option<&str>) -> Option<Seq<char>> {
    match header {
        Some(text) => if has_prefix(text@, "Bearer "@) {
            Some(text@.subrange("Bearer "@.len() as int, text@.len() as int))
        } else {
            None
        },
        None => None,
    }
}

/// The caller of a request with the given authorization header, if the
/// header carries an access token that is sound.
///
/// Whether the token library accepts a token depends on the time. Whatever
/// it answers: a request without a bearer token has no caller; a request
/// whose bearer token this service issued with the same secret has a caller
/// only if the token is an access token, and the caller is then the user and
/// the role that the token was issued for.
pub fn authenticate(header: Option<&str>, secret: &str) -> (r: Option<AuthenticatedUser>)
    ensures
        bearer_text(header) is None ==> r is None,
        forall|user: Seq<char>, role: Role, token_type: TokenType, exp: usize, iat: usize|
            bearer_text(header) is Some && #[trigger] issued(
                bearer_text(header).unwrap(),
                secret@,
                user,
                role,
                token_type,
                exp,
                iat,
            ) ==> (r matches Some(caller) ==> token_type == TokenType::Access && caller.user_id@
                == user && caller.role == role),
{
    let token = match header {
        Some(text) => match bearer_token(text) {
            Some(token) => token,
            None => {
                return None;
            },
        },
        None => {
            return None;
        },
    };
    match validate_access_token(token, secret) {
        Ok(claims) => Some(AuthenticatedUser { user_id: claims.sub, role: claims.role }),
        Err(_) => None,
    }
}

/// The user of a request, if it has one.
pub fn get_user_id_from_request(user: Option<AuthenticatedUser>) -> (r: Option<String>)
    ensures
        r == match user {
            Some(user) => Some(user.user_id),
            None => None,
        },
{
    match user {
        Some(user) => Some(user.user_id),
        None => None,
    }
}

/// The key under which a request counts against the rate limit: the
/// client's address, or the user or the API key where the scope asks for it
/// and the request has one.
pub fn rate_limit_key(
    scope: RateLimitScope,
    ip: String,
    user_id: Option<String>,
    api_key: Option<String>,
) -> (r: String)
    ensures
        r == match scope {
            RateLimitScope::Ip => ip,
            RateLimitScope::User => match user_id {
                Some(user_id) => user_id,
                None => ip,
            },
            RateLimitScope::ApiKey => match api_key {
                Some(api_key) => api_key,
                None => ip,
            },
        },
{
    match scope {
        RateLimitScope::Ip => ip,
        RateLimitScope::User => match user_id {
            Some(user_id) => user_id,
            None => ip,
        },
        RateLimitScope::ApiKey => match api_key {
            Some(api_key) => api_key,
            None => ip,
        },
    }
}

/// Lets a request pass if the rate limiter allowed it.
pub fn rate_limit(allowed: bool) -> (r: Result<(), ApiError>)
    ensures
        allowed ==> r is Ok,
        !allowed ==> (r matches Err(ApiError::RateLimit(message)) && message@
            == "Too many requests"@),
{
    if !allowed {
        return Err(ApiError::RateLimit(String::from_str("Too many requests")));
    }
    Ok(())
}

} // verus!
