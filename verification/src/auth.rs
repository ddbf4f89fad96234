//! Access and refresh tokens, and the hashing of PINs.
//!
//! Tokens are signed and checked by the `jsonwebtoken` crate and PINs are
//! hashed by the `bcrypt` crate. What this module adds is the service's own
//! rules: which claims a token carries, how long it lives, and that a token
//! of one type is never accepted as the other.

use vstd::prelude::*;
use vstd::string::*;
use crate::api_error::ApiError;
use crate::role::{exact_role_of, role_name, Role};
use crate::text::is_text;

verus! {

/// What a token is good for.
#[derive(Clone, Copy, Debug, PartialEq, Eq, Structural)]
pub enum TokenType {
    /// Short-lived; opens the service.
    Access,
    /// Long-lived; buys a new pair of tokens.
    Refresh,
}

/// What a token states.
#[derive(Clone, Debug)]
pub struct Claims {
    /// The user.
    pub sub: String,
    /// The user's role.
    pub role: Role,
    /// What the token is good for.
    pub token_type: TokenType,
    /// When the token expires, in seconds since the epoch.
    pub exp: usize,
    /// When the token was issued, in seconds since the epoch.
    pub iat: usize,
}

/// The claims of a token as they were read from it, each one present or
/// not.
#[derive(Clone, Debug)]
pub struct RawClaims {
    pub sub: Option<String>,
    pub role: Option<String>,
    pub token_type: Option<String>,
    pub exp: Option<u64>,
    pub iat: Option<u64>,
}

/// Why a token was not issued or not accepted.
#[derive(Clone, Debug)]
pub enum TokenError {
    /// The token library refused to sign the claims or to accept the token;
    /// with its message.
    Rejected(String),
    /// The token is sound and its claims are not those of this service.
    MalformedClaims,
    /// The token is of the other type.
    WrongTokenType,
    /// The time of issue or of expiry cannot be written in a token.
    InvalidLifetime,
}

/// The name of a token type.
pub open spec fn token_type_name(token_type: TokenType) -> Seq<char> {
    match token_type {
        TokenType::Access => seq!['a', 'c', 'c', 'e', 's', 's'],
        TokenType::Refresh => seq!['r', 'e', 'f', 'r', 'e', 's', 'h'],
    }
}

/// The token type that a text names exactly, if it names one.
pub open spec fn token_type_of(s: Seq<char>) -> Option<TokenType> {
    if s == token_type_name(TokenType::Access) {
        Some(TokenType::Access)
    } else if s == token_type_name(TokenType::Refresh) {
        Some(TokenType::Refresh)
    } else {
        None
    }
}

/// Whether a time, in seconds since the epoch, can be written in a token.
pub open spec fn writable_time(t: int) -> bool {
    0 <= t <= i64::MAX && t <= usize::MAX
}

/// The time at which a token issued at `now` for `expiration_hours` hours
/// expires.
pub open spec fn expiry(now: i64, expiration_hours: i64) -> int {
    now + expiration_hours * 3600
}

/// Whether a lifetime of `expiration_hours` hours ends at a time that cannot
/// be written in a token, whenever the token is issued.
pub open spec fn never_writable(expiration_hours: i64) -> bool {
    expiration_hours * 3600 > i64::MAX || expiration_hours * 3600 < -i64::MAX
}

/// The token that `jsonwebtoken::encode` makes, with its default header and
/// the secret as the key, of the claims `sub`, `role`, `token_type`, `exp`
/// and `iat`; `None` where it fails.
pub uninterp spec fn signed_token(
    sub: Seq<char>,
    role: Seq<char>,
    token_type: Seq<char>,
    exp: nat,
    iat: nat,
    secret: Seq<char>,
) -> Option<Seq<char>>;

/// Whether `bcrypt::verify` finds that `pin` is what `hash` was made of;
/// `None` where it fails, as it does on a text that is no hash.
pub uninterp spec fn pin_verification(pin: Seq<char>, hash: Seq<char>) -> Option<bool>;

/// Calls `jsonwebtoken::encode` with the default header (HS256), a JSON
/// object of the five claims, and the secret's bytes as the key. The result
/// is a function of these values; the contract gives it its name. A failure
/// comes back as the library's message.
#[verifier::external_body]
fn jwt_encode(sub: &str, role: &str, token_type: &str, exp: usize, iat: usize, secret: &str) -> (r:
    Result<String, String>)
    ensures
        match r {
            Ok(token) => signed_token(sub@, role@, token_type@, exp as nat, iat as nat, secret@)
                == Some(token@),
            Err(_) => signed_token(sub@, role@, token_type@, exp as nat, iat as nat, secret@)
                is None,
        },
{
    let mut claims = serde_json::Map::new();
    claims.insert("sub".to_string(), serde_json::Value::from(sub));
    claims.insert("role".to_string(), serde_json::Value::from(role));
    claims.insert("token_type".to_string(), serde_json::Value::from(token_type));
    claims.insert("exp".to_string(), serde_json::Value::from(exp));
    claims.insert("iat".to_string(), serde_json::Value::from(iat));
    let key = jsonwebtoken::EncodingKey::from_secret(secret.as_bytes());
    jsonwebtoken::encode(&jsonwebtoken::Header::default(), &claims, &key).map_err(|e| e.to_string())
}

/// Whether claims as they were read from a token are these five values.
pub open spec fn carries(
    raw: RawClaims,
    sub: Seq<char>,
    role: Seq<char>,
    token_type: Seq<char>,
    exp: u64,
    iat: u64,
) -> bool {
    &&& raw.sub matches Some(text) && text@ == sub
    &&& raw.role matches Some(text) && text@ == role
    &&& raw.token_type matches Some(text) && text@ == token_type
    &&& raw.exp == Some(exp)
    &&& raw.iat == Some(iat)
}

/// Calls `jsonwebtoken::decode` with the default validation (HS256, an
/// expiry that has not passed) and the secret's bytes as the key, and hands
/// out the five claims as far as the token has them with the right JSON
/// type. A refusal comes back as the library's message.
///
/// Whether a token is accepted depends on the time of the call, so no
/// acceptance is claimed. What is claimed is that decoding undoes encoding:
/// the library checks the signature, takes the payload out of its base64
/// form and parses the JSON that `jsonwebtoken::encode` wrote, so a token
/// that was made of five claims with this secret, if it is accepted, gives
/// back those five claims.
#[verifier::external_body]
fn jwt_decode(token: &str, secret: &str) -> (r: Result<RawClaims, String>)
    ensures
        forall|sub: Seq<char>, role: Seq<char>, token_type: Seq<char>, exp: u64, iat: u64|
            #[trigger] signed_token(sub, role, token_type, exp as nat, iat as nat, secret@)
                == Some(token@) ==> (r matches Ok(raw) ==> carries(
                raw,
                sub,
                role,
                token_type,
                exp,
                iat,
            )),
{
    let key = jsonwebtoken::DecodingKey::from_secret(secret.as_bytes());
    let validation = jsonwebtoken::Validation::default();
    let decoded = jsonwebtoken::decode::<serde_json::Value>(token, &key, &validation);
    let claims = decoded.map_err(|e| e.to_string())?.claims;
    let text = |name: &str| claims.get(name).and_then(|v| v.as_str()).map(String::from);
    let number = |name: &str| claims.get(name).and_then(|v| v.as_u64());
    let (sub, role, token_type) = (text("sub"), text("role"), text("token_type"));
    Ok(RawClaims { sub, role, token_type, exp: number("exp"), iat: number("iat") })
}

/// Calls `chrono::Utc::now` and gives the time in seconds since the epoch.
/// The time is the system clock's: nothing is claimed of it.
#[verifier::external_body]
fn unix_now() -> (r: i64) {
    chrono::Utc::now().timestamp()
}

/// Calls `bcrypt::hash` with the crate's default cost. The salt is random,
/// so the hash has no name; but `bcrypt::verify` derives the salt and the
/// cost from the hash and repeats the computation, so it accepts the PIN
/// that the hash was made of.
#[verifier::external_body]
fn bcrypt_hash(pin: &str) -> (r: Option<String>)
    ensures
        r matches Some(hash) ==> pin_verification(pin@, hash@) == Some(true),
{
    bcrypt::hash(pin, bcrypt::DEFAULT_COST).ok()
}

/// Calls `bcrypt::verify`. The result is a function of the PIN and the
/// hash; the contract gives it its name.
#[verifier::external_body]
fn bcrypt_verify(pin: &str, hash: &str) -> (r: Option<bool>)
    ensures
        r == pin_verification(pin@, hash@),
{
    bcrypt::verify(pin, hash).ok()
}

impl TokenType {
    /// The name of the token type, as tokens carry it.
    pub fn as_str(&self) -> (r: &'static str)
        ensures
            r@ == token_type_name(*self),
    {
        proof {
            reveal_strlit("access");
            reveal_strlit("refresh");
        }
        match self {
            TokenType::Access => "access",
            TokenType::Refresh => "refresh",
        }
    }

    /// The token type that `s` names exactly.
    pub fn parse(s: &str) -> (r: Option<TokenType>)
        ensures
            r == token_type_of(s@),
    {
        if is_text(s, TokenType::Access.as_str()) {
            Some(TokenType::Access)
        } else if is_text(s, TokenType::Refresh.as_str()) {
            Some(TokenType::Refresh)
        } else {
            None
        }
    }
}

/// The times of issue and of expiry of a token issued at `now` for
/// `expiration_hours` hours, where both can be written in a token.
pub fn token_times(now: i64, expiration_hours: i64) -> (r: Option<(usize, usize)>)
    ensures
        r is Some <==> writable_time(now as int) && writable_time(expiry(now, expiration_hours)),
        r matches Some((iat, exp)) ==> iat == now && exp == expiry(now, expiration_hours),
{
    if now < 0 || now as u64 > usize::MAX as u64 {
        return None;
    }
    let span: i64 = match expiration_hours.checked_mul(3600) {
        Some(span) => span,
        None => {
            return None;
        },
    };
    let expires: i64 = match now.checked_add(span) {
        Some(expires) => expires,
        None => {
            return None;
        },
    };
    if expires < 0 || expires as u64 > usize::MAX as u64 {
        return None;
    }
    Some((now as usize, expires as usize))
}

/// Issues at the time `now` a token of the given type for `user_id` with
/// `role`, which lives `expiration_hours` hours and is signed with `secret`.
pub fn generate_token_at(
    now: i64,
    user_id: &str,
    role: Role,
    secret: &str,
    expiration_hours: i64,
    token_type: TokenType,
) -> (r: Result<String, TokenError>)
    ensures
        !writable_time(now as int) || !writable_time(expiry(now, expiration_hours)) ==> r matches Err(
            TokenError::InvalidLifetime,
        ),
        writable_time(now as int) && writable_time(expiry(now, expiration_hours)) ==> match r {
            Ok(token) => signed_token(
                user_id@,
                role_name(role),
                token_type_name(token_type),
                expiry(now, expiration_hours) as nat,
                now as nat,
                secret@,
            ) == Some(token@),
            Err(e) => e is Rejected && signed_token(
                user_id@,
                role_name(role),
                token_type_name(token_type),
                expiry(now, expiration_hours) as nat,
                now as nat,
                secret@,
            ) is None,
        },
{
    let (iat, exp) = match token_times(now, expiration_hours) {
        Some(times) => times,
        None => {
            return Err(TokenError::InvalidLifetime);
        },
    };
    match jwt_encode(user_id, role.as_str(), token_type.as_str(), exp, iat, secret) {
        Ok(token) => Ok(token),
        Err(e) => Err(TokenError::Rejected(e)),
    }
}

fn generate_token(
    user_id: &str,
    role: Role,
    secret: &str,
    expiration_hours: i64,
    token_type: TokenType,
) -> (r: Result<String, TokenError>)
    ensures
        r matches Err(e) ==> e is InvalidLifetime || e is Rejected,
        never_writable(expiration_hours) ==> r matches Err(TokenError::InvalidLifetime),
        r matches Ok(token) ==> exists|now: i64|
            writable_time(now as int) && writable_time(expiry(now, expiration_hours))
                && #[trigger] signed_token(
                user_id@,
                role_name(role),
                token_type_name(token_type),
                expiry(now, expiration_hours) as nat,
                now as nat,
                secret@,
            ) == Some(token@),
{
    let now = unix_now();
    generate_token_at(now, user_id, role, secret, expiration_hours, token_type)
}

/// Issues an access token for `user_id` with `role`, from now on for
/// `expiration_hours` hours.
pub fn generate_access_token(user_id: &str, role: Role, secret: &str, expiration_hours: i64) -> (r:
    Result<String, TokenError>)
    ensures
        r matches Err(e) ==> e is InvalidLifetime || e is Rejected,
        never_writable(expiration_hours) ==> r matches Err(TokenError::InvalidLifetime),
        r matches Ok(token) ==> exists|now: i64|
            writable_time(now as int) && writable_time(expiry(now, expiration_hours))
                && #[trigger] signed_token(
                user_id@,
                role_name(role),
                token_type_name(TokenType::Access),
                expiry(now, expiration_hours) as nat,
                now as nat,
                secret@,
            ) == Some(token@),
{
    generate_token(user_id, role, secret, expiration_hours, TokenType::Access)
}

/// Issues a refresh token for `user_id` with `role`, from now on for
/// `expiration_hours` hours.
pub fn generate_refresh_token(user_id: &str, role: Role, secret: &str, expiration_hours: i64) -> (r:
    Result<String, TokenError>)
    ensures
        r matches Err(e) ==> e is InvalidLifetime || e is Rejected,
        never_writable(expiration_hours) ==> r matches Err(TokenError::InvalidLifetime),
        r matches Ok(token) ==> exists|now: i64|
            writable_time(now as int) && writable_time(expiry(now, expiration_hours))
                && #[trigger] signed_token(
                user_id@,
                role_name(role),
                token_type_name(TokenType::Refresh),
                expiry(now, expiration_hours) as nat,
                now as nat,
                secret@,
            ) == Some(token@),
{
    generate_token(user_id, role, secret, expiration_hours, TokenType::Refresh)
}

/// Whether claims as they were read from a token are claims of this
/// service: all five are there, the role and the token type are known by
/// their exact names, and the two times fit.
pub open spec fn well_formed_claims(raw: RawClaims) -> bool {
    &&& raw.sub is Some
    &&& raw.role matches Some(role) && exact_role_of(role@) is Some
    &&& raw.token_type matches Some(token_type) && token_type_of(token_type@) is Some
    &&& raw.exp matches Some(exp) && exp <= usize::MAX
    &&& raw.iat matches Some(iat) && iat <= usize::MAX
}

/// Turns claims as they were read from a token into claims of this service.
pub fn read_claims(raw: RawClaims) -> (r: Result<Claims, TokenError>)
    ensures
        well_formed_claims(raw) ==> (r matches Ok(claims) && {
            &&& claims.sub@ == raw.sub.unwrap()@
            &&& Some(claims.role) == exact_role_of(raw.role.unwrap()@)
            &&& Some(claims.token_type) == token_type_of(raw.token_type.unwrap()@)
            &&& claims.exp == raw.exp.unwrap()
            &&& claims.iat == raw.iat.unwrap()
        }),
        !well_formed_claims(raw) ==> r matches Err(TokenError::MalformedClaims),
{
    let sub = match raw.sub {
        Some(sub) => sub,
        None => {
            return Err(TokenError::MalformedClaims);
        },
    };
    let role = match raw.role {
        Some(name) => match Role::parse_exact(name.as_str()) {
            Some(role) => role,
            None => {
                return Err(TokenError::MalformedClaims);
            },
        },
        None => {
            return Err(TokenError::MalformedClaims);
        },
    };
    let token_type = match raw.token_type {
        Some(name) => match TokenType::parse(name.as_str()) {
            Some(token_type) => token_type,
            None => {
                return Err(TokenError::MalformedClaims);
            },
        },
        None => {
            return Err(TokenError::MalformedClaims);
        },
    };
    let exp: usize = match raw.exp {
        Some(exp) => if exp <= usize::MAX as u64 {
            exp as usize
        } else {
            return Err(TokenError::MalformedClaims);
        },
        None => {
            return Err(TokenError::MalformedClaims);
        },
    };
    let iat: usize = match raw.iat {
        Some(iat) => if iat <= usize::MAX as u64 {
            iat as usize
        } else {
            return Err(TokenError::MalformedClaims);
        },
        None => {
            return Err(TokenError::MalformedClaims);
        },
    };
    Ok(Claims { sub, role, token_type, exp, iat })
}

/// Accepts claims only if they are of the expected token type.
pub fn require_token_type(claims: Claims, expected: TokenType) -> (r: Result<Claims, TokenError>)
    ensures
        claims.token_type == expected ==> (r matches Ok(same) && same == claims),
        claims.token_type != expected ==> r matches Err(TokenError::WrongTokenType),
{
    if claims.token_type == expected {
        Ok(claims)
    } else {
        Err(TokenError::WrongTokenType)
    }
}

/// Whether `token` is the token that this service signs with `secret` for
/// the user `user` with `role`, of the given type, issued at `iat` and
/// expiring at `exp`.
pub open spec fn issued(
    token: Seq<char>,
    secret: Seq<char>,
    user: Seq<char>,
    role: Role,
    token_type: TokenType,
    exp: usize,
    iat: usize,
) -> bool {
    signed_token(
        user,
        role_name(role),
        token_type_name(token_type),
        exp as nat,
        iat as nat,
        secret,
    ) == Some(token)
}

/// Whether claims state exactly these values.
pub open spec fn states(
    claims: Claims,
    user: Seq<char>,
    role: Role,
    token_type: TokenType,
    exp: usize,
    iat: usize,
) -> bool {
    &&& claims.sub@ == user
    &&& claims.role == role
    &&& claims.token_type == token_type
    &&& claims.exp == exp
    &&& claims.iat == iat
}

/// The names of the roles and of the token types are read back as the role
/// and the token type that they name.
pub proof fn lemma_names_are_exact(role: Role, token_type: TokenType)
    ensures
        exact_role_of(role_name(role)) == Some(role),
        token_type_of(token_type_name(token_type)) == Some(token_type),
{
    assert(role_name(Role::Admin).len() == 5);
    assert(role_name(Role::Merchant).len() == 8);
    assert(role_name(Role::User).len() == 4);
    assert(token_type_name(TokenType::Access).len() == 6);
    assert(token_type_name(TokenType::Refresh).len() == 7);
}

/// Checks a token's signature and expiry and reads its claims.
///
/// Whether the token library accepts a token depends on the time. Whatever
/// it answers: a token that this service issued with the same secret either
/// is rejected by the library or gives back the claims that it was issued
/// for, and no token fails for its type or its lifetime here.
pub fn validate_jwt(token: &str, secret: &str) -> (r: Result<Claims, TokenError>)
    ensures
        r matches Err(e) ==> e is Rejected || e is MalformedClaims,
        forall|user: Seq<char>, role: Role, token_type: TokenType, exp: usize, iat: usize| #[trigger]
            issued(token@, secret@, user, role, token_type, exp, iat) ==> match r {
                Ok(claims) => states(claims, user, role, token_type, exp, iat),
                Err(e) => e is Rejected,
            },
{
    match jwt_decode(token, secret) {
        Ok(raw) => {
            proof {
                assert forall|
                    user: Seq<char>,
                    role: Role,
                    token_type: TokenType,
                    exp: usize,
                    iat: usize,
                | #[trigger] issued(token@, secret@, user, role, token_type, exp, iat) implies {
                    &&& well_formed_claims(raw)
                    &&& carries(
                        raw,
                        user,
                        role_name(role),
                        token_type_name(token_type),
                        exp as u64,
                        iat as u64,
                    )
                    &&& exact_role_of(role_name(role)) == Some(role)
                    &&& token_type_of(token_type_name(token_type)) == Some(token_type)
                } by {
                    lemma_names_are_exact(role, token_type);
                    assert(signed_token(
                        user,
                        role_name(role),
                        token_type_name(token_type),
                        (exp as u64) as nat,
                        (iat as u64) as nat,
                        secret@,
                    ) == Some(token@));
                }
            }
            read_claims(raw)
        },
        Err(e) => Err(TokenError::Rejected(e)),
    }
}

/// Checks a token and accepts it only as an access token.
///
/// Whatever the token library answers: a token that this service issued
/// with the same secret as an access token either is rejected by the library
/// or gives back its claims, and one that it issued as a refresh token is
/// never accepted.
pub fn validate_access_token(token: &str, secret: &str) -> (r: Result<Claims, TokenError>)
    ensures
        r matches Ok(claims) ==> claims.token_type == TokenType::Access,
        r matches Err(e) ==> !(e is InvalidLifetime),
        forall|user: Seq<char>, role: Role, token_type: TokenType, exp: usize, iat: usize| #[trigger]
            issued(token@, secret@, user, role, token_type, exp, iat) ==> match r {
                Ok(claims) => token_type == TokenType::Access && states(
                    claims,
                    user,
                    role,
                    token_type,
                    exp,
                    iat,
                ),
                Err(e) => e is Rejected || (e is WrongTokenType && token_type
                    != TokenType::Access),
            },
{
    match validate_jwt(token, secret) {
        Ok(claims) => require_token_type(claims, TokenType::Access),
        Err(e) => Err(e),
    }
}

/// Checks a token and accepts it only as a refresh token.
///
/// Whatever the token library answers: a token that this service issued
/// with the same secret as a refresh token either is rejected by the
/// library or gives back its claims, and one that it issued as an access
/// token is never accepted.
pub fn validate_refresh_token(token: &str, secret: &str) -> (r: Result<Claims, TokenError>)
    ensures
        r matches Ok(claims) ==> claims.token_type == TokenType::Refresh,
        r matches Err(e) ==> !(e is InvalidLifetime),
        forall|user: Seq<char>, role: Role, token_type: TokenType, exp: usize, iat: usize| #[trigger]
            issued(token@, secret@, user, role, token_type, exp, iat) ==> match r {
                Ok(claims) => token_type == TokenType::Refresh && states(
                    claims,
                    user,
                    role,
                    token_type,
                    exp,
                    iat,
                ),
                Err(e) => e is Rejected || (e is WrongTokenType && token_type
                    != TokenType::Refresh),
            },
{
    match validate_jwt(token, secret) {
        Ok(claims) => require_token_type(claims, TokenType::Refresh),
        Err(e) => Err(e),
    }
}

/// Hashes a PIN. The hash differs from call to call; each one is accepted
/// by [`verify_pin`] for this PIN.
pub fn hash_pin(pin: &str) -> (r: Result<String, ApiError>)
    ensures
        match r {
            Ok(hash) => pin_verification(pin@, hash@) == Some(true),
            Err(e) => e matches ApiError::InternalServerError(message) && message@.len() == 0,
        },
{
    match bcrypt_hash(pin) {
        Some(hash) => Ok(hash),
        None => Err(ApiError::InternalServerError(String::new())),
    }
}

/// Whether `pin` is the PIN that `hash` was made of. A text that is no hash
/// is a failure of the service, not a mismatch.
pub fn verify_pin(pin: &str, hash: &str) -> (r: Result<bool, ApiError>)
    ensures
        match r {
            Ok(matches) => pin_verification(pin@, hash@) == Some(matches),
            Err(e) => pin_verification(pin@, hash@) is None && (e matches ApiError::InternalServerError(
                message,
            ) && message@.len() == 0),
        },
{
    match bcrypt_verify(pin, hash) {
        Some(matches) => Ok(matches),
        None => Err(ApiError::InternalServerError(String::new())),
    }
}

} // verus!
