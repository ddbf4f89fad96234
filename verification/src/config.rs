//! The settings of the service.

use vstd::prelude::*;

verus! {

/// How requests are counted against the rate limit.
#[derive(Clone, Copy, Debug, PartialEq, Eq, Structural)]
pub enum RateLimitScope {
    /// By the address of the client.
    Ip,
    /// By the authenticated user.
    User,
    /// By the key that the client presents.
    ApiKey,
}

/// The rate limit: at most `max_requests` in every `window_ms` milliseconds.
#[derive(Clone, Copy, Debug)]
pub struct RateLimitConfig {
    pub window_ms: u64,
    pub max_requests: u32,
    pub scope: RateLimitScope,
}

/// The secret that signs tokens, and how long tokens live.
#[derive(Clone, Debug)]
pub struct JwtConfig {
    pub secret: String,
    pub expiration_hours: i64,
    pub refresh_expiration_hours: i64,
}

/// The network on which transactions are submitted.
#[derive(Clone, Debug)]
pub struct StellarNetwork {
    pub passphrase: String,
    pub rpc_url: String,
}

/// Where the database is.
#[derive(Clone, Debug)]
pub struct DatabaseConfig {
    pub url: String,
}

/// All settings.
#[derive(Clone, Debug)]
pub struct Config {
    pub database: DatabaseConfig,
    pub jwt: JwtConfig,
    pub stellar_network: StellarNetwork,
    pub rate_limit: RateLimitConfig,
}

} // verus!
