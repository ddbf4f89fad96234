//! A payment settlement and escrow engine with machine-checked contracts,
//! and the rules of the service that is built around it.
//!
//! The engine is a set of cooperating ledger components:
//!
//! - [`escrow`]: funds held for a buyer and a seller until they are released
//!   or refunded;
//! - [`vault`]: one balance per merchant, credited and debited by separate
//!   principals;
//! - [`router`]: the settlement of one payment, directly or through an
//!   exchange, stage by stage;
//! - [`identity`]: one role per registered address.
//!
//! Every component keeps its state in an ordinary value and never reaches
//! out: the host that embeds the engine proves who authorized a call
//! ([`authorization`]), persists the state, moves the assets ([`asset`]) and
//! publishes the events that the engine hands back. What holds of the
//! components over any run of calls is proved in [`escrow_laws`],
//! [`vault_laws`] and [`router_laws`].
//!
//! The service's rules are those of its tokens and PINs ([`auth`]), of the
//! requests that log in, register and refresh ([`http_auth`],
//! [`middleware`]), of its notifications ([`notifications`]), of its rate
//! limit ([`rate_limit_service`]), of the transactions that it submits
//! ([`soroban_service`]) and of the names of its migrations ([`migration`]).

pub mod address;
pub mod api_error;
pub mod asset;
pub mod auth;
pub mod authorization;
pub mod config;
pub mod escrow;
pub mod escrow_laws;
pub mod http_auth;
pub mod identity;
pub mod middleware;
pub mod migration;
pub mod models;
pub mod notifications;
pub mod rate_limit_service;
pub mod role;
pub mod router;
pub mod router_laws;
pub mod soroban_service;
pub mod table;
pub mod text;
pub mod vault;
pub mod vault_laws;
