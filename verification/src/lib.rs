//! A transactional balance ledger with escrow-backed swap settlement.
//!
//! The library tracks ownership of a fungible unit across accounts, mediates
//! a two-phase buy-request / fulfillment workflow that mints ledger units
//! against an external payment asset, and resolves a unit price from two
//! independent price sources under a staleness and fallback policy.
//!
//! All state lives in [`SuperAIToken`], a plain value that models the
//! contract's durable storage. External collaborators (the host's keyed
//! store, signature verification, the clock, the event log, and the asset
//! transfer primitives) stay outside this crate: callers hand in the already
//! authenticated caller identity and the current timestamp, and perform the
//! external transfers after the corresponding operation has committed.

pub mod balances;
pub mod errors;
pub mod laws;
pub mod model;
pub mod oracle;
pub mod swaps;
pub mod token;

pub use balances::Balances;
pub use errors::SaiError;
pub use model::{Config, TokenModel, DECIMALS, INITIAL_SUPPLY, MAX_SUPPLY, PRICE_VALIDITY_PERIOD};
pub use oracle::{PRICE_USDC, PRICE_XLM};
pub use swaps::PendingSwap;
pub use token::SuperAIToken;
