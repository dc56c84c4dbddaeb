//! The mathematical model of the contract state and of every operation.
//!
//! [`TokenModel`] is the abstract value of the contract's durable state;
//! the exec type views to it. Each public operation is pinned to one of
//! the transition functions below, which map a state and the operation's
//! inputs to the successor state and the operation's result. The
//! transitions are total: on every error the state is returned unchanged,
//! so a failed operation commits nothing.

use vstd::prelude::*;

use crate::balances::{accts_unique, bal_of, nonnegative, sum_of, upd_bal};
use crate::errors::SaiError;
use crate::swaps::{find_swap, ids_unique, remove_swap, PendingSwap};

verus! {

/// Units credited to the founder at genesis: one hundred million tokens
/// carried with seven decimal places.
pub const INITIAL_SUPPLY: i128 = 100_000_000_0000000;

/// The immutable cap on minted supply: one billion tokens carried with
/// seven decimal places.
pub const MAX_SUPPLY: i128 = 1_000_000_000_0000000;

/// Fractional precision of a ledger unit.
pub const DECIMALS: u32 = 7;

/// How long a primary-source price reading stays fresh, in seconds.
pub const PRICE_VALIDITY_PERIOD: u64 = 300;

/// Percentage of each fulfilled amount credited to the pooled allocation.
pub const POOL_SHARE_PERCENT: i128 = 20;

/// Percentage of each fulfilled amount paid out in the yield asset.
pub const PAYEE_SHARE_PERCENT: i128 = 80;

/// Configuration recorded once, by the only successful initialization.
#[derive(Clone, Copy, Debug, PartialEq, Eq, Structural)]
pub struct Config {
    /// The administrator: the only account that may fulfill, pause and
    /// unpause.
    pub admin: u64,
    /// The account credited with the initial supply; also receives the
    /// yield-asset payout of each fulfillment.
    pub founder: u64,
    /// The external asset paid out at fulfillment.
    pub yield_token: u64,
    /// The primary price source.
    pub chainlink_feed: u64,
    /// The secondary, fallback price source.
    pub band_oracle: u64,
}

/// The abstract state of the contract.
#[verifier::ext_equal]
pub struct TokenModel {
    /// `None` until the one successful initialization.
    pub config: Option<Config>,
    /// The account-balance table.
    pub balances: Seq<(u64, i128)>,
    /// Sum of all minted units outstanding.
    pub total_supply: i128,
    /// Units reserved for the protocol-level pool; side accounting, not
    /// drawn from any account balance.
    pub agent_pool: i128,
    /// Monotonic source of swap identifiers; never decremented.
    pub swap_counter: u64,
    /// The pending swaps, in order of creation.
    pub pending: Seq<PendingSwap>,
    /// The reentrancy lock; held only inside a single guarded operation.
    pub lock: bool,
    /// The circuit-breaker flag; gates every state-mutating operation.
    pub paused: bool,
    /// When the primary price source last served a reading.
    pub last_price_update: u64,
    /// The staleness window applied to the primary source.
    pub validity_period: u64,
}

/// Bounds every pending swap must satisfy: an identifier already drawn
/// from the counter, and a positive amount that fits under the supply cap.
pub open spec fn swap_ok(p: PendingSwap, counter: u64) -> bool {
    &&& 1 <= p.swap_id <= counter
    &&& 0 < p.amount <= MAX_SUPPLY
}

/// The state invariant: every reachable state satisfies it.
///
/// Balances are keyed uniquely and never negative; their sum equals the
/// minted supply; the supply respects the cap; the pooled allocation never
/// outgrows the supply; pending swaps carry distinct, already-drawn
/// identifiers and positive amounts; and before initialization the ledger
/// is empty.
pub open spec fn wf(s: TokenModel) -> bool {
    &&& accts_unique(s.balances)
    &&& nonnegative(s.balances)
    &&& sum_of(s.balances) == s.total_supply
    &&& 0 <= s.total_supply <= MAX_SUPPLY
    &&& 0 <= s.agent_pool <= s.total_supply
    &&& ids_unique(s.pending)
    &&& forall|i: int| 0 <= i < s.pending.len() ==> swap_ok(#[trigger] s.pending[i], s.swap_counter)
    &&& s.config is None ==> s.balances.len() == 0 && s.total_supply == 0 && s.agent_pool == 0
}

/// The state of a freshly deployed, not yet initialized contract.
pub open spec fn fresh_state() -> TokenModel {
    TokenModel {
        config: None,
        balances: Seq::empty(),
        total_supply: 0,
        agent_pool: 0,
        swap_counter: 0,
        pending: Seq::empty(),
        lock: false,
        paused: false,
        last_price_update: 0,
        validity_period: PRICE_VALIDITY_PERIOD,
    }
}

/// Initialization: establishes the genesis state exactly once.
///
/// Fails with `AlreadyInitialized` on any call after the first successful
/// one. On success it records the configuration, credits the founder with
/// the initial supply, and resets counters, registry, lock and pause flag.
pub open spec fn initialize_tr(
    s: TokenModel,
    admin: u64,
    founder: u64,
    yield_token: u64,
    chainlink_feed: u64,
    band_oracle: u64,
) -> (TokenModel, Result<(), SaiError>) {
    if s.config is Some {
        (s, Err(SaiError::AlreadyInitialized))
    } else {
        (
            TokenModel {
                config: Some(
                    Config { admin, founder, yield_token, chainlink_feed, band_oracle },
                ),
                balances: seq![(founder, INITIAL_SUPPLY)],
                total_supply: INITIAL_SUPPLY,
                agent_pool: 0,
                swap_counter: 0,
                pending: Seq::empty(),
                lock: false,
                paused: false,
                last_price_update: s.last_price_update,
                validity_period: PRICE_VALIDITY_PERIOD,
            },
            Ok(()),
        )
    }
}

/// Transfer of units between accounts.
///
/// Only the debited account itself may order it; it is gated by the pause
/// flag, rejects non-positive amounts, and fails rather than overdraw.
/// On success the sender's balance falls and the receiver's rises by
/// exactly `amount`; a transfer to oneself leaves the balance unchanged.
pub open spec fn transfer_tr(s: TokenModel, caller: u64, from: u64, to: u64, amount: i128) -> (
    TokenModel,
    Result<(), SaiError>,
) {
    if caller != from {
        (s, Err(SaiError::Unauthorized))
    } else if s.paused {
        (s, Err(SaiError::ContractPaused))
    } else if amount <= 0 {
        (s, Err(SaiError::InvalidAmount))
    } else if bal_of(s.balances, from) < amount {
        (s, Err(SaiError::InsufficientBalance))
    } else {
        let debited = upd_bal(s.balances, from, (bal_of(s.balances, from) - amount) as i128);
        let credited = upd_bal(debited, to, (bal_of(debited, to) + amount) as i128);
        (TokenModel { balances: credited, ..s }, Ok(()))
    }
}

/// A buy request: records a pending swap after validating headroom.
///
/// Only the buyer may order it; it is gated by the pause flag and the
/// reentrancy lock, rejects non-positive amounts, and validates that the
/// requested amount still fits under the supply cap — without reserving
/// that headroom, so concurrent requests can jointly oversubscribe the cap
/// until fulfillment re-checks it. On success the next identifier is drawn
/// from the counter and the swap is appended to the registry; the caller
/// then escrows the payment asset.
pub open spec fn request_buy_tr(
    s: TokenModel,
    caller: u64,
    buyer: u64,
    amount: i128,
    payment_asset: u64,
    now: u64,
) -> (TokenModel, Result<u64, SaiError>) {
    if caller != buyer {
        (s, Err(SaiError::Unauthorized))
    } else if s.paused {
        (s, Err(SaiError::ContractPaused))
    } else if s.lock {
        (s, Err(SaiError::ReentrancyDetected))
    } else if amount <= 0 {
        (s, Err(SaiError::InvalidAmount))
    } else if s.total_supply + amount > i128::MAX {
        (s, Err(SaiError::ArithmeticOverflow))
    } else if s.total_supply + amount > MAX_SUPPLY {
        (s, Err(SaiError::ExceedsMaxSupply))
    } else if s.swap_counter == u64::MAX {
        (s, Err(SaiError::ArithmeticOverflow))
    } else {
        let id = (s.swap_counter + 1) as u64;
        let swap = PendingSwap {
            swap_id: id,
            buyer,
            payment_asset,
            amount,
            timestamp: now,
        };
        (
            TokenModel { swap_counter: id, pending: s.pending.push(swap), ..s },
            Ok(id),
        )
    }
}

/// The pool's cut of a fulfilled amount, with integer truncation.
pub open spec fn pool_share_of(amount: i128) -> int {
    amount * POOL_SHARE_PERCENT / 100
}

/// The yield-asset payout owed to the founder for a fulfilled amount,
/// with integer truncation.
pub open spec fn payee_share_of(amount: i128) -> int {
    amount * PAYEE_SHARE_PERCENT / 100
}

/// Fulfillment: consumes a pending swap and mints its amount.
///
/// Only the administrator may order it; it is gated by the pause flag and
/// the reentrancy lock, fails with `SwapNotFound` for an unknown
/// identifier, and re-checks the supply cap before committing. On success
/// the swap leaves the registry, the pool takes its truncated percentage
/// share, the buyer is credited with the full amount, and the supply grows
/// by the full amount — all before the caller pays out the yield asset.
pub open spec fn fulfill_swap_tr(s: TokenModel, caller: u64, swap_id: u64) -> (
    TokenModel,
    Result<(), SaiError>,
) {
    match s.config {
        None => (s, Err(SaiError::Unauthorized)),
        Some(cfg) => {
            if caller != cfg.admin {
                (s, Err(SaiError::Unauthorized))
            } else if s.paused {
                (s, Err(SaiError::ContractPaused))
            } else if s.lock {
                (s, Err(SaiError::ReentrancyDetected))
            } else {
                match find_swap(s.pending, swap_id) {
                    None => (s, Err(SaiError::SwapNotFound)),
                    Some(swap) => {
                        if s.total_supply + swap.amount > MAX_SUPPLY {
                            (s, Err(SaiError::ExceedsMaxSupply))
                        } else {
                            (
                                TokenModel {
                                    pending: remove_swap(s.pending, swap_id),
                                    agent_pool: (s.agent_pool + pool_share_of(swap.amount)) as i128,
                                    balances: upd_bal(
                                        s.balances,
                                        swap.buyer,
                                        (bal_of(s.balances, swap.buyer) + swap.amount) as i128,
                                    ),
                                    total_supply: (s.total_supply + swap.amount) as i128,
                                    ..s
                                },
                                Ok(()),
                            )
                        }
                    },
                }
            }
        },
    }
}

/// Pausing: the administrator raises the circuit-breaker flag.
pub open spec fn pause_tr(s: TokenModel, caller: u64) -> (TokenModel, Result<(), SaiError>) {
    match s.config {
        None => (s, Err(SaiError::Unauthorized)),
        Some(cfg) => {
            if caller != cfg.admin {
                (s, Err(SaiError::Unauthorized))
            } else {
                (TokenModel { paused: true, ..s }, Ok(()))
            }
        },
    }
}

/// Unpausing: the administrator clears the circuit-breaker flag.
pub open spec fn unpause_tr(s: TokenModel, caller: u64) -> (TokenModel, Result<(), SaiError>) {
    match s.config {
        None => (s, Err(SaiError::Unauthorized)),
        Some(cfg) => {
            if caller != cfg.admin {
                (s, Err(SaiError::Unauthorized))
            } else {
                (TokenModel { paused: false, ..s }, Ok(()))
            }
        },
    }
}

} // verus!
