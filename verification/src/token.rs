//! The contract state and its operations.
//!
//! [`SuperAIToken`] owns the whole process state: the balance ledger, the
//! swap registry, the counters and the flags. Every public operation is
//! proved equal to its transition function from [`crate::model`], and
//! every operation preserves the state invariant [`wf`].
//!
//! The host's collaborators stay outside: callers pass in the
//! authenticated caller identity and the current timestamp, and perform
//! the external asset transfers only after the operation has returned
//! successfully — the escrow of the payment asset after a buy request,
//! and the yield-asset payout after a fulfillment.

use vstd::prelude::*;

use crate::balances::{bal_of, lemma_bal_le_sum, lemma_upd_bal_nonneg, lemma_upd_bal_sum, Balances};
use crate::errors::SaiError;
use crate::laws::{
    lemma_fulfill_preserves_wf, lemma_initialize_preserves_wf, lemma_pause_preserves_wf,
    lemma_price_preserves_wf, lemma_request_buy_preserves_wf, lemma_transfer_preserves_wf,
};
use crate::model::{
    fresh_state, fulfill_swap_tr, initialize_tr, pause_tr, request_buy_tr, transfer_tr,
    unpause_tr, wf, Config, TokenModel, DECIMALS, INITIAL_SUPPLY, MAX_SUPPLY,
    PRICE_VALIDITY_PERIOD,
};
use crate::oracle::{band_price_tr, chainlink_price_tr, fallback_price_tr, quote};
use crate::swaps::{first_match_at, has_id, lemma_find_absent, lemma_find_at_index, PendingSwap};

verus! {

/// The transactional balance ledger with escrow-backed swap settlement.
pub struct SuperAIToken {
    config: Option<Config>,
    balances: Balances,
    total_supply: i128,
    agent_pool: i128,
    swap_counter: u64,
    pending: Vec<PendingSwap>,
    lock: bool,
    paused: bool,
    last_price_update: u64,
    validity_period: u64,
}

impl View for SuperAIToken {
    type V = TokenModel;

    closed spec fn view(&self) -> TokenModel {
        TokenModel {
            config: self.config,
            balances: self.balances@,
            total_supply: self.total_supply,
            agent_pool: self.agent_pool,
            swap_counter: self.swap_counter,
            pending: self.pending@,
            lock: self.lock,
            paused: self.paused,
            last_price_update: self.last_price_update,
            validity_period: self.validity_period,
        }
    }
}

impl SuperAIToken {
    /// A freshly deployed, not yet initialized contract.
    pub fn new() -> (r: SuperAIToken)
        ensures
            r@ == fresh_state(),
            wf(r@),
    {
        let r = SuperAIToken {
            config: None,
            balances: Balances::new(),
            total_supply: 0,
            agent_pool: 0,
            swap_counter: 0,
            pending: Vec::new(),
            lock: false,
            paused: false,
            last_price_update: 0,
            validity_period: PRICE_VALIDITY_PERIOD,
        };
        proof {
            assert(r@ =~= fresh_state());
        }
        r
    }

    /// Establishes the genesis state: records the configuration and
    /// credits the founder with the initial supply. Exactly the first
    /// call succeeds; every later call fails with `AlreadyInitialized`.
    ///
    /// The caller must have authenticated `admin` before calling.
    pub fn initialize(
        &mut self,
        admin: u64,
        founder: u64,
        yield_token: u64,
        chainlink_feed: u64,
        band_oracle: u64,
    ) -> (result: Result<(), SaiError>)
        requires
            wf(old(self)@),
        ensures
            wf(final(self)@),
            ({
                let (m, r) = initialize_tr(
                    old(self)@,
                    admin,
                    founder,
                    yield_token,
                    chainlink_feed,
                    band_oracle,
                );
                final(self)@ == m && result == r
            }),
    {
        proof {
            lemma_initialize_preserves_wf(
                old(self)@,
                admin,
                founder,
                yield_token,
                chainlink_feed,
                band_oracle,
            );
        }
        if self.config.is_some() {
            return Err(SaiError::AlreadyInitialized);
        }
        self.config = Some(Config { admin, founder, yield_token, chainlink_feed, band_oracle });
        let mut genesis = Balances::new();
        genesis.set(founder, INITIAL_SUPPLY);
        self.balances = genesis;
        self.total_supply = INITIAL_SUPPLY;
        self.agent_pool = 0;
        self.swap_counter = 0;
        self.pending = Vec::new();
        self.lock = false;
        self.paused = false;
        self.validity_period = PRICE_VALIDITY_PERIOD;
        proof {
            assert(self@.balances =~= seq![(founder, INITIAL_SUPPLY)]);
            assert(self@ =~= initialize_tr(
                old(self)@,
                admin,
                founder,
                yield_token,
                chainlink_feed,
                band_oracle,
            ).0);
        }
        Ok(())
    }

    /// Moves `amount` units from `from` to `to`.
    ///
    /// Only `from` itself may order the transfer; the operation is gated
    /// by the pause flag, rejects non-positive amounts, and fails with
    /// `InsufficientBalance` rather than overdraw. A single atomic
    /// mutation with no external call, so no reentrancy guard applies.
    pub fn transfer(&mut self, caller: u64, from: u64, to: u64, amount: i128) -> (result: Result<
        (),
        SaiError,
    >)
        requires
            wf(old(self)@),
        ensures
            wf(final(self)@),
            ({
                let (m, r) = transfer_tr(old(self)@, caller, from, to, amount);
                final(self)@ == m && result == r
            }),
    {
        proof {
            lemma_transfer_preserves_wf(old(self)@, caller, from, to, amount);
        }
        if caller != from {
            return Err(SaiError::Unauthorized);
        }
        if self.paused {
            return Err(SaiError::ContractPaused);
        }
        if amount <= 0 {
            return Err(SaiError::InvalidAmount);
        }
        let from_balance = self.balances.get(from);
        if from_balance < amount {
            return Err(SaiError::InsufficientBalance);
        }
        proof {
            lemma_bal_le_sum(old(self)@.balances, from);
        }
        self.balances.set(from, from_balance - amount);
        proof {
            let debited = self@.balances;
            lemma_upd_bal_sum(old(self)@.balances, from, (from_balance - amount) as i128);
            lemma_upd_bal_nonneg(old(self)@.balances, from, (from_balance - amount) as i128);
            lemma_bal_le_sum(debited, to);
        }
        let to_balance = self.balances.get(to);
        self.balances.set(to, to_balance + amount);
        Ok(())
    }

    /// Records a buy request as a pending swap and returns its
    /// identifier.
    ///
    /// Only `buyer` may order it. The amount must be positive and must
    /// still fit under the supply cap; the headroom is validated but not
    /// reserved, so requests pending together may jointly oversubscribe
    /// the cap until fulfillment re-checks it. After a successful return
    /// the caller escrows `amount` of the payment asset from the buyer.
    pub fn request_buy(
        &mut self,
        caller: u64,
        buyer: u64,
        amount: i128,
        payment_asset: u64,
        now: u64,
    ) -> (result: Result<u64, SaiError>)
        requires
            wf(old(self)@),
        ensures
            wf(final(self)@),
            ({
                let (m, r) = request_buy_tr(old(self)@, caller, buyer, amount, payment_asset, now);
                final(self)@ == m && result == r
            }),
    {
        proof {
            lemma_request_buy_preserves_wf(old(self)@, caller, buyer, amount, payment_asset, now);
        }
        if caller != buyer {
            return Err(SaiError::Unauthorized);
        }
        if self.paused {
            return Err(SaiError::ContractPaused);
        }
        if self.lock {
            return Err(SaiError::ReentrancyDetected);
        }
        if amount <= 0 {
            return Err(SaiError::InvalidAmount);
        }
        self.lock = true;
        if amount > i128::MAX - self.total_supply {
            self.lock = false;
            return Err(SaiError::ArithmeticOverflow);
        }
        if amount > MAX_SUPPLY - self.total_supply {
            self.lock = false;
            return Err(SaiError::ExceedsMaxSupply);
        }
        if self.swap_counter == u64::MAX {
            self.lock = false;
            return Err(SaiError::ArithmeticOverflow);
        }
        let id = self.swap_counter + 1;
        let swap = PendingSwap { swap_id: id, buyer, payment_asset, amount, timestamp: now };
        self.pending.push(swap);
        self.swap_counter = id;
        self.lock = false;
        Ok(id)
    }

    /// The index of the pending swap carrying `swap_id`, when one exists.
    fn pending_index_of(&self, swap_id: u64) -> (r: Option<usize>)
        ensures
            match r {
                Some(i) => first_match_at(self@.pending, swap_id, i as int),
                None => !has_id(self@.pending, swap_id),
            },
    {
        let n = self.pending.len();
        let mut i: usize = 0;
        while i < n
            invariant
                n == self@.pending.len(),
                i <= n,
                forall|j: int| 0 <= j < i ==> (#[trigger] self@.pending[j]).swap_id != swap_id,
            decreases n - i,
        {
            if self.pending[i].swap_id == swap_id {
                return Some(i);
            }
            i = i + 1;
        }
        None
    }

    /// Consumes the pending swap carrying `swap_id`: removes it from the
    /// registry, credits the pool with its truncated percentage share,
    /// credits the buyer with the full amount, and grows the total supply
    /// by the full amount — every effect committed before any external
    /// call, and nothing committed on any failure.
    ///
    /// Only the administrator may order it. After a successful return the
    /// caller pays out the payee share of the yield asset to the founder.
    #[allow(unused_variables)]
    pub fn fulfill_swap(&mut self, caller: u64, swap_id: u64, yield_token_amount: i128) -> (result:
        Result<(), SaiError>)
        requires
            wf(old(self)@),
        ensures
            wf(final(self)@),
            ({
                let (m, r) = fulfill_swap_tr(old(self)@, caller, swap_id);
                final(self)@ == m && result == r
            }),
    {
        proof {
            lemma_fulfill_preserves_wf(old(self)@, caller, swap_id);
        }
        let cfg = match self.config {
            Some(c) => c,
            None => {
                return Err(SaiError::Unauthorized);
            },
        };
        if caller != cfg.admin {
            return Err(SaiError::Unauthorized);
        }
        if self.paused {
            return Err(SaiError::ContractPaused);
        }
        if self.lock {
            return Err(SaiError::ReentrancyDetected);
        }
        self.lock = true;
        let i = match self.pending_index_of(swap_id) {
            Some(i) => i,
            None => {
                proof {
                    lemma_find_absent(old(self)@.pending, swap_id);
                }
                self.lock = false;
                return Err(SaiError::SwapNotFound);
            },
        };
        proof {
            lemma_find_at_index(old(self)@.pending, swap_id, i as int);
        }
        let swap = self.pending[i];
        if swap.amount > MAX_SUPPLY - self.total_supply {
            self.lock = false;
            return Err(SaiError::ExceedsMaxSupply);
        }
        // Effects, all before any external interaction.
        self.pending.remove(i);
        proof {
            assert(0 <= swap.amount * 20 / 100 <= swap.amount) by (nonlinear_arith)
                requires
                    0 < swap.amount,
            ;
        }
        let pool_share = swap.amount * 20 / 100;
        self.agent_pool = self.agent_pool + pool_share;
        proof {
            lemma_bal_le_sum(old(self)@.balances, swap.buyer);
        }
        let buyer_balance = self.balances.get(swap.buyer);
        self.balances.set(swap.buyer, buyer_balance + swap.amount);
        self.total_supply = self.total_supply + swap.amount;
        self.lock = false;
        Ok(())
    }

    /// Raises the circuit-breaker flag. Administrator only.
    pub fn pause(&mut self, caller: u64) -> (result: Result<(), SaiError>)
        requires
            wf(old(self)@),
        ensures
            wf(final(self)@),
            ({
                let (m, r) = pause_tr(old(self)@, caller);
                final(self)@ == m && result == r
            }),
    {
        proof {
            lemma_pause_preserves_wf(old(self)@, caller);
        }
        let cfg = match self.config {
            Some(c) => c,
            None => {
                return Err(SaiError::Unauthorized);
            },
        };
        if caller != cfg.admin {
            return Err(SaiError::Unauthorized);
        }
        self.paused = true;
        Ok(())
    }

    /// Clears the circuit-breaker flag. Administrator only.
    pub fn unpause(&mut self, caller: u64) -> (result: Result<(), SaiError>)
        requires
            wf(old(self)@),
        ensures
            wf(final(self)@),
            ({
                let (m, r) = unpause_tr(old(self)@, caller);
                final(self)@ == m && result == r
            }),
    {
        proof {
            lemma_pause_preserves_wf(old(self)@, caller);
        }
        let cfg = match self.config {
            Some(c) => c,
            None => {
                return Err(SaiError::Unauthorized);
            },
        };
        if caller != cfg.admin {
            return Err(SaiError::Unauthorized);
        }
        self.paused = false;
        Ok(())
    }

    /// A price read from the primary source, under the staleness window.
    ///
    /// `now` comes from the host's monotonic clock, so it never lies
    /// before the recorded last update.
    pub fn get_price_from_chainlink(&mut self, asset: &str, now: u64) -> (result: Result<
        i128,
        SaiError,
    >)
        requires
            wf(old(self)@),
            now >= old(self)@.last_price_update,
        ensures
            wf(final(self)@),
            ({
                let (m, r) = chainlink_price_tr(old(self)@, asset@, now);
                final(self)@ == m && result == r
            }),
    {
        proof {
            lemma_price_preserves_wf(old(self)@, asset@, now);
        }
        if self.paused {
            return Err(SaiError::ContractPaused);
        }
        if self.config.is_none() {
            return Err(SaiError::OracleError);
        }
        if now - self.last_price_update > self.validity_period {
            return Err(SaiError::StalePrice);
        }
        match quote(asset) {
            Ok(p) => {
                self.last_price_update = now;
                Ok(p)
            },
            Err(e) => Err(e),
        }
    }

    /// A price read from the secondary, always-fresh fallback source.
    pub fn get_price_from_band(&self, asset: &str) -> (result: Result<i128, SaiError>)
        requires
            wf(self@),
        ensures
            result == band_price_tr(self@, asset@),
    {
        if self.paused {
            return Err(SaiError::ContractPaused);
        }
        if self.config.is_none() {
            return Err(SaiError::OracleError);
        }
        quote(asset)
    }

    /// A price read with fallback: the primary source first, and on any
    /// primary failure the secondary source's result, success or error.
    pub fn get_price_with_fallback(&mut self, asset: &str, now: u64) -> (result: Result<
        i128,
        SaiError,
    >)
        requires
            wf(old(self)@),
            now >= old(self)@.last_price_update,
        ensures
            wf(final(self)@),
            ({
                let (m, r) = fallback_price_tr(old(self)@, asset@, now);
                final(self)@ == m && result == r
            }),
    {
        match self.get_price_from_chainlink(asset, now) {
            Ok(p) => Ok(p),
            Err(_) => self.get_price_from_band(asset),
        }
    }

    /// The balance of `id`; zero for an account never credited.
    pub fn balance(&self, id: u64) -> (r: i128)
        ensures
            r == bal_of(self@.balances, id),
    {
        self.balances.get(id)
    }

    /// The units reserved for the protocol-level pool.
    pub fn agent_pool_balance(&self) -> (r: i128)
        ensures
            r == self@.agent_pool,
    {
        self.agent_pool
    }

    /// The sum of all minted units outstanding.
    pub fn total_supply(&self) -> (r: i128)
        ensures
            r == self@.total_supply,
    {
        self.total_supply
    }

    /// The immutable cap on minted supply.
    pub fn max_supply(&self) -> (r: i128)
        ensures
            r == MAX_SUPPLY,
    {
        MAX_SUPPLY
    }

    /// Fractional precision of a ledger unit.
    pub fn decimals(&self) -> (r: u32)
        ensures
            r == DECIMALS,
    {
        DECIMALS
    }

    /// The token's display name.
    pub fn name(&self) -> (r: String)
        ensures
            r@ == "Super AI"@,
    {
        "Super AI".to_owned()
    }

    /// The token's ticker symbol.
    pub fn symbol(&self) -> (r: String)
        ensures
            r@ == "sAI"@,
    {
        "sAI".to_owned()
    }

    /// How many swaps are pending.
    pub fn pending_swaps_count(&self) -> (r: usize)
        ensures
            r == self@.pending.len(),
    {
        self.pending.len()
    }
}

} // verus!
