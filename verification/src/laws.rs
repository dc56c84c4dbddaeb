//! The laws of the ledger, proved once and for all over the transitions.
//!
//! Each lemma here quantifies over every state and input: together they
//! show that the state invariant [`wf`] survives every operation, that
//! initialization succeeds exactly once, that the supply cap and the
//! balance-sum accounting hold after every committed step, how a buy
//! request composes with its fulfillment, that the reentrancy guard
//! rejects re-entered operations without touching the state, how the
//! oracle fallback resolves, and what pausing shuts off.

use vstd::prelude::*;

use crate::balances::{
    accts_unique, bal_of, lemma_bal_le_sum, lemma_upd_bal_nonneg, lemma_upd_bal_self,
    lemma_upd_bal_sum, lemma_upd_bal_unique, sum_of, upd_bal,
};
use crate::errors::SaiError;
use crate::model::{
    fulfill_swap_tr, initialize_tr, pause_tr, pool_share_of, request_buy_tr, swap_ok, transfer_tr,
    unpause_tr, wf, TokenModel, INITIAL_SUPPLY, MAX_SUPPLY,
};
use crate::oracle::{band_price_tr, chainlink_price_tr, fallback_price_tr};
use crate::swaps::{
    find_swap, first_match_at, has_id, ids_unique, lemma_find_at_index, lemma_find_first_index,
    lemma_find_push, remove_swap, PendingSwap,
};

verus! {

/// Initialization preserves the state invariant.
pub proof fn lemma_initialize_preserves_wf(
    s: TokenModel,
    admin: u64,
    founder: u64,
    yield_token: u64,
    chainlink_feed: u64,
    band_oracle: u64,
)
    requires
        wf(s),
    ensures
        wf(initialize_tr(s, admin, founder, yield_token, chainlink_feed, band_oracle).0),
{
    let t = initialize_tr(s, admin, founder, yield_token, chainlink_feed, band_oracle).0;
    if s.config is None {
        let b = t.balances;
        assert(b.drop_first() =~= Seq::<(u64, i128)>::empty());
        assert(!crate::balances::has_acct(b.drop_first(), founder));
        assert(accts_unique(b.drop_first()));
        assert(sum_of(b) == INITIAL_SUPPLY + sum_of(b.drop_first()));
    }
}

/// A transfer preserves the state invariant: in particular it never
/// produces a negative balance, and the balance sum still equals the
/// total supply afterwards.
pub proof fn lemma_transfer_preserves_wf(
    s: TokenModel,
    caller: u64,
    from: u64,
    to: u64,
    amount: i128,
)
    requires
        wf(s),
    ensures
        wf(transfer_tr(s, caller, from, to, amount).0),
{
    let (t, r) = transfer_tr(s, caller, from, to, amount);
    if r is Ok {
        let bal_from = bal_of(s.balances, from);
        let debited = upd_bal(s.balances, from, (bal_from - amount) as i128);
        lemma_bal_le_sum(s.balances, from);
        lemma_upd_bal_unique(s.balances, from, (bal_from - amount) as i128);
        lemma_upd_bal_nonneg(s.balances, from, (bal_from - amount) as i128);
        lemma_upd_bal_sum(s.balances, from, (bal_from - amount) as i128);
        assert(sum_of(debited) == s.total_supply - amount);
        let bal_to = bal_of(debited, to);
        lemma_bal_le_sum(debited, to);
        assert(bal_to + amount <= s.total_supply);
        lemma_upd_bal_unique(debited, to, (bal_to + amount) as i128);
        lemma_upd_bal_nonneg(debited, to, (bal_to + amount) as i128);
        lemma_upd_bal_sum(debited, to, (bal_to + amount) as i128);
        assert(sum_of(t.balances) == s.total_supply);
        assert(t.balances.len() > 0 ==> s.config is Some) by {
            if s.config is None {
                assert(bal_of(s.balances, from) == 0);
            }
        }
    }
}

/// A buy request preserves the state invariant.
pub proof fn lemma_request_buy_preserves_wf(
    s: TokenModel,
    caller: u64,
    buyer: u64,
    amount: i128,
    payment_asset: u64,
    now: u64,
)
    requires
        wf(s),
    ensures
        wf(request_buy_tr(s, caller, buyer, amount, payment_asset, now).0),
{
    let (t, r) = request_buy_tr(s, caller, buyer, amount, payment_asset, now);
    if r is Ok {
        assert(forall|i: int|
            0 <= i < s.pending.len() ==> (#[trigger] t.pending[i]) == s.pending[i]);
        assert(forall|i: int|
            0 <= i < t.pending.len() ==> swap_ok(#[trigger] t.pending[i], t.swap_counter));
        assert(ids_unique(t.pending));
    }
}

/// Fulfillment preserves the state invariant: in particular the total
/// supply never exceeds the cap afterwards, and the balance sum still
/// equals the total supply.
pub proof fn lemma_fulfill_preserves_wf(s: TokenModel, caller: u64, swap_id: u64)
    requires
        wf(s),
    ensures
        wf(fulfill_swap_tr(s, caller, swap_id).0),
{
    let (t, r) = fulfill_swap_tr(s, caller, swap_id);
    if r is Ok {
        let swap = find_swap(s.pending, swap_id).unwrap();
        lemma_find_first_index(s.pending, swap_id);
        let i = choose|i: int| #[trigger] first_match_at(s.pending, swap_id, i);
        lemma_find_at_index(s.pending, swap_id, i);
        assert(swap == s.pending[i]);
        assert(swap_ok(swap, s.swap_counter));

        // The registry after removal: every entry comes from the old
        // registry, so uniqueness and the per-swap bounds carry over.
        let p = remove_swap(s.pending, swap_id);
        assert(p =~= s.pending.remove(i));
        assert(forall|k: int| 0 <= k < i ==> (#[trigger] p[k]) == s.pending[k]);
        assert(forall|k: int| i <= k < p.len() ==> (#[trigger] p[k]) == s.pending[k + 1]);
        assert(forall|k: int| 0 <= k < p.len() ==> swap_ok(#[trigger] p[k], t.swap_counter));
        assert(ids_unique(p));

        // The pool's share is a truncated percentage of a positive amount.
        assert(0 <= pool_share_of(swap.amount) <= swap.amount) by (nonlinear_arith)
            requires
                0 < swap.amount,
        ;

        // The buyer's new balance stays within the supply cap.
        let bal_buyer = bal_of(s.balances, swap.buyer);
        lemma_bal_le_sum(s.balances, swap.buyer);
        assert(bal_buyer + swap.amount <= MAX_SUPPLY);
        lemma_upd_bal_unique(s.balances, swap.buyer, (bal_buyer + swap.amount) as i128);
        lemma_upd_bal_nonneg(s.balances, swap.buyer, (bal_buyer + swap.amount) as i128);
        lemma_upd_bal_sum(s.balances, swap.buyer, (bal_buyer + swap.amount) as i128);
        assert(sum_of(t.balances) == t.total_supply);
    }
}

/// In every well-formed state the accounting is exact: the sum of all
/// balances equals the total supply, no balance is negative, no balance
/// exceeds the total supply, and the supply respects the cap.
pub proof fn lemma_wf_accounting(s: TokenModel)
    requires
        wf(s),
    ensures
        sum_of(s.balances) == s.total_supply,
        s.total_supply <= MAX_SUPPLY,
        forall|a: u64| 0 <= #[trigger] bal_of(s.balances, a) <= s.total_supply,
{
    assert forall|a: u64| 0 <= #[trigger] bal_of(s.balances, a) <= s.total_supply by {
        lemma_bal_le_sum(s.balances, a);
    }
}

/// Exactly one initialization succeeds: on an uninitialized state the
/// call returns `Ok`, and after any successful initialization every
/// further call fails with `AlreadyInitialized` and changes nothing.
pub proof fn lemma_initialize_exactly_once(
    s: TokenModel,
    admin: u64,
    founder: u64,
    yield_token: u64,
    chainlink_feed: u64,
    band_oracle: u64,
    admin2: u64,
    founder2: u64,
    yield_token2: u64,
    chainlink_feed2: u64,
    band_oracle2: u64,
)
    ensures
        s.config is None ==> initialize_tr(
            s,
            admin,
            founder,
            yield_token,
            chainlink_feed,
            band_oracle,
        ).1 is Ok,
        ({
            let (t, r) = initialize_tr(s, admin, founder, yield_token, chainlink_feed, band_oracle);
            r is Ok ==> initialize_tr(
                t,
                admin2,
                founder2,
                yield_token2,
                chainlink_feed2,
                band_oracle2,
            ) == (t, Err::<(), SaiError>(SaiError::AlreadyInitialized))
        }),
{
}

/// After every committed transfer, initialization and fulfillment, no
/// balance is negative and the sum of all balances equals the total
/// supply.
pub proof fn lemma_balance_accounting(
    s: TokenModel,
    caller: u64,
    from: u64,
    to: u64,
    amount: i128,
    admin: u64,
    founder: u64,
    yield_token: u64,
    chainlink_feed: u64,
    band_oracle: u64,
    fulfill_caller: u64,
    swap_id: u64,
)
    requires
        wf(s),
    ensures
        ({
            let t = transfer_tr(s, caller, from, to, amount).0;
            sum_of(t.balances) == t.total_supply && forall|a: u64|
                #[trigger] bal_of(t.balances, a) >= 0
        }),
        ({
            let t = initialize_tr(s, admin, founder, yield_token, chainlink_feed, band_oracle).0;
            sum_of(t.balances) == t.total_supply && forall|a: u64|
                #[trigger] bal_of(t.balances, a) >= 0
        }),
        ({
            let t = fulfill_swap_tr(s, fulfill_caller, swap_id).0;
            sum_of(t.balances) == t.total_supply && forall|a: u64|
                #[trigger] bal_of(t.balances, a) >= 0
        }),
{
    lemma_transfer_preserves_wf(s, caller, from, to, amount);
    lemma_wf_accounting(transfer_tr(s, caller, from, to, amount).0);
    lemma_initialize_preserves_wf(s, admin, founder, yield_token, chainlink_feed, band_oracle);
    lemma_wf_accounting(initialize_tr(s, admin, founder, yield_token, chainlink_feed, band_oracle).0);
    lemma_fulfill_preserves_wf(s, fulfill_caller, swap_id);
    lemma_wf_accounting(fulfill_swap_tr(s, fulfill_caller, swap_id).0);
}

/// Fulfillment never pushes the total supply past the cap; since it also
/// preserves the invariant, the bound holds after every sequence of
/// fulfillments.
pub proof fn lemma_fulfill_supply_cap(s: TokenModel, caller: u64, swap_id: u64)
    requires
        wf(s),
    ensures
        wf(fulfill_swap_tr(s, caller, swap_id).0),
        fulfill_swap_tr(s, caller, swap_id).0.total_supply <= MAX_SUPPLY,
{
    lemma_fulfill_preserves_wf(s, caller, swap_id);
}

/// A buy request followed by its fulfillment settles exactly: the
/// fulfillment succeeds, the buyer's balance grows by exactly the
/// requested amount, the pooled allocation grows by the truncated
/// percentage share, the registry shrinks by one, and the supply grows
/// by the amount.
pub proof fn lemma_request_then_fulfill(
    s: TokenModel,
    buyer: u64,
    amount: i128,
    payment_asset: u64,
    now: u64,
    admin_caller: u64,
)
    requires
        wf(s),
        request_buy_tr(s, buyer, buyer, amount, payment_asset, now).1 is Ok,
        s.config is Some,
        admin_caller == s.config.unwrap().admin,
    ensures
        ({
            let (s1, r1) = request_buy_tr(s, buyer, buyer, amount, payment_asset, now);
            let (s2, r2) = fulfill_swap_tr(s1, admin_caller, r1.unwrap());
            &&& r2 is Ok
            &&& bal_of(s2.balances, buyer) == bal_of(s.balances, buyer) + amount
            &&& s2.agent_pool == s.agent_pool + amount * 20 / 100
            &&& s2.pending.len() == s1.pending.len() - 1
            &&& s2.total_supply == s.total_supply + amount
        }),
{
    let (s1, r1) = request_buy_tr(s, buyer, buyer, amount, payment_asset, now);
    let id = r1.unwrap();
    let swap = PendingSwap { swap_id: id, buyer, payment_asset, amount, timestamp: now };

    // The fresh identifier is above every identifier in the registry,
    // so the lookup finds exactly the appended swap.
    assert(!has_id(s.pending, id)) by {
        if has_id(s.pending, id) {
            let i = choose|i: int| 0 <= i < s.pending.len() && (#[trigger] s.pending[i]).swap_id
                == id;
            assert(swap_ok(s.pending[i], s.swap_counter));
        }
    }
    lemma_find_push(s.pending, swap, id);
    assert(find_swap(s1.pending, id) == Some(swap));

    let (s2, r2) = fulfill_swap_tr(s1, admin_caller, id);
    assert(r2 is Ok);

    // The removed entry is the appended one, at the end of the registry.
    assert(first_match_at(s1.pending, id, s.pending.len() as int)) by {
        assert forall|j: int| 0 <= j < s.pending.len() implies (#[trigger] s1.pending[j]).swap_id
            != id by {
            assert(s1.pending[j] == s.pending[j]);
            assert(swap_ok(s.pending[j], s.swap_counter));
        }
    }
    lemma_find_at_index(s1.pending, id, s.pending.len() as int);
    assert(s2.pending.len() == s1.pending.len() - 1);

    // The buyer is credited with the full amount.
    lemma_bal_le_sum(s.balances, buyer);
    lemma_upd_bal_self(s.balances, buyer, (bal_of(s.balances, buyer) + amount) as i128);

    // The pool takes its truncated share.
    assert(0 <= amount * 20 / 100 <= amount) by (nonlinear_arith)
        requires
            0 < amount,
    ;
}

/// The reentrancy guard: a guarded operation invoked while the lock is
/// held fails with `ReentrancyDetected` and changes nothing; and no
/// operation ever returns with the lock in a different position than it
/// found it — in particular, a lock clear at entry is clear at exit,
/// whatever the outcome.
pub proof fn lemma_reentrancy_guard(
    s: TokenModel,
    buyer: u64,
    amount: i128,
    payment_asset: u64,
    now: u64,
    admin_caller: u64,
    swap_id: u64,
)
    ensures
        s.lock && !s.paused ==> request_buy_tr(s, buyer, buyer, amount, payment_asset, now) == (
            s,
            Err::<u64, SaiError>(SaiError::ReentrancyDetected),
        ),
        s.lock && !s.paused && s.config is Some && admin_caller == s.config.unwrap().admin
            ==> fulfill_swap_tr(s, admin_caller, swap_id) == (
            s,
            Err::<(), SaiError>(SaiError::ReentrancyDetected),
        ),
        request_buy_tr(s, buyer, buyer, amount, payment_asset, now).0.lock == s.lock,
        fulfill_swap_tr(s, admin_caller, swap_id).0.lock == s.lock,
{
}

/// The oracle fallback policy: when the primary source fails — error or
/// staleness alike — the state is unchanged and the result is exactly
/// the secondary source's result, its error included; when the primary
/// succeeds, its reading is returned.
pub proof fn lemma_oracle_fallback(s: TokenModel, asset: Seq<char>, now: u64)
    ensures
        ({
            let (s1, primary) = chainlink_price_tr(s, asset, now);
            let (s2, r) = fallback_price_tr(s, asset, now);
            &&& (primary is Err ==> s2 == s && r == band_price_tr(s, asset))
            &&& (primary is Ok ==> s2 == s1 && r == primary)
        }),
{
}

/// Pause semantics: after the administrator pauses, transfers, buy
/// requests and every price query fail with `ContractPaused`; and
/// unpausing restores the state the pause was applied to.
pub proof fn lemma_pause_gates_operations(
    s: TokenModel,
    admin_caller: u64,
    from: u64,
    to: u64,
    amount: i128,
    buyer: u64,
    payment_asset: u64,
    now: u64,
    asset: Seq<char>,
)
    requires
        s.config is Some,
        admin_caller == s.config.unwrap().admin,
    ensures
        ({
            let (p, r) = pause_tr(s, admin_caller);
            &&& r is Ok
            &&& p.paused
            &&& transfer_tr(p, from, from, to, amount).1 == Err::<(), SaiError>(
                SaiError::ContractPaused,
            )
            &&& request_buy_tr(p, buyer, buyer, amount, payment_asset, now).1 == Err::<
                u64,
                SaiError,
            >(SaiError::ContractPaused)
            &&& chainlink_price_tr(p, asset, now).1 == Err::<i128, SaiError>(
                SaiError::ContractPaused,
            )
            &&& band_price_tr(p, asset) == Err::<i128, SaiError>(SaiError::ContractPaused)
            &&& fallback_price_tr(p, asset, now).1 == Err::<i128, SaiError>(
                SaiError::ContractPaused,
            )
            &&& unpause_tr(p, admin_caller) == (
                TokenModel { paused: false, ..s },
                Ok::<(), SaiError>(()),
            )
        }),
{
}

/// Pausing preserves the state invariant.
pub proof fn lemma_pause_preserves_wf(s: TokenModel, caller: u64)
    requires
        wf(s),
    ensures
        wf(pause_tr(s, caller).0),
        wf(unpause_tr(s, caller).0),
{
}

/// A price read preserves the state invariant.
pub proof fn lemma_price_preserves_wf(s: TokenModel, asset: Seq<char>, now: u64)
    requires
        wf(s),
    ensures
        wf(chainlink_price_tr(s, asset, now).0),
        wf(fallback_price_tr(s, asset, now).0),
{
}

} // verus!
