//! The registry of pending swaps.
//!
//! A pending swap is created by a buy request and owned by the registry
//! until fulfillment consumes it; no swap is ever mutated in place. The
//! spec-level functions give the registry's mathematical reading: lookup by
//! identifier ([`find_swap`]) and consumption ([`remove_swap`]), both acting
//! on the first entry carrying the identifier, which under [`ids_unique`]
//! is the only one.

use vstd::prelude::*;

verus! {

/// A purchase request awaiting fulfillment.
#[derive(Clone, Copy, Debug, PartialEq, Eq, Structural)]
pub struct PendingSwap {
    /// Identifier drawn from the monotonic swap counter; never reused.
    pub swap_id: u64,
    /// The account that will receive the minted units.
    pub buyer: u64,
    /// The external asset escrowed against this request.
    pub payment_asset: u64,
    /// How many units the buyer asked for; always positive.
    pub amount: i128,
    /// When the request was created.
    pub timestamp: u64,
}

/// Whether some entry of the registry carries the identifier `id`.
pub open spec fn has_id(s: Seq<PendingSwap>, id: u64) -> bool {
    exists|i: int| 0 <= i < s.len() && (#[trigger] s[i]).swap_id == id
}

/// No two entries carry the same identifier.
pub open spec fn ids_unique(s: Seq<PendingSwap>) -> bool {
    forall|i: int, j: int|
        0 <= i < j < s.len() ==> (#[trigger] s[i]).swap_id != (#[trigger] s[j]).swap_id
}

/// The first entry carrying `id`, when one exists.
pub open spec fn find_swap(s: Seq<PendingSwap>, id: u64) -> Option<PendingSwap>
    decreases s.len(),
{
    if s.len() == 0 {
        None
    } else if s[0].swap_id == id {
        Some(s[0])
    } else {
        find_swap(s.drop_first(), id)
    }
}

/// The registry with the first entry carrying `id` removed.
pub open spec fn remove_swap(s: Seq<PendingSwap>, id: u64) -> Seq<PendingSwap>
    decreases s.len(),
{
    if s.len() == 0 {
        s
    } else if s[0].swap_id == id {
        s.drop_first()
    } else {
        seq![s[0]] + remove_swap(s.drop_first(), id)
    }
}

/// Whether index `i` holds the first entry of the registry carrying `id`.
pub open spec fn first_match_at(s: Seq<PendingSwap>, id: u64, i: int) -> bool {
    &&& 0 <= i < s.len()
    &&& s[i].swap_id == id
    &&& forall|j: int| 0 <= j < i ==> (#[trigger] s[j]).swap_id != id
}

/// A lookup that succeeds has a first matching index.
pub proof fn lemma_find_first_index(s: Seq<PendingSwap>, id: u64)
    requires
        find_swap(s, id) is Some,
    ensures
        exists|i: int| #[trigger] first_match_at(s, id, i),
    decreases s.len(),
{
    if s.len() > 0 {
        if s[0].swap_id == id {
            assert(first_match_at(s, id, 0));
        } else {
            lemma_find_first_index(s.drop_first(), id);
            let i = choose|i: int| #[trigger] first_match_at(s.drop_first(), id, i);
            assert(s[i + 1].swap_id == id) by {
                assert(s.drop_first()[i] == s[i + 1]);
            }
            assert forall|j: int| 0 <= j < i + 1 implies (#[trigger] s[j]).swap_id != id by {
                if j > 0 {
                    assert(s.drop_first()[j - 1] == s[j]);
                }
            }
            assert(first_match_at(s, id, i + 1));
        }
    }
}

/// When the first entry carrying `id` stands at index `i`, lookup returns
/// that entry and removal drops exactly it.
pub proof fn lemma_find_at_index(s: Seq<PendingSwap>, id: u64, i: int)
    requires
        0 <= i < s.len(),
        s[i].swap_id == id,
        forall|j: int| 0 <= j < i ==> (#[trigger] s[j]).swap_id != id,
    ensures
        find_swap(s, id) == Some(s[i]),
        remove_swap(s, id) =~= s.remove(i),
    decreases s.len(),
{
    if i == 0 {
        assert(remove_swap(s, id) =~= s.remove(0));
    } else {
        assert(forall|j: int|
            0 <= j < s.drop_first().len() ==> (#[trigger] s.drop_first()[j]) == s[j + 1]);
        lemma_find_at_index(s.drop_first(), id, i - 1);
        assert(remove_swap(s, id) =~= s.remove(i));
    }
}

/// When no entry carries `id`, lookup finds nothing.
pub proof fn lemma_find_absent(s: Seq<PendingSwap>, id: u64)
    requires
        !has_id(s, id),
    ensures
        find_swap(s, id) is None,
    decreases s.len(),
{
    if s.len() > 0 {
        assert(forall|j: int|
            0 <= j < s.drop_first().len() ==> (#[trigger] s.drop_first()[j]) == s[j + 1]);
        assert(s[0].swap_id != id);
        assert(!has_id(s.drop_first(), id));
        lemma_find_absent(s.drop_first(), id);
    }
}

/// Appending an entry whose identifier is not yet listed leaves every
/// earlier lookup as it was, and a lookup of the new identifier finds the
/// appended entry.
pub proof fn lemma_find_push(s: Seq<PendingSwap>, p: PendingSwap, id: u64)
    ensures
        id != p.swap_id ==> find_swap(s.push(p), id) == find_swap(s, id),
        !has_id(s, p.swap_id) ==> find_swap(s.push(p), p.swap_id) == Some(p),
    decreases s.len(),
{
    let t = s.push(p);
    if s.len() == 0 {
        assert(t[0] == p);
        assert(t.drop_first() =~= s);
    } else {
        assert(t[0] == s[0]);
        assert(t.drop_first() =~= s.drop_first().push(p));
        lemma_find_push(s.drop_first(), p, id);
        if !has_id(s, p.swap_id) {
            assert(s[0].swap_id != p.swap_id);
            assert(forall|j: int|
                0 <= j < s.drop_first().len() ==> (#[trigger] s.drop_first()[j]) == s[j + 1]);
            assert(!has_id(s.drop_first(), p.swap_id));
        }
    }
}

} // verus!
