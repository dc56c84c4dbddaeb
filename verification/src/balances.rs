//! The keyed account-balance store.
//!
//! Balances are held as an association list from account identifier to
//! amount, with unique keys. The spec-level functions below ([`bal_of`],
//! [`sum_of`], [`upd_bal`]) give the mathematical reading of the table that
//! every contract in the crate is written against; the lemmas relate an
//! update of one key to the balance of every key and to the total sum.

use vstd::prelude::*;

verus! {

/// Whether some entry of the table carries the key `who`.
pub open spec fn has_acct(s: Seq<(u64, i128)>, who: u64) -> bool
    decreases s.len(),
{
    if s.len() == 0 {
        false
    } else {
        s[0].0 == who || has_acct(s.drop_first(), who)
    }
}

/// The balance recorded for `who`: the first entry with that key, or zero
/// when no entry carries it.
pub open spec fn bal_of(s: Seq<(u64, i128)>, who: u64) -> i128
    decreases s.len(),
{
    if s.len() == 0 {
        0
    } else if s[0].0 == who {
        s[0].1
    } else {
        bal_of(s.drop_first(), who)
    }
}

/// The sum of every balance in the table.
pub open spec fn sum_of(s: Seq<(u64, i128)>) -> int
    decreases s.len(),
{
    if s.len() == 0 {
        0
    } else {
        s[0].1 + sum_of(s.drop_first())
    }
}

/// No two entries carry the same key.
pub open spec fn accts_unique(s: Seq<(u64, i128)>) -> bool
    decreases s.len(),
{
    if s.len() == 0 {
        true
    } else {
        !has_acct(s.drop_first(), s[0].0) && accts_unique(s.drop_first())
    }
}

/// Every balance in the table is at least zero.
pub open spec fn nonnegative(s: Seq<(u64, i128)>) -> bool {
    forall|i: int| 0 <= i < s.len() ==> (#[trigger] s[i]).1 >= 0
}

/// The table after recording `amount` for `who`: the first entry with that
/// key is replaced, or a fresh entry is appended when none carries it.
pub open spec fn upd_bal(s: Seq<(u64, i128)>, who: u64, amount: i128) -> Seq<(u64, i128)>
    decreases s.len(),
{
    if s.len() == 0 {
        seq![(who, amount)]
    } else if s[0].0 == who {
        seq![(who, amount)] + s.drop_first()
    } else {
        seq![s[0]] + upd_bal(s.drop_first(), who, amount)
    }
}

/// An account is listed exactly when some index of the table carries it.
pub proof fn lemma_has_acct_index(s: Seq<(u64, i128)>, who: u64)
    ensures
        has_acct(s, who) <==> exists|i: int| 0 <= i < s.len() && (#[trigger] s[i]).0 == who,
    decreases s.len(),
{
    if s.len() > 0 {
        lemma_has_acct_index(s.drop_first(), who);
        if s[0].0 == who {
            assert(s[0].0 == who);
        } else if has_acct(s.drop_first(), who) {
            let i = choose|i: int|
                0 <= i < s.drop_first().len() && (#[trigger] s.drop_first()[i]).0 == who;
            assert(s[i + 1].0 == who);
        } else {
            assert forall|i: int| 0 <= i < s.len() implies (#[trigger] s[i]).0 != who by {
                if i > 0 {
                    assert(s.drop_first()[i - 1] == s[i]);
                }
            }
        }
    }
}

/// After an update of `who`, the table records `amount` for `who`.
pub broadcast proof fn lemma_upd_bal_self(s: Seq<(u64, i128)>, who: u64, amount: i128)
    ensures
        #[trigger] bal_of(upd_bal(s, who, amount), who) == amount,
    decreases s.len(),
{
    let u = upd_bal(s, who, amount);
    if s.len() == 0 {
        assert(u.drop_first() =~= s);
    } else if s[0].0 == who {
        assert(u[0] == (who, amount));
    } else {
        assert(u[0] == s[0]);
        assert(u.drop_first() =~= upd_bal(s.drop_first(), who, amount));
        lemma_upd_bal_self(s.drop_first(), who, amount);
    }
}

/// An update of `who` leaves every other account's balance as it was.
pub broadcast proof fn lemma_upd_bal_other(s: Seq<(u64, i128)>, who: u64, amount: i128, other: u64)
    requires
        other != who,
    ensures
        #[trigger] bal_of(upd_bal(s, who, amount), other) == bal_of(s, other),
    decreases s.len(),
{
    let u = upd_bal(s, who, amount);
    if s.len() == 0 {
        assert(u[0] == (who, amount));
        assert(u.drop_first() =~= s);
    } else if s[0].0 == who {
        assert(u[0] == (who, amount));
        assert(u.drop_first() =~= s.drop_first());
    } else {
        assert(u[0] == s[0]);
        assert(u.drop_first() =~= upd_bal(s.drop_first(), who, amount));
        lemma_upd_bal_other(s.drop_first(), who, amount, other);
    }
}

/// An update of `who` moves the total sum by the difference between the new
/// amount and the balance `who` held before.
pub proof fn lemma_upd_bal_sum(s: Seq<(u64, i128)>, who: u64, amount: i128)
    ensures
        sum_of(upd_bal(s, who, amount)) == sum_of(s) - bal_of(s, who) + amount,
    decreases s.len(),
{
    let u = upd_bal(s, who, amount);
    if s.len() == 0 {
        assert(u.drop_first() =~= s);
    } else if s[0].0 == who {
        assert(u[0] == (who, amount));
        assert(u.drop_first() =~= s.drop_first());
    } else {
        assert(u[0] == s[0]);
        assert(u.drop_first() =~= upd_bal(s.drop_first(), who, amount));
        lemma_upd_bal_sum(s.drop_first(), who, amount);
    }
}

/// An update lists exactly the accounts that were listed before, plus `who`.
pub proof fn lemma_upd_bal_has(s: Seq<(u64, i128)>, who: u64, amount: i128, other: u64)
    ensures
        has_acct(upd_bal(s, who, amount), other) <==> (other == who || has_acct(s, other)),
    decreases s.len(),
{
    let u = upd_bal(s, who, amount);
    if s.len() == 0 {
        assert(u[0] == (who, amount));
        assert(u.drop_first() =~= s);
    } else if s[0].0 == who {
        assert(u[0] == (who, amount));
        assert(u.drop_first() =~= s.drop_first());
    } else {
        assert(u[0] == s[0]);
        assert(u.drop_first() =~= upd_bal(s.drop_first(), who, amount));
        lemma_upd_bal_has(s.drop_first(), who, amount, other);
    }
}

/// An update keeps the keys of the table unique.
pub proof fn lemma_upd_bal_unique(s: Seq<(u64, i128)>, who: u64, amount: i128)
    requires
        accts_unique(s),
    ensures
        accts_unique(upd_bal(s, who, amount)),
    decreases s.len(),
{
    let u = upd_bal(s, who, amount);
    if s.len() == 0 {
        assert(u.drop_first() =~= s);
    } else if s[0].0 == who {
        assert(u[0] == (who, amount));
        assert(u.drop_first() =~= s.drop_first());
    } else {
        assert(u[0] == s[0]);
        assert(u.drop_first() =~= upd_bal(s.drop_first(), who, amount));
        lemma_upd_bal_unique(s.drop_first(), who, amount);
        lemma_upd_bal_has(s.drop_first(), who, amount, s[0].0);
    }
}

/// An update with an amount at least zero keeps every balance at least zero.
pub proof fn lemma_upd_bal_nonneg(s: Seq<(u64, i128)>, who: u64, amount: i128)
    requires
        nonnegative(s),
        amount >= 0,
    ensures
        nonnegative(upd_bal(s, who, amount)),
    decreases s.len(),
{
    let u = upd_bal(s, who, amount);
    if s.len() == 0 {
        assert(u[0] == (who, amount));
        assert forall|i: int| 0 <= i < u.len() implies (#[trigger] u[i]).1 >= 0 by {}
    } else if s[0].0 == who {
        assert(u[0] == (who, amount));
        assert forall|i: int| 0 <= i < u.len() implies (#[trigger] u[i]).1 >= 0 by {
            if i > 0 {
                assert(u[i] == s.drop_first()[i - 1]);
                assert(s.drop_first()[i - 1] == s[i]);
            }
        }
    } else {
        assert(forall|i: int|
            0 <= i < s.drop_first().len() ==> (#[trigger] s.drop_first()[i]) == s[i + 1]);
        lemma_upd_bal_nonneg(s.drop_first(), who, amount);
        let v = upd_bal(s.drop_first(), who, amount);
        assert(u[0] == s[0]);
        assert forall|i: int| 0 <= i < u.len() implies (#[trigger] u[i]).1 >= 0 by {
            if i > 0 {
                assert(u[i] == v[i - 1]);
            }
        }
    }
}

/// In a table of balances at least zero, each balance is at least zero and
/// at most the total sum.
pub proof fn lemma_bal_le_sum(s: Seq<(u64, i128)>, who: u64)
    requires
        nonnegative(s),
    ensures
        0 <= bal_of(s, who),
        bal_of(s, who) <= sum_of(s),
        sum_of(s) >= 0,
    decreases s.len(),
{
    if s.len() > 0 {
        assert(forall|i: int|
            0 <= i < s.drop_first().len() ==> (#[trigger] s.drop_first()[i]) == s[i + 1]);
        lemma_bal_le_sum(s.drop_first(), who);
        assert(s[0].1 >= 0);
    }
}

/// When no entry carries `who`, its recorded balance is zero.
pub proof fn lemma_bal_absent(s: Seq<(u64, i128)>, who: u64)
    requires
        !has_acct(s, who),
    ensures
        bal_of(s, who) == 0,
    decreases s.len(),
{
    if s.len() > 0 {
        lemma_bal_absent(s.drop_first(), who);
    }
}

/// When the first entry carrying `who` stands at index `i`, the recorded
/// balance is that entry's amount.
pub proof fn lemma_bal_at_index(s: Seq<(u64, i128)>, who: u64, i: int)
    requires
        0 <= i < s.len(),
        s[i].0 == who,
        forall|j: int| 0 <= j < i ==> (#[trigger] s[j]).0 != who,
    ensures
        bal_of(s, who) == s[i].1,
    decreases s.len(),
{
    if i == 0 {
    } else {
        assert(forall|j: int|
            0 <= j < s.drop_first().len() ==> (#[trigger] s.drop_first()[j]) == s[j + 1]);
        lemma_bal_at_index(s.drop_first(), who, i - 1);
    }
}

/// When the first entry carrying `who` stands at index `i`, an update of
/// `who` replaces exactly that entry.
pub proof fn lemma_upd_bal_at_index(s: Seq<(u64, i128)>, who: u64, amount: i128, i: int)
    requires
        0 <= i < s.len(),
        s[i].0 == who,
        forall|j: int| 0 <= j < i ==> (#[trigger] s[j]).0 != who,
    ensures
        upd_bal(s, who, amount) =~= s.update(i, (who, amount)),
    decreases s.len(),
{
    if i == 0 {
        assert(upd_bal(s, who, amount) =~= s.update(0, (who, amount)));
    } else {
        assert(forall|j: int|
            0 <= j < s.drop_first().len() ==> (#[trigger] s.drop_first()[j]) == s[j + 1]);
        lemma_upd_bal_at_index(s.drop_first(), who, amount, i - 1);
        assert(upd_bal(s, who, amount) =~= s.update(i, (who, amount)));
    }
}

/// When no entry carries `who`, an update of `who` appends a fresh entry.
pub proof fn lemma_upd_bal_append(s: Seq<(u64, i128)>, who: u64, amount: i128)
    requires
        !has_acct(s, who),
    ensures
        upd_bal(s, who, amount) =~= s.push((who, amount)),
    decreases s.len(),
{
    if s.len() > 0 {
        lemma_upd_bal_append(s.drop_first(), who, amount);
        assert(upd_bal(s, who, amount) =~= s.push((who, amount)));
    }
}

/// The account-balance table, an association list with unique keys.
pub struct Balances {
    entries: Vec<(u64, i128)>,
}

impl View for Balances {
    type V = Seq<(u64, i128)>;

    closed spec fn view(&self) -> Seq<(u64, i128)> {
        self.entries@
    }
}

impl Balances {
    /// An empty table: every account's balance reads as zero.
    pub fn new() -> (r: Balances)
        ensures
            r@ =~= Seq::<(u64, i128)>::empty(),
    {
        Balances { entries: Vec::new() }
    }

    /// The index of the entry carrying `who`, when one exists.
    fn index_of(&self, who: u64) -> (r: Option<usize>)
        ensures
            match r {
                Some(i) => i < self@.len() && self@[i as int].0 == who && forall|j: int|
                    0 <= j < i ==> (#[trigger] self@[j]).0 != who,
                None => !has_acct(self@, who),
            },
    {
        let n = self.entries.len();
        let mut i: usize = 0;
        while i < n
            invariant
                n == self@.len(),
                i <= n,
                forall|j: int| 0 <= j < i ==> (#[trigger] self@[j]).0 != who,
            decreases n - i,
        {
            if self.entries[i].0 == who {
                return Some(i);
            }
            i = i + 1;
        }
        proof {
            lemma_has_acct_index(self@, who);
        }
        None
    }

    /// The balance recorded for `who`, zero when `who` is not listed.
    pub fn get(&self, who: u64) -> (r: i128)
        ensures
            r == bal_of(self@, who),
    {
        match self.index_of(who) {
            Some(i) => {
                proof {
                    lemma_bal_at_index(self@, who, i as int);
                }
                self.entries[i].1
            },
            None => {
                proof {
                    lemma_bal_absent(self@, who);
                }
                0
            },
        }
    }

    /// Records `amount` as the balance of `who`.
    pub fn set(&mut self, who: u64, amount: i128)
        ensures
            final(self)@ =~= upd_bal(old(self)@, who, amount),
    {
        match self.index_of(who) {
            Some(i) => {
                proof {
                    lemma_upd_bal_at_index(old(self)@, who, amount, i as int);
                }
                self.entries[i] = (who, amount);
            },
            None => {
                proof {
                    lemma_upd_bal_append(old(self)@, who, amount);
                }
                self.entries.push((who, amount));
            },
        }
    }
}

} // verus!
