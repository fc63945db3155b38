//! Bet ledgers: one per outcome, mapping each bettor to an accumulated stake.
//!
//! A ledger is kept as a vector of `(bettor, stake)` entries with pairwise
//! distinct bettors. Contracts speak of it through two spec functions:
//! [`stake_of`], the stake recorded for one bettor, and [`stake_sum`], the
//! mathematical sum of all recorded stakes.

use vstd::prelude::*;

use crate::{sat_cap, AccountOwner, Amount};

verus! {

/// Mathematical sum of the stakes recorded in a ledger sequence.
pub open spec fn stake_sum(s: Seq<(AccountOwner, Amount)>) -> int
    decreases s.len(),
{
    if s.len() == 0 {
        0
    } else {
        s[0].1 + stake_sum(s.drop_first())
    }
}

/// The stake recorded for `owner`: the first entry with that key, if any.
pub open spec fn stake_of(s: Seq<(AccountOwner, Amount)>, owner: AccountOwner) -> Option<Amount>
    decreases s.len(),
{
    if s.len() == 0 {
        None
    } else if s[0].0 == owner {
        Some(s[0].1)
    } else {
        stake_of(s.drop_first(), owner)
    }
}

/// The stake recorded for `owner`, or zero if there is none.
pub open spec fn stake_or_zero(s: Seq<(AccountOwner, Amount)>, owner: AccountOwner) -> int {
    match stake_of(s, owner) {
        Some(v) => v as int,
        None => 0,
    }
}

/// Each bettor appears in at most one entry.
pub open spec fn distinct_keys(s: Seq<(AccountOwner, Amount)>) -> bool {
    forall|i: int, j: int| 0 <= i < j < s.len() ==> s[i].0 != s[j].0
}

/// The record of every bet placed on one outcome.
pub struct Ledger {
    entries: Vec<(AccountOwner, Amount)>,
}

impl View for Ledger {
    type V = Seq<(AccountOwner, Amount)>;

    closed spec fn view(&self) -> Seq<(AccountOwner, Amount)> {
        self.entries@
    }
}

impl Ledger {
    /// Well-formed: no bettor is recorded twice.
    pub open spec fn wf(self) -> bool {
        distinct_keys(self@)
    }

    /// An empty ledger.
    pub fn new() -> (r: Ledger)
        ensures
            r@ == Seq::<(AccountOwner, Amount)>::empty(),
            r.wf(),
    {
        Ledger { entries: Vec::new() }
    }

    /// Number of bettors recorded.
    pub fn len(&self) -> (n: usize)
        ensures
            n == self@.len(),
    {
        self.entries.len()
    }

    /// The entry at position `i`, for enumerating the ledger.
    pub fn entry_at(&self, i: usize) -> (e: (AccountOwner, Amount))
        requires
            i < self@.len(),
        ensures
            e == self@[i as int],
    {
        self.entries[i]
    }

    /// The stake recorded for `owner`, if any.
    pub fn stake(&self, owner: AccountOwner) -> (r: Option<Amount>)
        ensures
            r == stake_of(self@, owner),
    {
        match self.find_index(owner) {
            Some(j) => Some(self.entries[j].1),
            None => None,
        }
    }

    /// Index of `owner`'s entry, if present; `None` means no entry matches.
    fn find_index(&self, owner: AccountOwner) -> (r: Option<usize>)
        ensures
            match r {
                Some(j) => j < self@.len() && self@[j as int].0 == owner && stake_of(self@, owner)
                    == Some(self@[j as int].1),
                None => stake_of(self@, owner) is None && forall|k: int|
                    0 <= k < self@.len() ==> self@[k].0 != owner,
            },
    {
        let n = self.entries.len();
        let mut j: usize = 0;
        while j < n
            invariant
                j <= n,
                n == self@.len(),
                forall|k: int| 0 <= k < j ==> self@[k].0 != owner,
            decreases n - j,
        {
            if self.entries[j].0 == owner {
                proof {
                    lemma_stake_of_first_match(self@, owner, j as int);
                }
                return Some(j);
            }
            j += 1;
        }
        proof {
            lemma_stake_of_no_match(self@, owner);
        }
        None
    }

    /// Add `amount` to `owner`'s stake, saturating at `Amount::MAX`; a bettor
    /// without an entry gets one holding exactly `amount`.
    pub fn credit_saturating(&mut self, owner: AccountOwner, amount: Amount)
        requires
            old(self).wf(),
        ensures
            final(self).wf(),
            stake_of(final(self)@, owner) == Some(
                sat_cap(stake_or_zero(old(self)@, owner) + amount) as Amount,
            ),
            forall|k: AccountOwner| k != owner ==> stake_of(final(self)@, k) == stake_of(
                old(self)@,
                k,
            ),
            stake_sum(final(self)@) == stake_sum(old(self)@) - stake_or_zero(old(self)@, owner)
                + sat_cap(stake_or_zero(old(self)@, owner) + amount),
    {
        let ghost pre = self@;
        match self.find_index(owner) {
            Some(j) => {
                let prior = self.entries[j].1;
                let updated = prior.saturating_add(amount);
                self.entries[j] = (owner, updated);
                proof {
                    lemma_stake_of_update_match(pre, owner, j as int, (owner, updated));
                    lemma_sum_update(pre, j as int, (owner, updated));
                }
            },
            None => {
                self.entries.push((owner, amount));
                proof {
                    lemma_stake_of_push(pre, (owner, amount));
                    lemma_sum_push(pre, (owner, amount));
                }
            },
        }
    }

    /// Remove `owner`'s entry, returning the stake it held.
    pub fn remove(&mut self, owner: AccountOwner) -> (r: Option<Amount>)
        requires
            old(self).wf(),
        ensures
            final(self).wf(),
            r == stake_of(old(self)@, owner),
            stake_of(final(self)@, owner) is None,
            forall|k: AccountOwner| k != owner ==> stake_of(final(self)@, k) == stake_of(
                old(self)@,
                k,
            ),
            stake_sum(final(self)@) == stake_sum(old(self)@) - stake_or_zero(old(self)@, owner),
            final(self)@.len() == old(self)@.len() - (if stake_of(old(self)@, owner) is Some {
                1int
            } else {
                0int
            }),
    {
        let ghost pre = self@;
        match self.find_index(owner) {
            Some(j) => {
                let e = self.entries.remove(j);
                proof {
                    lemma_stake_of_remove(pre, owner, j as int);
                    lemma_sum_remove(pre, j as int);
                }
                Some(e.1)
            },
            None => None,
        }
    }

    /// Drop every entry.
    pub fn clear(&mut self)
        ensures
            final(self)@ == Seq::<(AccountOwner, Amount)>::empty(),
            final(self).wf(),
    {
        self.entries.clear();
    }
}

/// One unfolding step of [`stake_sum`] on a non-empty sequence.
proof fn lemma_sum_step(s: Seq<(AccountOwner, Amount)>)
    requires
        s.len() > 0,
    ensures
        stake_sum(s) == s[0].1 + stake_sum(s.drop_first()),
{
}

/// One unfolding step of [`stake_of`] at a head entry for the key itself.
proof fn lemma_stake_of_head(s: Seq<(AccountOwner, Amount)>, k: AccountOwner)
    requires
        s.len() > 0,
        s[0].0 == k,
    ensures
        stake_of(s, k) == Some(s[0].1),
{
}

/// One unfolding step of [`stake_of`] past a head entry for another key.
proof fn lemma_stake_of_step(s: Seq<(AccountOwner, Amount)>, k: AccountOwner)
    requires
        s.len() > 0,
        s[0].0 != k,
    ensures
        stake_of(s, k) == stake_of(s.drop_first(), k),
{
}

/// If the entries before `j` miss `owner` and entry `j` carries it, the
/// recorded stake is entry `j`'s.
proof fn lemma_stake_of_first_match(s: Seq<(AccountOwner, Amount)>, owner: AccountOwner, j: int)
    requires
        0 <= j < s.len(),
        s[j].0 == owner,
        forall|k: int| 0 <= k < j ==> s[k].0 != owner,
    ensures
        stake_of(s, owner) == Some(s[j].1),
    decreases j,
{
    if j > 0 {
        lemma_stake_of_first_match(s.drop_first(), owner, j - 1);
    }
}

/// A ledger without an entry for `owner` records no stake for `owner`.
proof fn lemma_stake_of_no_match(s: Seq<(AccountOwner, Amount)>, owner: AccountOwner)
    requires
        forall|k: int| 0 <= k < s.len() ==> s[k].0 != owner,
    ensures
        stake_of(s, owner) is None,
    decreases s.len(),
{
    if s.len() > 0 {
        lemma_stake_of_no_match(s.drop_first(), owner);
    }
}

/// Replacing entry `j` changes the sum by the difference of the stakes.
proof fn lemma_sum_update(s: Seq<(AccountOwner, Amount)>, j: int, e: (AccountOwner, Amount))
    requires
        0 <= j < s.len(),
    ensures
        stake_sum(s.update(j, e)) == stake_sum(s) - s[j].1 + e.1,
    decreases j,
{
    if j == 0 {
        assert(s.update(0, e).drop_first() =~= s.drop_first());
    } else {
        assert(s.update(j, e).drop_first() =~= s.drop_first().update(j - 1, e));
        lemma_sum_update(s.drop_first(), j - 1, e);
    }
}

/// Replacing entry `j` by one that keeps its key leaves every other key's
/// stake as it was, and records the new stake for that key.
proof fn lemma_stake_of_update_match(
    s: Seq<(AccountOwner, Amount)>,
    owner: AccountOwner,
    j: int,
    e: (AccountOwner, Amount),
)
    requires
        0 <= j < s.len(),
        s[j].0 == owner,
        e.0 == owner,
        forall|k: int| 0 <= k < j ==> s[k].0 != owner,
    ensures
        stake_of(s.update(j, e), owner) == Some(e.1),
        forall|k: AccountOwner|
            k != owner ==> stake_of(s.update(j, e), k) == stake_of(s, k),
        distinct_keys(s) ==> distinct_keys(s.update(j, e)),
    decreases j,
{
    if j == 0 {
        assert(s.update(0, e).drop_first() =~= s.drop_first());
        lemma_stake_of_head(s.update(0, e), owner);
        assert forall|k: AccountOwner| k != owner implies stake_of(s.update(0, e), k) == stake_of(
            s,
            k,
        ) by {
            lemma_stake_of_step(s.update(0, e), k);
            lemma_stake_of_step(s, k);
        }
    } else {
        assert(s.update(j, e)[0] == s[0]);
        assert(s.update(j, e).drop_first() =~= s.drop_first().update(j - 1, e));
        lemma_stake_of_update_match(s.drop_first(), owner, j - 1, e);
        lemma_stake_of_step(s.update(j, e), owner);
        lemma_stake_of_step(s, owner);
        assert forall|k: AccountOwner| k != owner implies stake_of(s.update(j, e), k) == stake_of(
            s,
            k,
        ) by {
            if s[0].0 == k {
                lemma_stake_of_head(s.update(j, e), k);
                lemma_stake_of_head(s, k);
            } else {
                lemma_stake_of_step(s.update(j, e), k);
                lemma_stake_of_step(s, k);
            }
        }
    }
}

/// Appending an entry adds its stake to the sum.
proof fn lemma_sum_push(s: Seq<(AccountOwner, Amount)>, e: (AccountOwner, Amount))
    ensures
        stake_sum(s.push(e)) == stake_sum(s) + e.1,
    decreases s.len(),
{
    lemma_sum_step(s.push(e));
    if s.len() == 0 {
        assert(s.push(e)[0] == e);
        assert(s.push(e).drop_first() =~= s);
    } else {
        assert(s.push(e)[0] == s[0]);
        assert(s.push(e).drop_first() =~= s.drop_first().push(e));
        lemma_sum_push(s.drop_first(), e);
        lemma_sum_step(s);
    }
}

/// Appending an entry for a fresh key records its stake and leaves every
/// other key's stake as it was.
proof fn lemma_stake_of_push(s: Seq<(AccountOwner, Amount)>, e: (AccountOwner, Amount))
    requires
        forall|k: int| 0 <= k < s.len() ==> s[k].0 != e.0,
    ensures
        stake_of(s.push(e), e.0) == Some(e.1),
        forall|k: AccountOwner| k != e.0 ==> stake_of(s.push(e), k) == stake_of(s, k),
        distinct_keys(s) ==> distinct_keys(s.push(e)),
    decreases s.len(),
{
    if s.len() == 0 {
        assert(s.push(e)[0] == e);
        assert(s.push(e).drop_first() =~= Seq::<(AccountOwner, Amount)>::empty());
        lemma_stake_of_head(s.push(e), e.0);
        assert forall|k: AccountOwner| k != e.0 implies stake_of(s.push(e), k) == stake_of(
            s,
            k,
        ) by {
            lemma_stake_of_step(s.push(e), k);
        }
    } else {
        assert(s.push(e)[0] == s[0]);
        assert(s.push(e).drop_first() =~= s.drop_first().push(e));
        lemma_stake_of_push(s.drop_first(), e);
        lemma_stake_of_step(s.push(e), e.0);
        lemma_stake_of_step(s, e.0);
        assert forall|k: AccountOwner| k != e.0 implies stake_of(s.push(e), k) == stake_of(
            s,
            k,
        ) by {
            if s[0].0 == k {
                lemma_stake_of_head(s.push(e), k);
                lemma_stake_of_head(s, k);
            } else {
                lemma_stake_of_step(s.push(e), k);
                lemma_stake_of_step(s, k);
            }
        }
    }
    if distinct_keys(s) {
        assert forall|i: int, j: int| 0 <= i < j < s.push(e).len() implies s.push(e)[i].0 != s.push(
            e,
        )[j].0 by {
            if j < s.len() {
                assert(s[i].0 != s[j].0);
            } else {
                assert(s[i].0 != e.0);
            }
        }
    }
}

/// Removing entry `j` subtracts its stake from the sum.
proof fn lemma_sum_remove(s: Seq<(AccountOwner, Amount)>, j: int)
    requires
        0 <= j < s.len(),
    ensures
        stake_sum(s.remove(j)) == stake_sum(s) - s[j].1,
    decreases j,
{
    if j == 0 {
        assert(s.remove(0) =~= s.drop_first());
    } else {
        assert(s.remove(j).drop_first() =~= s.drop_first().remove(j - 1));
        lemma_sum_remove(s.drop_first(), j - 1);
    }
}

/// Removing the only entry for `owner` erases `owner`'s stake and leaves
/// every other key's stake as it was.
proof fn lemma_stake_of_remove(s: Seq<(AccountOwner, Amount)>, owner: AccountOwner, j: int)
    requires
        0 <= j < s.len(),
        s[j].0 == owner,
        forall|k: int| 0 <= k < j ==> s[k].0 != owner,
        distinct_keys(s),
    ensures
        stake_of(s.remove(j), owner) is None,
        forall|k: AccountOwner| k != owner ==> stake_of(s.remove(j), k) == stake_of(s, k),
        distinct_keys(s.remove(j)),
    decreases j,
{
    assert forall|a: int, b: int| 0 <= a < b < s.remove(j).len() implies s.remove(j)[a].0
        != s.remove(j)[b].0 by {
        let a0: int = if a < j {
            a
        } else {
            a + 1
        };
        let b0: int = if b < j {
            b
        } else {
            b + 1
        };
        assert(s[a0].0 != s[b0].0);
    }
    if j == 0 {
        assert(s.remove(0) =~= s.drop_first());
        assert forall|k: int| 0 <= k < s.drop_first().len() implies s.drop_first()[k].0
            != owner by {
            assert(s[k + 1].0 != s[0].0);
        }
        lemma_stake_of_no_match(s.drop_first(), owner);
        assert forall|k: AccountOwner| k != owner implies stake_of(s.remove(0), k) == stake_of(
            s,
            k,
        ) by {
            lemma_stake_of_step(s, k);
        }
    } else {
        assert(s.remove(j)[0] == s[0]);
        assert(s.remove(j).drop_first() =~= s.drop_first().remove(j - 1));
        lemma_stake_of_remove(s.drop_first(), owner, j - 1);
        lemma_stake_of_step(s.remove(j), owner);
        lemma_stake_of_step(s, owner);
        assert forall|k: AccountOwner| k != owner implies stake_of(s.remove(j), k) == stake_of(
            s,
            k,
        ) by {
            if s[0].0 == k {
                lemma_stake_of_head(s.remove(j), k);
                lemma_stake_of_head(s, k);
            } else {
                lemma_stake_of_step(s.remove(j), k);
                lemma_stake_of_step(s, k);
            }
        }
    }
}

/// A sum of stakes is never negative.
pub proof fn lemma_sum_nonneg(s: Seq<(AccountOwner, Amount)>)
    ensures
        stake_sum(s) >= 0,
    decreases s.len(),
{
    if s.len() > 0 {
        lemma_sum_nonneg(s.drop_first());
    }
}

/// Every recorded stake is part of the sum; in particular the sum is at
/// least any single stake, and never negative.
pub proof fn lemma_stake_le_sum(s: Seq<(AccountOwner, Amount)>, owner: AccountOwner)
    ensures
        stake_sum(s) >= 0,
        stake_or_zero(s, owner) <= stake_sum(s),
    decreases s.len(),
{
    if s.len() > 0 {
        lemma_stake_le_sum(s.drop_first(), owner);
    }
}

/// A recorded stake comes from some entry: whoever is recorded with stake `v`
/// stands in the ledger as the entry `(owner, v)`.
pub proof fn lemma_stake_has_entry(
    s: Seq<(AccountOwner, Amount)>,
    owner: AccountOwner,
    v: Amount,
)
    requires
        stake_of(s, owner) == Some(v),
    ensures
        exists|i: int| 0 <= i < s.len() && s[i] == (owner, v),
    decreases s.len(),
{
    if s.len() > 0 {
        if s[0].0 == owner {
            assert(s[0] == (owner, v));
        } else {
            lemma_stake_has_entry(s.drop_first(), owner, v);
            let i = choose|i: int| 0 <= i < s.drop_first().len() && s.drop_first()[i] == (owner, v);
            assert(s[i + 1] == (owner, v));
        }
    }
}

} // verus!
