use vstd::prelude::*;

verus! {

/// The local balance ledger: every registered account's derivative balance,
/// with the total supply kept in step.
///
/// This models the per-account bookkeeping the deployed system keeps in the
/// host's durable storage.  An account is registered exactly when it has an
/// entry; keys are unique.
pub struct Ledger {
    /// Registered accounts, each paired with its balance.
    pub accounts: Vec<(u64, u128)>,
    /// The sum of all balances.
    pub total: u128,
}

/// The sum of the balances in a sequence of ledger entries.
pub open spec fn entries_sum(entries: Seq<(u64, u128)>) -> int
    decreases entries.len(),
{
    if entries.len() == 0 {
        0
    } else {
        entries_sum(entries.drop_last()) + entries.last().1
    }
}

/// Balances are unsigned, so the sum is nonnegative.
pub proof fn lemma_entries_sum_nonneg(entries: Seq<(u64, u128)>)
    ensures
        entries_sum(entries) >= 0,
    decreases entries.len(),
{
    if entries.len() > 0 {
        lemma_entries_sum_nonneg(entries.drop_last());
    }
}

/// Appending an entry adds exactly its balance to the sum.
pub proof fn lemma_entries_sum_push(entries: Seq<(u64, u128)>, e: (u64, u128))
    ensures
        entries_sum(entries.push(e)) == entries_sum(entries) + e.1,
{
    assert(entries.push(e).drop_last() =~= entries);
}

/// Replacing one entry changes the sum by the difference of the balances.
pub proof fn lemma_entries_sum_update(entries: Seq<(u64, u128)>, i: int, e: (u64, u128))
    requires
        0 <= i < entries.len(),
    ensures
        entries_sum(entries.update(i, e)) == entries_sum(entries) - entries[i].1 + e.1,
    decreases entries.len(),
{
    if i == entries.len() - 1 {
        assert(entries.update(i, e).drop_last() =~= entries.drop_last());
    } else {
        assert(entries.update(i, e).drop_last() =~= entries.drop_last().update(i, e));
        assert(entries.update(i, e).last() == entries.last());
        lemma_entries_sum_update(entries.drop_last(), i, e);
    }
}

/// Removing one entry subtracts exactly its balance from the sum.
pub proof fn lemma_entries_sum_remove(entries: Seq<(u64, u128)>, i: int)
    requires
        0 <= i < entries.len(),
    ensures
        entries_sum(entries.remove(i)) == entries_sum(entries) - entries[i].1,
    decreases entries.len(),
{
    if i == entries.len() - 1 {
        assert(entries.remove(i) =~= entries.drop_last());
    } else {
        assert(entries.remove(i).drop_last() =~= entries.drop_last().remove(i));
        assert(entries.remove(i).last() == entries.last());
        lemma_entries_sum_remove(entries.drop_last(), i);
    }
}

/// No single balance exceeds the sum of all of them.
pub proof fn lemma_entry_le_sum(entries: Seq<(u64, u128)>, i: int)
    requires
        0 <= i < entries.len(),
    ensures
        entries[i].1 <= entries_sum(entries),
    decreases entries.len(),
{
    if i == entries.len() - 1 {
        lemma_entries_sum_nonneg(entries.drop_last());
    } else {
        lemma_entry_le_sum(entries.drop_last(), i);
    }
}

impl Ledger {
    /// Every account has at most one entry.
    pub open spec fn keys_unique(self) -> bool {
        forall|i: int, j: int|
            0 <= i < j < self.accounts@.len() ==> (#[trigger] self.accounts@[i]).0 != (
            #[trigger] self.accounts@[j]).0
    }

    /// Keys are unique and the recorded total supply is the sum of the
    /// balances (so the sum always fits in the total's width).
    pub open spec fn wf(self) -> bool {
        &&& self.keys_unique()
        &&& self.total as int == entries_sum(self.accounts@)
    }

    /// Whether the account is registered.
    pub open spec fn contains_account(self, account_id: u64) -> bool {
        exists|i: int|
            0 <= i < self.accounts@.len() && (#[trigger] self.accounts@[i]).0 == account_id
    }

    /// The index of the account's entry (meaningful only when registered).
    pub open spec fn index_of(self, account_id: u64) -> int {
        choose|i: int|
            0 <= i < self.accounts@.len() && (#[trigger] self.accounts@[i]).0 == account_id
    }

    /// The account's balance; an unregistered account holds nothing.
    pub open spec fn balance_of(self, account_id: u64) -> u128 {
        if self.contains_account(account_id) {
            self.accounts@[self.index_of(account_id)].1
        } else {
            0
        }
    }

    /// The sum of all local balances.
    pub open spec fn sum(self) -> int {
        entries_sum(self.accounts@)
    }

    /// The entry at a valid index is the one `balance_of` speaks of.
    pub proof fn lemma_balance_at(self, i: int)
        requires
            self.keys_unique(),
            0 <= i < self.accounts@.len(),
        ensures
            self.contains_account(self.accounts@[i].0),
            self.index_of(self.accounts@[i].0) == i,
            self.balance_of(self.accounts@[i].0) == self.accounts@[i].1,
    {
        assert(self.contains_account(self.accounts@[i].0));
        let j = self.index_of(self.accounts@[i].0);
        assert(0 <= j < self.accounts@.len() && self.accounts@[j].0 == self.accounts@[i].0);
        if i != j {
            assert(false);
        }
    }

    /// An empty ledger: nothing registered, nothing held.
    pub fn new() -> (r: Ledger)
        ensures
            r.wf(),
            r.accounts@.len() == 0,
            r.sum() == 0,
            forall|a: u64| !r.contains_account(a),
            forall|a: u64| r.balance_of(a) == 0,
    {
        Ledger { accounts: Vec::new(), total: 0 }
    }

    /// The index of the account's entry, if it has one.
    fn find(&self, account_id: u64) -> (r: Option<usize>)
        ensures
            match r {
                Some(i) => i < self.accounts@.len() && self.accounts@[i as int].0 == account_id,
                None => !self.contains_account(account_id),
            },
    {
        let mut i: usize = 0;
        while i < self.accounts.len()
            invariant
                i <= self.accounts@.len(),
                forall|j: int| 0 <= j < i ==> (#[trigger] self.accounts@[j]).0 != account_id,
            decreases self.accounts@.len() - i,
        {
            if self.accounts[i].0 == account_id {
                return Some(i);
            }
            i = i + 1;
        }
        None
    }

    /// Whether the account is registered.
    pub fn is_registered(&self, account_id: u64) -> (r: bool)
        ensures
            r == self.contains_account(account_id),
    {
        self.find(account_id).is_some()
    }

    /// The account's balance; zero when unregistered.
    pub fn get_balance(&self, account_id: u64) -> (r: u128)
        requires
            self.wf(),
        ensures
            r == self.balance_of(account_id),
    {
        match self.find(account_id) {
            Some(i) => {
                proof {
                    self.lemma_balance_at(i as int);
                }
                self.accounts[i].1
            },
            None => 0,
        }
    }

    /// The recorded total supply, equal to the sum of all balances.
    pub fn total_supply(&self) -> (r: u128)
        requires
            self.wf(),
        ensures
            r as int == self.sum(),
    {
        self.total
    }

    /// Registers the account with a zero balance; a second registration
    /// changes nothing.
    pub fn register(&mut self, account_id: u64)
        requires
            old(self).wf(),
        ensures
            final(self).wf(),
            final(self).contains_account(account_id),
            forall|a: u64|
                a != account_id ==> final(self).contains_account(a) == old(self).contains_account(
                    a,
                ),
            forall|a: u64| final(self).balance_of(a) == old(self).balance_of(a),
            final(self).sum() == old(self).sum(),
            final(self).total == old(self).total,
    {
        match self.find(account_id) {
            Some(_) => {},
            None => {
                self.accounts.push((account_id, 0));
                proof {
                    let pre = *old(self);
                    let post = *self;
                    lemma_entries_sum_push(pre.accounts@, (account_id, 0));
                    assert(post.keys_unique()) by {
                        assert forall|i: int, j: int|
                            0 <= i < j < post.accounts@.len() implies (
                        #[trigger] post.accounts@[i]).0 != (#[trigger] post.accounts@[j]).0 by {
                            if j < pre.accounts@.len() {
                                assert(pre.accounts@[i].0 != pre.accounts@[j].0);
                            } else {
                                assert(post.accounts@[j].0 == account_id);
                                assert(pre.accounts@[i].0 != account_id);
                            }
                        }
                    }
                    assert(post.contains_account(account_id)) by {
                        post.lemma_balance_at(pre.accounts@.len() as int);
                    }
                    assert forall|a: u64|
                        a != account_id implies post.contains_account(a) == pre.contains_account(
                        a,
                    ) by {
                        if pre.contains_account(a) {
                            let i = pre.index_of(a);
                            assert(post.accounts@[i].0 == a);
                        }
                        if post.contains_account(a) {
                            let i = post.index_of(a);
                            assert(0 <= i < post.accounts@.len() && post.accounts@[i].0 == a);
                            assert(i < pre.accounts@.len());
                            assert(pre.accounts@[i].0 == a);
                        }
                    }
                    assert forall|a: u64| post.balance_of(a) == pre.balance_of(a) by {
                        if a == account_id {
                            post.lemma_balance_at(pre.accounts@.len() as int);
                        } else if pre.contains_account(a) {
                            let i = pre.index_of(a);
                            pre.lemma_balance_at(i);
                            post.lemma_balance_at(i);
                        }
                    }
                }
            },
        }
    }

    /// Credits the account.  The caller must know the new sum still fits.
    pub fn deposit(&mut self, account_id: u64, amount: u128)
        requires
            old(self).wf(),
            old(self).contains_account(account_id),
            old(self).sum() + amount <= u128::MAX,
        ensures
            final(self).wf(),
            final(self).balance_of(account_id) == old(self).balance_of(account_id) + amount,
            forall|a: u64|
                a != account_id ==> final(self).balance_of(a) == old(self).balance_of(a),
            forall|a: u64| final(self).contains_account(a) == old(self).contains_account(a),
            final(self).sum() == old(self).sum() + amount,
            final(self).total == old(self).total + amount,
    {
        let i = match self.find(account_id) {
            Some(i) => i,
            None => {
                proof {
                    assert(false);
                }
                0
            },
        };
        proof {
            self.lemma_balance_at(i as int);
            lemma_entry_le_sum(self.accounts@, i as int);
        }
        let b = self.accounts[i].1;
        self.accounts[i] = (account_id, b + amount);
        self.total = self.total + amount;
        proof {
            let pre = *old(self);
            let post = *self;
            lemma_entries_sum_update(pre.accounts@, i as int, (account_id, (b + amount) as u128));
            self.lemma_same_keys_effects(pre, i as int, account_id);
            post.lemma_balance_at(i as int);
        }
    }

    /// Debits the account; the balance must cover the amount.
    pub fn withdraw(&mut self, account_id: u64, amount: u128)
        requires
            old(self).wf(),
            old(self).contains_account(account_id),
            amount <= old(self).balance_of(account_id),
        ensures
            final(self).wf(),
            final(self).balance_of(account_id) == old(self).balance_of(account_id) - amount,
            forall|a: u64|
                a != account_id ==> final(self).balance_of(a) == old(self).balance_of(a),
            forall|a: u64| final(self).contains_account(a) == old(self).contains_account(a),
            final(self).sum() == old(self).sum() - amount,
            final(self).total == old(self).total - amount,
    {
        let i = match self.find(account_id) {
            Some(i) => i,
            None => {
                proof {
                    assert(false);
                }
                0
            },
        };
        proof {
            self.lemma_balance_at(i as int);
            lemma_entry_le_sum(self.accounts@, i as int);
        }
        let b = self.accounts[i].1;
        self.accounts[i] = (account_id, b - amount);
        self.total = self.total - amount;
        proof {
            let pre = *old(self);
            let post = *self;
            lemma_entries_sum_update(pre.accounts@, i as int, (account_id, (b - amount) as u128));
            self.lemma_same_keys_effects(pre, i as int, account_id);
            post.lemma_balance_at(i as int);
        }
    }

    /// After an update at `pre`'s entry `i` that kept the key, registration
    /// is untouched and every other balance is too.
    proof fn lemma_same_keys_effects(self, pre: Ledger, i: int, account_id: u64)
        requires
            pre.wf(),
            0 <= i < pre.accounts@.len(),
            pre.accounts@[i].0 == account_id,
            self.accounts@ == pre.accounts@.update(i, (account_id, self.accounts@[i].1)),
        ensures
            self.keys_unique(),
            forall|a: u64| self.contains_account(a) == pre.contains_account(a),
            forall|a: u64| a != account_id ==> self.balance_of(a) == pre.balance_of(a),
    {
        assert(self.accounts@.len() == pre.accounts@.len());
        assert forall|k: int| 0 <= k < self.accounts@.len() implies (
        #[trigger] self.accounts@[k]).0 == pre.accounts@[k].0 by {}
        assert(self.keys_unique());
        assert forall|a: u64| self.contains_account(a) == pre.contains_account(a) by {
            if pre.contains_account(a) {
                let k = pre.index_of(a);
                assert(self.accounts@[k].0 == a);
            }
            if self.contains_account(a) {
                let k = self.index_of(a);
                assert(0 <= k < self.accounts@.len() && self.accounts@[k].0 == a);
                assert(pre.accounts@[k].0 == a);
            }
        }
        assert forall|a: u64| a != account_id implies self.balance_of(a) == pre.balance_of(a) by {
            if pre.contains_account(a) {
                let k = pre.index_of(a);
                pre.lemma_balance_at(k);
                assert(k != i);
                self.lemma_balance_at(k);
            }
        }
    }

    /// Removes the account's entry and releases whatever it held from the
    /// total supply.
    pub fn remove_account(&mut self, account_id: u64)
        requires
            old(self).wf(),
            old(self).contains_account(account_id),
        ensures
            final(self).wf(),
            !final(self).contains_account(account_id),
            final(self).balance_of(account_id) == 0,
            forall|a: u64|
                a != account_id ==> final(self).contains_account(a) == old(self).contains_account(
                    a,
                ),
            forall|a: u64| a != account_id ==> final(self).balance_of(a) == old(self).balance_of(a),
            final(self).sum() == old(self).sum() - old(self).balance_of(account_id),
            final(self).total == old(self).total - old(self).balance_of(account_id),
    {
        let i = match self.find(account_id) {
            Some(i) => i,
            None => {
                proof {
                    assert(false);
                }
                0
            },
        };
        proof {
            self.lemma_balance_at(i as int);
            lemma_entry_le_sum(self.accounts@, i as int);
        }
        let b = self.accounts[i].1;
        self.accounts.remove(i);
        self.total = self.total - b;
        proof {
            let pre = *old(self);
            let post = *self;
            lemma_entries_sum_remove(pre.accounts@, i as int);
            assert forall|k: int| 0 <= k < post.accounts@.len() implies #[trigger] post.accounts@[k]
                == (if k < i {
                pre.accounts@[k]
            } else {
                pre.accounts@[k + 1]
            }) by {}
            assert(post.keys_unique()) by {
                assert forall|x: int, y: int|
                    0 <= x < y < post.accounts@.len() implies (#[trigger] post.accounts@[x]).0 != (
                #[trigger] post.accounts@[y]).0 by {
                    let ox: int = if x < i {
                        x
                    } else {
                        x + 1
                    };
                    let oy: int = if y < i {
                        y
                    } else {
                        y + 1
                    };
                    assert(pre.accounts@[ox].0 != pre.accounts@[oy].0);
                }
            }
            assert(!post.contains_account(account_id)) by {
                if post.contains_account(account_id) {
                    let k = post.index_of(account_id);
                    assert(0 <= k < post.accounts@.len() && post.accounts@[k].0 == account_id);
                    if k < i {
                        assert(pre.accounts@[k].0 == account_id);
                        assert(pre.accounts@[i as int].0 == account_id);
                        assert(false);
                    } else {
                        assert(pre.accounts@[k + 1].0 == account_id);
                        assert(false);
                    }
                }
            }
            assert forall|a: u64|
                a != account_id implies post.contains_account(a) == pre.contains_account(a) by {
                if pre.contains_account(a) {
                    let k = pre.index_of(a);
                    assert(0 <= k < pre.accounts@.len() && pre.accounts@[k].0 == a);
                    assert(k != i);
                    if k < i {
                        assert(post.accounts@[k].0 == a);
                    } else {
                        assert(post.accounts@[k - 1].0 == a);
                    }
                }
                if post.contains_account(a) {
                    let k = post.index_of(a);
                    if k < i {
                        assert(pre.accounts@[k].0 == a);
                    } else {
                        assert(pre.accounts@[k + 1].0 == a);
                    }
                }
            }
            assert forall|a: u64|
                a != account_id implies post.balance_of(a) == pre.balance_of(a) by {
                if pre.contains_account(a) {
                    let k = pre.index_of(a);
                    pre.lemma_balance_at(k);
                    assert(k != i);
                    if k < i {
                        post.lemma_balance_at(k);
                    } else {
                        post.lemma_balance_at(k - 1);
                    }
                }
            }
        }
    }
}

} // verus!
