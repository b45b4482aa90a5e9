//! Raw balances per account, for one side of the market.
use vstd::prelude::*;

verus! {

/// One stored balance.
pub struct Entry {
    pub account: String,
    pub balance: u128,
}

/// A mapping from account identity to raw balance; an absent account holds 0.
pub struct Ledger {
    entries: Vec<Entry>,
}

/// The balance that `m` records for `account`, or 0 when it records none.
pub open spec fn balance_in(m: Map<Seq<char>, u128>, account: Seq<char>) -> u128 {
    if m.contains_key(account) {
        m[account]
    } else {
        0
    }
}

/// The sum of the balances in `s`.
pub open spec fn sum_balances(s: Seq<Entry>) -> int
    decreases s.len(),
{
    if s.len() == 0 {
        0
    } else {
        sum_balances(s.drop_last()) + s.last().balance
    }
}

/// Replacing one entry changes the sum by the difference of the balances.
proof fn lemma_sum_update(s: Seq<Entry>, i: int, e: Entry)
    requires
        0 <= i < s.len(),
    ensures
        sum_balances(s.update(i, e)) == sum_balances(s) - s[i].balance + e.balance,
    decreases s.len(),
{
    if i == s.len() - 1 {
        assert(s.update(i, e).drop_last() =~= s.drop_last());
    } else {
        lemma_sum_update(s.drop_last(), i, e);
        assert(s.update(i, e).drop_last() =~= s.drop_last().update(i, e));
    }
}

impl Ledger {
    /// The sum of all recorded balances.
    pub closed spec fn total(&self) -> int {
        sum_balances(self.entries@)
    }

    /// No account is recorded twice.
    pub closed spec fn wf(&self) -> bool {
        forall|i: int, j: int|
            0 <= i < j < self.entries@.len() ==> (#[trigger] self.entries@[i]).account@
                != (#[trigger] self.entries@[j]).account@
    }

    pub closed spec fn view(&self) -> Map<Seq<char>, u128> {
        Map::new(
            |k: Seq<char>| exists|i: int| 0 <= i < self.entries@.len() && #[trigger] self.entries@[i].account@ == k,
            |k: Seq<char>| self.entries@[choose|i: int| 0 <= i < self.entries@.len() && #[trigger] self.entries@[i].account@ == k].balance,
        )
    }

    pub fn new() -> (r: Ledger)
        ensures
            r.wf(),
            r@ == Map::<Seq<char>, u128>::empty(),
            r.total() == 0,
    {
        let r = Ledger { entries: Vec::new() };
        assert(r@ =~= Map::<Seq<char>, u128>::empty());
        r
    }

    /// Position of `account` among the entries, if it is recorded.
    fn find(&self, account: &String) -> (r: Option<usize>)
        requires
            self.wf(),
        ensures
            match r {
                Some(i) => i < self.entries@.len() && self.entries@[i as int].account@ == account@,
                None => !self@.contains_key(account@),
            },
    {
        let mut i: usize = 0;
        while i < self.entries.len()
            invariant
                i <= self.entries@.len(),
                forall|j: int| 0 <= j < i ==> (#[trigger] self.entries@[j]).account@ != account@,
            decreases self.entries@.len() - i,
        {
            if self.entries[i].account == *account {
                return Some(i);
            }
            i = i + 1;
        }
        None
    }

    /// The raw balance of `account`, 0 when it has none.
    pub fn get(&self, account: &String) -> (r: u128)
        requires
            self.wf(),
        ensures
            r == balance_in(self@, account@),
    {
        match self.find(account) {
            Some(i) => {
                proof {
                    let k = account@;
                    assert(self@.contains_key(k));
                    let c = choose|j: int| 0 <= j < self.entries@.len() && #[trigger] self.entries@[j].account@ == k;
                    assert(c == i as int);
                }
                self.entries[i].balance
            },
            None => 0,
        }
    }

    /// Records `balance` for `account`, replacing what was there.
    pub fn set(&mut self, account: &String, balance: u128)
        requires
            old(self).wf(),
        ensures
            final(self).wf(),
            final(self)@ == old(self)@.insert(account@, balance),
            final(self).total() == old(self).total() - balance_in(old(self)@, account@) + balance,
    {
        let ghost before = self@;
        match self.find(account) {
            Some(i) => {
                let old_account = self.entries[i].account.clone();
                proof {
                    let k = account@;
                    let c = choose|j: int| 0 <= j < self.entries@.len() && #[trigger] self.entries@[j].account@ == k;
                    assert(c == i as int);
                    lemma_sum_update(self.entries@, i as int, Entry { account: old_account, balance });
                }
                self.entries.set(i, Entry { account: old_account, balance });
                proof {
                    assert forall|k: Seq<char>| #[trigger] self@.contains_key(k) == before.insert(account@, balance).contains_key(k) by {
                        if before.contains_key(k) {
                            let c = choose|j: int| 0 <= j < old(self).entries@.len() && #[trigger] old(self).entries@[j].account@ == k;
                            assert(self.entries@[c].account@ == k);
                        }
                        if self@.contains_key(k) {
                            let c = choose|j: int| 0 <= j < self.entries@.len() && #[trigger] self.entries@[j].account@ == k;
                            assert(old(self).entries@[c].account@ == k);
                        }
                    }
                    assert(self@ =~= before.insert(account@, balance));
                }
            },
            None => {
                self.entries.push(Entry { account: account.clone(), balance });
                proof {
                    let n = old(self).entries@.len() as int;
                    assert(self.entries@[n].account@ == account@);
                    assert(self.entries@.drop_last() =~= old(self).entries@);
                    assert forall|k: Seq<char>| #[trigger] self@.contains_key(k) == before.insert(account@, balance).contains_key(k) by {
                        if before.contains_key(k) {
                            let c = choose|j: int| 0 <= j < old(self).entries@.len() && #[trigger] old(self).entries@[j].account@ == k;
                            assert(self.entries@[c].account@ == k);
                        }
                        if self@.contains_key(k) && k != account@ {
                            let c = choose|j: int| 0 <= j < self.entries@.len() && #[trigger] self.entries@[j].account@ == k;
                            assert(old(self).entries@[c].account@ == k);
                        }
                    }
                    assert(self@ =~= before.insert(account@, balance));
                }
            },
        }
    }
}

} // verus!
