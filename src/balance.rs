use vstd::prelude::*;
use crate::storage_types::{Principal, TokenError};

verus! {

/// One stored balance record.
#[derive(Clone, Copy, PartialEq, Eq, Structural, Debug)]
pub struct BalanceEntry {
    pub who: Principal,
    pub amount: i128,
}

/// The balance of `p` in a list of records; an account without a record
/// holds 0.
pub open spec fn balance_in(s: Seq<BalanceEntry>, p: Principal) -> int
    decreases s.len(),
{
    if s.len() == 0 {
        0
    } else if s.last().who == p {
        s.last().amount as int
    } else {
        balance_in(s.drop_last(), p)
    }
}

/// The sum of all recorded balances.
pub open spec fn sum_of(s: Seq<BalanceEntry>) -> int
    decreases s.len(),
{
    if s.len() == 0 {
        0
    } else {
        sum_of(s.drop_last()) + s.last().amount
    }
}

/// No account has two records, and no record is negative.
pub open spec fn balances_wf(s: Seq<BalanceEntry>) -> bool {
    &&& forall|i: int, j: int| 0 <= i < j < s.len() ==> s[i].who != s[j].who
    &&& forall|i: int| 0 <= i < s.len() ==> s[i].amount >= 0
}

/// A record found at index `i` is the account's balance.
pub proof fn lemma_balance_at(s: Seq<BalanceEntry>, i: int)
    requires
        balances_wf(s),
        0 <= i < s.len(),
    ensures
        balance_in(s, s[i].who) == s[i].amount,
    decreases s.len(),
{
    if i < s.len() - 1 {
        assert(s.last() == s[s.len() - 1]);
        lemma_balance_at(s.drop_last(), i);
    }
}

/// An account without a record holds 0.
pub proof fn lemma_balance_absent(s: Seq<BalanceEntry>, p: Principal)
    requires
        forall|i: int| 0 <= i < s.len() ==> s[i].who != p,
    ensures
        balance_in(s, p) == 0,
    decreases s.len(),
{
    if s.len() > 0 {
        lemma_balance_absent(s.drop_last(), p);
    }
}

/// Appending a record for a new account.
pub proof fn lemma_balance_push(s: Seq<BalanceEntry>, e: BalanceEntry)
    requires
        balances_wf(s),
        e.amount >= 0,
        forall|i: int| 0 <= i < s.len() ==> s[i].who != e.who,
    ensures
        balances_wf(s.push(e)),
        sum_of(s.push(e)) == sum_of(s) + e.amount,
        forall|q: Principal| balance_in(s.push(e), q) == if q == e.who {
            e.amount as int
        } else {
            balance_in(s, q)
        },
{
    let t = s.push(e);
    assert(t.drop_last() =~= s);
    assert forall|q: Principal| balance_in(t, q) == if q == e.who {
        e.amount as int
    } else {
        balance_in(s, q)
    } by {
        if q == e.who {
            lemma_balance_absent(s, q);
        }
    }
}

/// Replacing the amount of an existing record.
pub proof fn lemma_balance_update(s: Seq<BalanceEntry>, i: int, e: BalanceEntry)
    requires
        balances_wf(s),
        0 <= i < s.len(),
        e.who == s[i].who,
        e.amount >= 0,
    ensures
        balances_wf(s.update(i, e)),
        sum_of(s.update(i, e)) == sum_of(s) - s[i].amount + e.amount,
        forall|q: Principal| balance_in(s.update(i, e), q) == if q == e.who {
            e.amount as int
        } else {
            balance_in(s, q)
        },
    decreases s.len(),
{
    let t = s.update(i, e);
    assert(balances_wf(t)) by {
        assert forall|a: int, b: int| 0 <= a < b < t.len() implies t[a].who != t[b].who by {
            assert(t[a].who == s[a].who && t[b].who == s[b].who);
        }
    }
    if i == s.len() - 1 {
        assert(t.drop_last() =~= s.drop_last());
        assert forall|q: Principal| balance_in(t, q) == if q == e.who {
            e.amount as int
        } else {
            balance_in(s, q)
        } by {
            assert(s.last() == s[i]);
            assert(t.last() == e);
        }
    } else {
        assert(t.drop_last() =~= s.drop_last().update(i, e));
        assert(t.last() == s.last());
        lemma_balance_update(s.drop_last(), i, e);
        assert forall|q: Principal| balance_in(t, q) == if q == e.who {
            e.amount as int
        } else {
            balance_in(s, q)
        } by {
            assert(s.last() == s[s.len() - 1]);
            assert(s.last().who != s[i].who);
            assert(s.drop_last()[i] == s[i]);
            if q != t.last().who {
                assert(balance_in(t, q) == balance_in(t.drop_last(), q));
                assert(balance_in(s, q) == balance_in(s.drop_last(), q));
            }
        }
    }
}

/// The sum of the records is not negative, and bounds every balance.
pub proof fn lemma_balance_le_sum(s: Seq<BalanceEntry>, p: Principal)
    requires
        balances_wf(s),
    ensures
        0 <= balance_in(s, p) <= sum_of(s),
    decreases s.len(),
{
    if s.len() > 0 {
        assert(s.last() == s[s.len() - 1]);
        lemma_balance_le_sum(s.drop_last(), p);
    }
}

/// A prefix of non-negative records sums to no more than the whole.
pub proof fn lemma_sum_prefix_le(s: Seq<BalanceEntry>, k: int)
    requires
        balances_wf(s),
        0 <= k <= s.len(),
    ensures
        sum_of(s.take(k)) <= sum_of(s),
    decreases s.len(),
{
    if k < s.len() {
        assert(s.last() == s[s.len() - 1]);
        assert(s.drop_last().take(k) =~= s.take(k));
        lemma_sum_prefix_le(s.drop_last(), k);
    } else {
        assert(s.take(k) =~= s);
    }
}

/// The balance ledger: one record per account that ever held funds.
pub struct BalanceLedger {
    entries: Vec<BalanceEntry>,
}

impl View for BalanceLedger {
    type V = Seq<BalanceEntry>;

    closed spec fn view(&self) -> Seq<BalanceEntry> {
        self.entries@
    }
}

impl BalanceLedger {
    /// A copy of the stored records.
    pub fn records(&self) -> (r: Vec<BalanceEntry>)
        ensures
            r@ == self@,
    {
        let mut out: Vec<BalanceEntry> = Vec::new();
        let mut i: usize = 0;
        while i < self.entries.len()
            invariant
                i <= self@.len(),
                self@ == self.entries@,
                out@ == self@.take(i as int),
            decreases self@.len() - i,
        {
            out.push(self.entries[i]);
            i = i + 1;
            proof {
                assert(out@ =~= self@.take(i as int));
            }
        }
        proof {
            assert(self@.take(self@.len() as int) =~= self@);
        }
        out
    }

    /// A ledger holding `entries`, where no account has two records and
    /// none is negative; `None` otherwise.
    pub fn from_records(entries: Vec<BalanceEntry>) -> (r: Option<BalanceLedger>)
        ensures
            r is Some <==> balances_wf(entries@),
            r matches Some(l) ==> l@ == entries@,
    {
        let n = entries.len();
        let mut i: usize = 0;
        while i < n
            invariant
                n == entries@.len(),
                i <= n,
                forall|a: int, b: int| 0 <= a < b < n && a < i ==> entries@[a].who != entries@[b].who,
                forall|a: int| 0 <= a < i ==> entries@[a].amount >= 0,
            decreases n - i,
        {
            if entries[i].amount < 0 {
                return None;
            }
            let mut j: usize = i + 1;
            while j < n
                invariant
                    n == entries@.len(),
                    i < n,
                    i < j <= n,
                    forall|b: int| i < b < j ==> entries@[i as int].who != entries@[b].who,
                decreases n - j,
            {
                if entries[i].who == entries[j].who {
                    return None;
                }
                j = j + 1;
            }
            i = i + 1;
        }
        Some(BalanceLedger { entries })
    }

    /// The sum of all records, where it fits in an `i128`.
    pub fn total(&self) -> (r: Option<i128>)
        requires
            balances_wf(self@),
        ensures
            r matches Some(v) ==> v == sum_of(self@),
            r is None ==> sum_of(self@) > i128::MAX,
    {
        let mut acc: i128 = 0;
        let mut i: usize = 0;
        while i < self.entries.len()
            invariant
                i <= self@.len(),
                self@ == self.entries@,
                balances_wf(self@),
                acc == sum_of(self@.take(i as int)),
                acc >= 0,
            decreases self@.len() - i,
        {
            proof {
                assert(self@.take(i as int + 1).drop_last() =~= self@.take(i as int));
            }
            let a = self.entries[i].amount;
            if a > i128::MAX - acc {
                proof {
                    lemma_sum_prefix_le(self@, i as int + 1);
                }
                return None;
            }
            acc = acc + a;
            i = i + 1;
        }
        proof {
            assert(self@.take(self@.len() as int) =~= self@);
        }
        Some(acc)
    }

    /// A ledger in which every account holds 0.
    pub fn new() -> (r: BalanceLedger)
        ensures
            r@ == Seq::<BalanceEntry>::empty(),
    {
        BalanceLedger { entries: Vec::new() }
    }

    fn find(&self, p: Principal) -> (r: Option<usize>)
        ensures
            match r {
                Some(i) => i < self@.len() && self@[i as int].who == p,
                None => forall|i: int| 0 <= i < self@.len() ==> self@[i].who != p,
            },
    {
        let mut i: usize = 0;
        while i < self.entries.len()
            invariant
                i <= self@.len(),
                self@ == self.entries@,
                forall|j: int| 0 <= j < i ==> self@[j].who != p,
            decreases self@.len() - i,
        {
            if self.entries[i].who == p {
                return Some(i);
            }
            i = i + 1;
        }
        None
    }

    /// The balance of `p`, 0 where it has no record.
    pub fn read(&self, p: Principal) -> (r: i128)
        requires
            balances_wf(self@),
        ensures
            r == balance_in(self@, p),
    {
        match self.find(p) {
            Some(i) => {
                proof {
                    lemma_balance_at(self@, i as int);
                }
                self.entries[i].amount
            },
            None => {
                proof {
                    lemma_balance_absent(self@, p);
                }
                0
            },
        }
    }

    /// Sets the balance of `p` to `amount`, leaving every other account as it was.
    pub fn write(&mut self, p: Principal, amount: i128)
        requires
            balances_wf(old(self)@),
            amount >= 0,
        ensures
            balances_wf(final(self)@),
            sum_of(final(self)@) == sum_of(old(self)@) - balance_in(old(self)@, p) + amount,
            forall|q: Principal| balance_in(final(self)@, q) == if q == p {
                amount as int
            } else {
                balance_in(old(self)@, q)
            },
    {
        let e = BalanceEntry { who: p, amount };
        match self.find(p) {
            Some(i) => {
                proof {
                    lemma_balance_at(self@, i as int);
                    lemma_balance_update(self@, i as int, e);
                }
                self.entries.set(i, e);
            },
            None => {
                proof {
                    lemma_balance_absent(self@, p);
                    lemma_balance_push(self@, e);
                }
                self.entries.push(e);
            },
        }
    }

    /// Credits `amount` to `p`.
    pub fn receive(&mut self, p: Principal, amount: i128)
        requires
            balances_wf(old(self)@),
            amount >= 0,
            balance_in(old(self)@, p) + amount <= i128::MAX,
        ensures
            balances_wf(final(self)@),
            sum_of(final(self)@) == sum_of(old(self)@) + amount,
            forall|q: Principal| balance_in(final(self)@, q) == balance_in(old(self)@, q) + if q == p {
                amount as int
            } else {
                0
            },
    {
        let b = self.read(p);
        proof {
            lemma_balance_le_sum(self@, p);
        }
        self.write(p, b + amount);
    }

    /// Debits `amount` from `p`; fails, changing nothing, where `p` holds less.
    pub fn spend(&mut self, p: Principal, amount: i128) -> (r: Result<(), TokenError>)
        requires
            balances_wf(old(self)@),
            amount >= 0,
        ensures
            balances_wf(final(self)@),
            balance_in(old(self)@, p) < amount ==> r == Err::<(), TokenError>(
                TokenError::InsufficientBalance,
            ) && final(self)@ == old(self)@,
            balance_in(old(self)@, p) >= amount ==> r is Ok && sum_of(final(self)@) == sum_of(
                old(self)@,
            ) - amount && forall|q: Principal|
                balance_in(final(self)@, q) == balance_in(old(self)@, q) - if q == p {
                    amount as int
                } else {
                    0
                },
    {
        let b = self.read(p);
        if b < amount {
            return Err(TokenError::InsufficientBalance);
        }
        self.write(p, b - amount);
        Ok(())
    }
}

} // verus!
