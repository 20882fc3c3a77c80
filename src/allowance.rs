use vstd::prelude::*;
use crate::storage_types::{AllowanceDataKey, AllowanceValue, TokenError};

verus! {

/// One stored allowance record.
#[derive(Clone, Copy, PartialEq, Eq, Structural, Debug)]
pub struct AllowanceEntry {
    pub key: AllowanceDataKey,
    pub value: AllowanceValue,
}

/// The value read for a key that has no record.
pub open spec fn no_allowance() -> AllowanceValue {
    AllowanceValue { amount: 0, expiration_ledger: 0 }
}

/// The allowance stored under `k`, `{0, 0}` where there is none.
pub open spec fn allowance_in(s: Seq<AllowanceEntry>, k: AllowanceDataKey) -> AllowanceValue
    decreases s.len(),
{
    if s.len() == 0 {
        no_allowance()
    } else if s.last().key == k {
        s.last().value
    } else {
        allowance_in(s.drop_last(), k)
    }
}

/// No key has two records, and no stored amount is negative.
pub open spec fn allowances_wf(s: Seq<AllowanceEntry>) -> bool {
    &&& forall|i: int, j: int| 0 <= i < j < s.len() ==> s[i].key != s[j].key
    &&& forall|i: int| 0 <= i < s.len() ==> s[i].value.amount >= 0
}

proof fn lemma_allowance_at(s: Seq<AllowanceEntry>, i: int)
    requires
        allowances_wf(s),
        0 <= i < s.len(),
    ensures
        allowance_in(s, s[i].key) == s[i].value,
    decreases s.len(),
{
    if i < s.len() - 1 {
        assert(s.last() == s[s.len() - 1]);
        lemma_allowance_at(s.drop_last(), i);
    }
}

proof fn lemma_allowance_absent(s: Seq<AllowanceEntry>, k: AllowanceDataKey)
    requires
        forall|i: int| 0 <= i < s.len() ==> s[i].key != k,
    ensures
        allowance_in(s, k) == no_allowance(),
    decreases s.len(),
{
    if s.len() > 0 {
        lemma_allowance_absent(s.drop_last(), k);
    }
}

proof fn lemma_allowance_update(s: Seq<AllowanceEntry>, i: int, e: AllowanceEntry)
    requires
        allowances_wf(s),
        0 <= i < s.len(),
        e.key == s[i].key,
        e.value.amount >= 0,
    ensures
        allowances_wf(s.update(i, e)),
        forall|k: AllowanceDataKey| allowance_in(s.update(i, e), k) == if k == e.key {
            e.value
        } else {
            allowance_in(s, k)
        },
    decreases s.len(),
{
    let t = s.update(i, e);
    assert(allowances_wf(t)) by {
        assert forall|a: int, b: int| 0 <= a < b < t.len() implies t[a].key != t[b].key by {
            assert(t[a].key == s[a].key && t[b].key == s[b].key);
        }
    }
    if i == s.len() - 1 {
        assert(t.drop_last() =~= s.drop_last());
        assert forall|k: AllowanceDataKey| allowance_in(t, k) == if k == e.key {
            e.value
        } else {
            allowance_in(s, k)
        } by {
            assert(s.last() == s[i]);
            assert(t.last() == e);
        }
    } else {
        assert(t.drop_last() =~= s.drop_last().update(i, e));
        assert(t.last() == s.last());
        lemma_allowance_update(s.drop_last(), i, e);
        assert forall|k: AllowanceDataKey| allowance_in(t, k) == if k == e.key {
            e.value
        } else {
            allowance_in(s, k)
        } by {
            assert(s.last() == s[s.len() - 1]);
            assert(s.last().key != s[i].key);
            assert(s.drop_last()[i] == s[i]);
            if k != t.last().key {
                assert(allowance_in(t, k) == allowance_in(t.drop_last(), k));
                assert(allowance_in(s, k) == allowance_in(s.drop_last(), k));
            }
        }
    }
}

/// The allowance ledger: one record per (owner, spender) pair ever approved.
pub struct AllowanceLedger {
    entries: Vec<AllowanceEntry>,
}

impl View for AllowanceLedger {
    type V = Seq<AllowanceEntry>;

    closed spec fn view(&self) -> Seq<AllowanceEntry> {
        self.entries@
    }
}

impl AllowanceLedger {
    /// A copy of the stored records.
    pub fn records(&self) -> (r: Vec<AllowanceEntry>)
        ensures
            r@ == self@,
    {
        let mut out: Vec<AllowanceEntry> = Vec::new();
        let mut i: usize = 0;
        while i < self.entries.len()
            invariant
                i <= self@.len(),
                self@ == self.entries@,
                out@ == self@.take(i as int),
            decreases self@.len() - i,
        {
            out.push(self.entries[i]);
            i = i + 1;
            proof {
                assert(out@ =~= self@.take(i as int));
            }
        }
        proof {
            assert(self@.take(self@.len() as int) =~= self@);
        }
        out
    }

    /// A ledger holding `entries`, where no key has two records and no
    /// amount is negative; `None` otherwise.
    pub fn from_records(entries: Vec<AllowanceEntry>) -> (r: Option<AllowanceLedger>)
        ensures
            r is Some <==> allowances_wf(entries@),
            r matches Some(l) ==> l@ == entries@,
    {
        let n = entries.len();
        let mut i: usize = 0;
        while i < n
            invariant
                n == entries@.len(),
                i <= n,
                forall|a: int, b: int| 0 <= a < b < n && a < i ==> entries@[a].key != entries@[b].key,
                forall|a: int| 0 <= a < i ==> entries@[a].value.amount >= 0,
            decreases n - i,
        {
            if entries[i].value.amount < 0 {
                return None;
            }
            let mut j: usize = i + 1;
            while j < n
                invariant
                    n == entries@.len(),
                    i < n,
                    i < j <= n,
                    forall|b: int| i < b < j ==> entries@[i as int].key != entries@[b].key,
                decreases n - j,
            {
                if entries[i].key == entries[j].key {
                    return None;
                }
                j = j + 1;
            }
            i = i + 1;
        }
        Some(AllowanceLedger { entries })
    }

    /// A ledger without any allowance.
    pub fn new() -> (r: AllowanceLedger)
        ensures
            r@ == Seq::<AllowanceEntry>::empty(),
    {
        AllowanceLedger { entries: Vec::new() }
    }

    fn find(&self, k: AllowanceDataKey) -> (r: Option<usize>)
        ensures
            match r {
                Some(i) => i < self@.len() && self@[i as int].key == k,
                None => forall|i: int| 0 <= i < self@.len() ==> self@[i].key != k,
            },
    {
        let mut i: usize = 0;
        while i < self.entries.len()
            invariant
                i <= self@.len(),
                self@ == self.entries@,
                forall|j: int| 0 <= j < i ==> self@[j].key != k,
            decreases self@.len() - i,
        {
            if self.entries[i].key == k {
                return Some(i);
            }
            i = i + 1;
        }
        None
    }

    /// The record stored under `k`, `{0, 0}` where there is none.
    pub fn read(&self, k: AllowanceDataKey) -> (r: AllowanceValue)
        requires
            allowances_wf(self@),
        ensures
            r == allowance_in(self@, k),
    {
        match self.find(k) {
            Some(i) => {
                proof {
                    lemma_allowance_at(self@, i as int);
                }
                self.entries[i].value
            },
            None => {
                proof {
                    lemma_allowance_absent(self@, k);
                }
                AllowanceValue { amount: 0, expiration_ledger: 0 }
            },
        }
    }

    /// Overwrites the record under `k`.
    pub fn write(&mut self, k: AllowanceDataKey, v: AllowanceValue)
        requires
            allowances_wf(old(self)@),
            v.amount >= 0,
        ensures
            allowances_wf(final(self)@),
            forall|q: AllowanceDataKey| allowance_in(final(self)@, q) == if q == k {
                v
            } else {
                allowance_in(old(self)@, q)
            },
    {
        let e = AllowanceEntry { key: k, value: v };
        match self.find(k) {
            Some(i) => {
                proof {
                    lemma_allowance_update(self@, i as int, e);
                }
                self.entries.set(i, e);
            },
            None => {
                proof {
                    let t = self@.push(e);
                    assert(t.drop_last() =~= self@);
                    lemma_allowance_absent(self@, k);
                }
                self.entries.push(e);
            },
        }
    }

    /// Takes `amount` off the allowance under `k` at ledger sequence `sequence`.
    /// Fails, changing nothing, where the record has expired or holds less.
    pub fn spend(&mut self, k: AllowanceDataKey, amount: i128, sequence: u32) -> (r: Result<
        (),
        TokenError,
    >)
        requires
            allowances_wf(old(self)@),
            amount >= 0,
        ensures
            allowances_wf(final(self)@),
            r == spend_allowance_outcome(allowance_in(old(self)@, k), amount, sequence),
            r is Err ==> final(self)@ == old(self)@,
            r is Ok ==> forall|q: AllowanceDataKey| allowance_in(final(self)@, q) == if q == k {
                AllowanceValue {
                    amount: (allowance_in(old(self)@, k).amount - amount) as i128,
                    expiration_ledger: allowance_in(old(self)@, k).expiration_ledger,
                }
            } else {
                allowance_in(old(self)@, q)
            },
    {
        let v = self.read(k);
        if sequence > v.expiration_ledger {
            return Err(TokenError::AllowanceExpired);
        }
        if v.amount < amount {
            return Err(TokenError::InsufficientAllowance);
        }
        self.write(k, AllowanceValue { amount: v.amount - amount, expiration_ledger: v.expiration_ledger });
        Ok(())
    }
}

/// Whether spending `amount` from the record `v` at `sequence` is refused, and why.
pub open spec fn spend_allowance_outcome(v: AllowanceValue, amount: i128, sequence: u32) -> Result<
    (),
    TokenError,
> {
    if sequence > v.expiration_ledger {
        Err(TokenError::AllowanceExpired)
    } else if v.amount < amount {
        Err(TokenError::InsufficientAllowance)
    } else {
        Ok(())
    }
}

} // verus!
