use vstd::prelude::*;
use crate::storage_types::Principal;

verus! {

/// The accounts frozen one by one.
pub struct FreezeRegistry {
    accounts: Vec<Principal>,
}

impl View for FreezeRegistry {
    type V = Seq<Principal>;

    closed spec fn view(&self) -> Seq<Principal> {
        self.accounts@
    }
}

impl FreezeRegistry {
    /// A copy of the frozen accounts.
    pub fn records(&self) -> (r: Vec<Principal>)
        ensures
            r@ == self@,
    {
        let mut out: Vec<Principal> = Vec::new();
        let mut i: usize = 0;
        while i < self.accounts.len()
            invariant
                i <= self@.len(),
                self@ == self.accounts@,
                out@ == self@.take(i as int),
            decreases self@.len() - i,
        {
            out.push(self.accounts[i]);
            i = i + 1;
            proof {
                assert(out@ =~= self@.take(i as int));
            }
        }
        proof {
            assert(self@.take(self@.len() as int) =~= self@);
        }
        out
    }

    /// A registry holding `accounts`.
    pub fn from_records(accounts: Vec<Principal>) -> (r: FreezeRegistry)
        ensures
            r@ == accounts@,
    {
        FreezeRegistry { accounts }
    }

    /// A registry in which no account is frozen.
    pub fn new() -> (r: FreezeRegistry)
        ensures
            r@ == Seq::<Principal>::empty(),
    {
        FreezeRegistry { accounts: Vec::new() }
    }

    /// Whether `p` has a freeze record.
    pub fn contains(&self, p: Principal) -> (r: bool)
        ensures
            r == self@.contains(p),
    {
        let mut i: usize = 0;
        while i < self.accounts.len()
            invariant
                i <= self@.len(),
                self@ == self.accounts@,
                forall|j: int| 0 <= j < i ==> self@[j] != p,
            decreases self@.len() - i,
        {
            if self.accounts[i] == p {
                return true;
            }
            i = i + 1;
        }
        false
    }

    /// Records `p` as frozen.
    pub fn insert(&mut self, p: Principal)
        ensures
            forall|q: Principal| final(self)@.contains(q) == (old(self)@.contains(q) || q == p),
    {
        if !self.contains(p) {
            self.accounts.push(p);
            proof {
                assert forall|q: Principal| final(self)@.contains(q) == (old(self)@.contains(q)
                    || q == p) by {
                    if old(self)@.contains(q) {
                        let j = choose|j: int| 0 <= j < old(self)@.len() && old(self)@[j] == q;
                        assert(final(self)@[j] == q);
                    }
                    if q == p {
                        assert(final(self)@[old(self)@.len() as int] == q);
                    }
                }
            }
        }
    }

    /// Removes every freeze record of `p`.
    pub fn remove(&mut self, p: Principal)
        ensures
            forall|q: Principal| final(self)@.contains(q) == (old(self)@.contains(q) && q != p),
    {
        let mut kept: Vec<Principal> = Vec::new();
        let mut i: usize = 0;
        while i < self.accounts.len()
            invariant
                i <= self@.len(),
                self@ == self.accounts@,
                forall|q: Principal| kept@.contains(q) == (exists|j: int|
                    0 <= j < i && self@[j] == q && q != p),
            decreases self@.len() - i,
        {
            let a = self.accounts[i];
            let ghost before = kept@;
            if a != p {
                kept.push(a);
            }
            proof {
                assert forall|q: Principal| kept@.contains(q) == (exists|j: int|
                    0 <= j < i + 1 && self@[j] == q && q != p) by {
                    if a != p {
                        assert(kept@ == before.push(a));
                        assert(kept@.contains(q) == (before.contains(q) || q == a)) by {
                            if before.contains(q) {
                                let k = choose|k: int| 0 <= k < before.len() && before[k] == q;
                                assert(kept@[k] == q);
                            }
                            if q == a {
                                assert(kept@[before.len() as int] == q);
                            }
                        }
                    }
                    if q == a && q != p {
                        assert(self@[i as int] == q);
                    }
                    if exists|j: int| 0 <= j < i + 1 && self@[j] == q && q != p {
                        let j = choose|j: int| 0 <= j < i + 1 && self@[j] == q && q != p;
                        if j < i {
                            assert(exists|j: int| 0 <= j < i && self@[j] == q && q != p);
                        }
                    }
                }
            }
            i = i + 1;
        }
        self.accounts = kept;
    }
}

} // verus!
