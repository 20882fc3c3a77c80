use vstd::prelude::*;
use crate::allowance::{allowance_in, allowances_wf, AllowanceEntry, AllowanceLedger};
use crate::balance::{balance_in, balances_wf, sum_of, BalanceEntry, BalanceLedger};
use crate::freeze::FreezeRegistry;
use crate::storage_types::{
    AllowanceDataKey, AllowanceValue, MetadataModel, Principal, TokenMetadata, TokenState,
};

verus! {

/// Everything the token keeps between operations: the administrator, the
/// metadata, the supply state, and the three ledgers.
pub struct Store {
    pub(crate) admin: Option<Principal>,
    pub(crate) metadata: Option<TokenMetadata>,
    pub(crate) state: Option<TokenState>,
    pub(crate) balances: BalanceLedger,
    pub(crate) allowances: AllowanceLedger,
    pub(crate) frozen: FreezeRegistry,
}

/// The contents of a `Store`, as the contracts speak of them.
pub struct StoreModel {
    pub admin: Option<Principal>,
    pub metadata: Option<MetadataModel>,
    pub state: Option<TokenState>,
    pub balances: Seq<BalanceEntry>,
    pub allowances: Seq<AllowanceEntry>,
    pub frozen: Seq<Principal>,
}

/// What the contracts know of an optional metadata record.
pub open spec fn metadata_view(m: Option<TokenMetadata>) -> Option<MetadataModel> {
    match m {
        Some(md) => Some(md@),
        None => None,
    }
}

impl View for Store {
    type V = StoreModel;

    open(crate) spec fn view(&self) -> StoreModel {
        StoreModel {
            admin: self.admin,
            metadata: metadata_view(self.metadata),
            state: self.state,
            balances: self.balances@,
            allowances: self.allowances@,
            frozen: self.frozen@,
        }
    }
}

impl StoreModel {
    /// The balance of `p`; 0 where it has no record.
    pub open spec fn balance(self, p: Principal) -> int {
        balance_in(self.balances, p)
    }

    /// The allowance record of `spender` over the funds of `from`.
    pub open spec fn allowance(self, from: Principal, spender: Principal) -> AllowanceValue {
        allowance_in(self.allowances, AllowanceDataKey { from, spender })
    }

    /// Whether `p` has a freeze record of its own.
    pub open spec fn account_frozen(self, p: Principal) -> bool {
        self.frozen.contains(p)
    }

    /// The total supply; 0 before the token is initialized.
    pub open spec fn supply(self) -> int {
        match self.state {
            Some(s) => s.total_supply as int,
            None => 0,
        }
    }

    /// Whether the token has been initialized.
    pub open spec fn initialized(self) -> bool {
        self.state is Some
    }

    /// The invariant that every operation keeps.
    pub open spec fn wf(self) -> bool {
        &&& balances_wf(self.balances)
        &&& allowances_wf(self.allowances)
        &&& sum_of(self.balances) == self.supply()
        &&& self.admin is Some <==> self.state is Some
        &&& self.metadata is Some <==> self.state is Some
        &&& match self.state {
            Some(s) => {
                &&& self.admin == Some(s.admin)
                &&& s.total_supply >= 0
                &&& (s.max_supply matches Some(c) ==> s.total_supply <= c)
            },
            None => true,
        }
    }
}

impl Store {
    /// A store for a token that has not been initialized.
    pub fn new() -> (r: Store)
        ensures
            r.wf(),
            !r@.initialized(),
            r@.admin is None,
            r@.balances.len() == 0,
            r@.allowances.len() == 0,
            r@.frozen.len() == 0,
    {
        Store {
            admin: None,
            metadata: None,
            state: None,
            balances: BalanceLedger::new(),
            allowances: AllowanceLedger::new(),
            frozen: FreezeRegistry::new(),
        }
    }


    /// A store holding the given records, where together they meet the
    /// invariant; `None` where they do not.
    pub fn restore(
        admin: Option<Principal>,
        metadata: Option<TokenMetadata>,
        state: Option<TokenState>,
        balances: Vec<BalanceEntry>,
        allowances: Vec<AllowanceEntry>,
        frozen: Vec<Principal>,
    ) -> (r: Option<Store>)
        ensures
            ({
                let m = StoreModel {
                    admin,
                    metadata: metadata_view(metadata),
                    state,
                    balances: balances@,
                    allowances: allowances@,
                    frozen: frozen@,
                };
                &&& r is Some <==> m.wf()
                &&& r matches Some(s) ==> s@ == m
            }),
    {
        let ghost m = StoreModel {
            admin,
            metadata: metadata_view(metadata),
            state,
            balances: balances@,
            allowances: allowances@,
            frozen: frozen@,
        };
        let balances = match BalanceLedger::from_records(balances) {
            Some(b) => b,
            None => return None,
        };
        let allowances = match AllowanceLedger::from_records(allowances) {
            Some(a) => a,
            None => return None,
        };
        let supply: i128 = match state {
            Some(s) => s.total_supply,
            None => 0,
        };
        match balances.total() {
            Some(v) => {
                if v != supply {
                    return None;
                }
            },
            None => return None,
        }
        if admin.is_some() != state.is_some() || metadata.is_some() != state.is_some() {
            return None;
        }
        if let Some(s) = state {
            match admin {
                Some(a) => {
                    if a != s.admin {
                        return None;
                    }
                },
                None => return None,
            }
            if s.total_supply < 0 {
                return None;
            }
            if let Some(c) = s.max_supply {
                if s.total_supply > c {
                    return None;
                }
            }
        }
        let r = Store {
            admin,
            metadata,
            state,
            balances,
            allowances,
            frozen: FreezeRegistry::from_records(frozen),
        };
        assert(r@ == m);
        Some(r)
    }

    /// A copy of the balance records.
    pub fn balance_records(&self) -> (r: Vec<BalanceEntry>)
        ensures
            r@ == self@.balances,
    {
        self.balances.records()
    }

    /// A copy of the allowance records.
    pub fn allowance_records(&self) -> (r: Vec<AllowanceEntry>)
        ensures
            r@ == self@.allowances,
    {
        self.allowances.records()
    }

    /// A copy of the accounts with a freeze record.
    pub fn frozen_records(&self) -> (r: Vec<Principal>)
        ensures
            r@ == self@.frozen,
    {
        self.frozen.records()
    }

    /// A copy of the metadata record, if there is one.
    pub fn metadata_record(&self) -> (r: Option<TokenMetadata>)
        ensures
            metadata_view(r) == self@.metadata,
    {
        match &self.metadata {
            Some(m) => Some(TokenMetadata { decimal: m.decimal, name: m.name.clone(), symbol: m.symbol.clone() }),
            None => None,
        }
    }

    /// The invariant that every operation keeps.
    pub open spec fn wf(&self) -> bool {
        self@.wf()
    }
}

} // verus!
