use vstd::prelude::*;
use crate::admin::{
    check_admin, has_administrator, read_administrator, read_state, write_administrator,
    write_state,
};
use crate::balance::lemma_balance_le_sum;
use crate::metadata::{read_decimal, read_name, read_symbol, write_metadata};
use crate::store::{Store, StoreModel};
use crate::storage_types::{
    is_authorized, AllowanceDataKey, AllowanceValue, Context, Event, FrozenStatus, MetadataModel,
    Principal,
    TokenError, TokenMetadata, TokenState,
};

verus! {

/// The public operations of the token. Each one takes the store it works on
/// and, where it needs them, the invocation's signers and ledger sequence.
pub struct TokenContract;

/// `new` holds the same administrator, metadata, allowances and freeze
/// records as `old`.
pub open spec fn same_registries(old: StoreModel, new: StoreModel) -> bool {
    &&& new.admin == old.admin
    &&& new.metadata == old.metadata
    &&& new.allowances == old.allowances
    &&& new.frozen == old.frozen
}

/// `amount` has left `from` (where there is one) and reached `to` (where
/// there is one); every other balance is as it was.
pub open spec fn balances_moved(
    old: StoreModel,
    new: StoreModel,
    from: Option<Principal>,
    to: Option<Principal>,
    amount: int,
) -> bool {
    forall|q: Principal|
        new.balance(q) == old.balance(q) - (if from == Some(q) {
            amount
        } else {
            0
        }) + (if to == Some(q) {
            amount
        } else {
            0
        })
}

/// The state record after the total supply moved by `delta`.
pub open spec fn supply_moved(s: TokenState, delta: int) -> TokenState {
    TokenState { total_supply: (s.total_supply + delta) as i128, ..s }
}

/// Why `initialize` refuses, if it does.
pub open spec fn initialize_error(m: StoreModel, max_supply: Option<i128>) -> Option<TokenError> {
    if m.initialized() {
        Some(TokenError::AlreadyInitialized)
    } else if max_supply matches Some(c) && c < 0 {
        Some(TokenError::InvalidAmount)
    } else {
        None
    }
}

/// Why an operation that only the administrator may call is refused for
/// lack of initialization or of the administrator's authorization, if it is.
pub open spec fn admin_error(m: StoreModel, signers: Seq<Principal>) -> Option<TokenError> {
    match m.state {
        None => Some(TokenError::Uninitialized),
        Some(s) => if !signers.contains(s.admin) {
            Some(TokenError::AuthorizationFailed)
        } else {
            None
        },
    }
}

/// Why `mint` refuses, if it does.
pub open spec fn mint_error(m: StoreModel, signers: Seq<Principal>, to: Principal, amount: i128) -> Option<
    TokenError,
> {
    if admin_error(m, signers) is Some {
        admin_error(m, signers)
    } else {
        let s = m.state.unwrap();
        if !s.is_mintable {
            Some(TokenError::NotMintable)
        } else if s.is_frozen {
            Some(TokenError::GloballyFrozen)
        } else if m.account_frozen(to) {
            Some(TokenError::AccountFrozen)
        } else if amount <= 0 {
            Some(TokenError::InvalidAmount)
        } else if s.max_supply matches Some(c) && s.total_supply + amount > c {
            Some(TokenError::MaxSupplyExceeded)
        } else if s.total_supply + amount > i128::MAX {
            Some(TokenError::ArithmeticOverflow)
        } else {
            None
        }
    }
}

/// Why `burn` refuses, if it does.
pub open spec fn burn_error(m: StoreModel, signers: Seq<Principal>, from: Principal, amount: i128) -> Option<
    TokenError,
> {
    if admin_error(m, signers) is Some {
        admin_error(m, signers)
    } else {
        let s = m.state.unwrap();
        if !s.is_burnable {
            Some(TokenError::NotBurnable)
        } else if s.is_frozen {
            Some(TokenError::GloballyFrozen)
        } else if m.account_frozen(from) {
            Some(TokenError::AccountFrozen)
        } else if amount <= 0 {
            Some(TokenError::InvalidAmount)
        } else if m.balance(from) < amount {
            Some(TokenError::InsufficientBalance)
        } else {
            None
        }
    }
}

/// Why `freeze`, `unfreeze` or `set_frozen` refuses, if it does.
pub open spec fn freeze_error(m: StoreModel, signers: Seq<Principal>) -> Option<TokenError> {
    if admin_error(m, signers) is Some {
        admin_error(m, signers)
    } else if !m.state.unwrap().is_freezable {
        Some(TokenError::NotFreezable)
    } else {
        None
    }
}

/// Why a balance may not move from `from` to `to`: a missing state, the
/// global freeze, a frozen endpoint or a non-positive amount.
pub open spec fn movement_error(m: StoreModel, from: Principal, to: Principal, amount: i128) -> Option<
    TokenError,
> {
    match m.state {
        None => Some(TokenError::Uninitialized),
        Some(s) => if s.is_frozen {
            Some(TokenError::GloballyFrozen)
        } else if m.account_frozen(from) || m.account_frozen(to) {
            Some(TokenError::AccountFrozen)
        } else if amount <= 0 {
            Some(TokenError::InvalidAmount)
        } else {
            None
        },
    }
}

/// Why `transfer` refuses, if it does.
pub open spec fn transfer_error(
    m: StoreModel,
    signers: Seq<Principal>,
    from: Principal,
    to: Principal,
    amount: i128,
) -> Option<TokenError> {
    if !signers.contains(from) {
        Some(TokenError::AuthorizationFailed)
    } else if movement_error(m, from, to, amount) is Some {
        movement_error(m, from, to, amount)
    } else if m.balance(from) < amount {
        Some(TokenError::InsufficientBalance)
    } else {
        None
    }
}

/// Why `transfer_from` refuses, if it does.
pub open spec fn transfer_from_error(
    m: StoreModel,
    signers: Seq<Principal>,
    sequence: u32,
    spender: Principal,
    from: Principal,
    to: Principal,
    amount: i128,
) -> Option<TokenError> {
    if !signers.contains(spender) {
        Some(TokenError::AuthorizationFailed)
    } else if movement_error(m, from, to, amount) is Some {
        movement_error(m, from, to, amount)
    } else if sequence > m.allowance(from, spender).expiration_ledger {
        Some(TokenError::AllowanceExpired)
    } else if m.allowance(from, spender).amount < amount {
        Some(TokenError::InsufficientAllowance)
    } else if m.balance(from) < amount {
        Some(TokenError::InsufficientBalance)
    } else {
        None
    }
}

/// Why `approve` refuses, if it does.
pub open spec fn approve_error(m: StoreModel, signers: Seq<Principal>, from: Principal, amount: i128) -> Option<
    TokenError,
> {
    if !signers.contains(from) {
        Some(TokenError::AuthorizationFailed)
    } else if amount < 0 {
        Some(TokenError::InvalidAmount)
    } else {
        None
    }
}

/// The amount `spender` may still take from `from` at ledger sequence
/// `sequence`: the stored amount while the record is live, 0 after.
pub open spec fn live_allowance(m: StoreModel, sequence: u32, from: Principal, spender: Principal) -> int {
    let v = m.allowance(from, spender);
    if sequence > v.expiration_ledger {
        0
    } else {
        v.amount as int
    }
}

/// `new` is `old` with the allowance of `spender` over `from` set to `v`.
pub open spec fn allowance_set(
    old: StoreModel,
    new: StoreModel,
    from: Principal,
    spender: Principal,
    v: AllowanceValue,
) -> bool {
    forall|o: Principal, s: Principal|
        new.allowance(o, s) == if o == from && s == spender {
            v
        } else {
            old.allowance(o, s)
        }
}

/// `new` is `old` with the freeze record of `p` set (`frozen`) or cleared.
pub open spec fn freeze_set(old: StoreModel, new: StoreModel, p: Principal, frozen: bool) -> bool {
    &&& forall|q: Principal|
        new.account_frozen(q) == if q == p {
            frozen
        } else {
            old.account_frozen(q)
        }
    &&& new.admin == old.admin
    &&& new.metadata == old.metadata
    &&& new.state == old.state
    &&& new.balances == old.balances
    &&& new.allowances == old.allowances
}

impl TokenContract {
    /// Creates the token: records the administrator, the metadata and a
    /// state with no supply and no global freeze.
    pub fn initialize(
        store: &mut Store,
        admin: Principal,
        decimal: u32,
        name: String,
        symbol: String,
        max_supply: Option<i128>,
        is_mintable: bool,
        is_burnable: bool,
        is_freezable: bool,
    ) -> (r: Result<(), TokenError>)
        requires
            old(store).wf(),
        ensures
            final(store).wf(),
            match initialize_error(old(store)@, max_supply) {
                Some(e) => r == Err::<(), TokenError>(e) && final(store)@ == old(store)@,
                None => r == Ok::<(), TokenError>(()) && final(store)@ == (StoreModel {
                    admin: Some(admin),
                    metadata: Some(MetadataModel { decimal, name: name@, symbol: symbol@ }),
                    state: Some(
                        TokenState {
                            admin,
                            total_supply: 0,
                            max_supply,
                            is_mintable,
                            is_burnable,
                            is_freezable,
                            is_frozen: false,
                        },
                    ),
                    ..old(store)@
                }),
            },
    {
        if has_administrator(store) {
            return Err(TokenError::AlreadyInitialized);
        }
        if let Some(c) = max_supply {
            if c < 0 {
                return Err(TokenError::InvalidAmount);
            }
        }
        write_administrator(store, admin);
        write_metadata(store, TokenMetadata { decimal, name, symbol });
        let state = TokenState {
            admin,
            total_supply: 0,
            max_supply,
            is_mintable,
            is_burnable,
            is_freezable,
            is_frozen: false,
        };
        write_state(store, state);
        Ok(())
    }

    /// Creates `amount` new units in the account `to`.
    pub fn mint(store: &mut Store, ctx: &Context, to: Principal, amount: i128) -> (r: Result<
        Event,
        TokenError,
    >)
        requires
            old(store).wf(),
        ensures
            final(store).wf(),
            match mint_error(old(store)@, ctx.signers@, to, amount) {
                Some(e) => r == Err::<Event, TokenError>(e) && final(store)@ == old(store)@,
                None => {
                    &&& r == Ok::<Event, TokenError>(Event::Mint { to, amount })
                    &&& final(store)@.state == Some(supply_moved(old(store)@.state.unwrap(), amount as int))
                    &&& balances_moved(old(store)@, final(store)@, None, Some(to), amount as int)
                    &&& same_registries(old(store)@, final(store)@)
                },
            },
    {
        check_admin(store, ctx)?;
        let state = read_state(store)?;
        if !state.is_mintable {
            return Err(TokenError::NotMintable);
        }
        if state.is_frozen {
            return Err(TokenError::GloballyFrozen);
        }
        if store.frozen.contains(to) {
            return Err(TokenError::AccountFrozen);
        }
        if amount <= 0 {
            return Err(TokenError::InvalidAmount);
        }
        if let Some(c) = state.max_supply {
            if amount > c - state.total_supply {
                return Err(TokenError::MaxSupplyExceeded);
            }
        }
        if amount > i128::MAX - state.total_supply {
            return Err(TokenError::ArithmeticOverflow);
        }
        proof {
            lemma_balance_le_sum(store@.balances, to);
        }
        store.balances.receive(to, amount);
        let new_state = TokenState { total_supply: state.total_supply + amount, ..state };
        write_state(store, new_state);
        Ok(Event::Mint { to, amount })
    }

    /// Destroys `amount` units held by `from`.
    pub fn burn(store: &mut Store, ctx: &Context, from: Principal, amount: i128) -> (r: Result<
        Event,
        TokenError,
    >)
        requires
            old(store).wf(),
        ensures
            final(store).wf(),
            match burn_error(old(store)@, ctx.signers@, from, amount) {
                Some(e) => r == Err::<Event, TokenError>(e) && final(store)@ == old(store)@,
                None => {
                    &&& r == Ok::<Event, TokenError>(Event::Burn { from, amount })
                    &&& final(store)@.state == Some(supply_moved(old(store)@.state.unwrap(), -amount))
                    &&& balances_moved(old(store)@, final(store)@, Some(from), None, amount as int)
                    &&& same_registries(old(store)@, final(store)@)
                },
            },
    {
        check_admin(store, ctx)?;
        let state = read_state(store)?;
        if !state.is_burnable {
            return Err(TokenError::NotBurnable);
        }
        if state.is_frozen {
            return Err(TokenError::GloballyFrozen);
        }
        if store.frozen.contains(from) {
            return Err(TokenError::AccountFrozen);
        }
        if amount <= 0 {
            return Err(TokenError::InvalidAmount);
        }
        proof {
            lemma_balance_le_sum(store@.balances, from);
        }
        store.balances.spend(from, amount)?;
        let new_state = TokenState { total_supply: state.total_supply - amount, ..state };
        write_state(store, new_state);
        Ok(Event::Burn { from, amount })
    }

    /// Blocks every balance movement into or out of `addr`.
    pub fn freeze(store: &mut Store, ctx: &Context, addr: Principal) -> (r: Result<Event, TokenError>)
        requires
            old(store).wf(),
        ensures
            final(store).wf(),
            match freeze_error(old(store)@, ctx.signers@) {
                Some(e) => r == Err::<Event, TokenError>(e) && final(store)@ == old(store)@,
                None => r == Ok::<Event, TokenError>(Event::Freeze { account: addr })
                    && freeze_set(old(store)@, final(store)@, addr, true),
            },
    {
        check_admin(store, ctx)?;
        let state = read_state(store)?;
        if !state.is_freezable {
            return Err(TokenError::NotFreezable);
        }
        store.frozen.insert(addr);
        Ok(Event::Freeze { account: addr })
    }

    /// Clears the freeze record of `addr`; where there is none, nothing changes.
    pub fn unfreeze(store: &mut Store, ctx: &Context, addr: Principal) -> (r: Result<Event, TokenError>)
        requires
            old(store).wf(),
        ensures
            final(store).wf(),
            match freeze_error(old(store)@, ctx.signers@) {
                Some(e) => r == Err::<Event, TokenError>(e) && final(store)@ == old(store)@,
                None => r == Ok::<Event, TokenError>(Event::Unfreeze { account: addr })
                    && freeze_set(old(store)@, final(store)@, addr, false),
            },
    {
        check_admin(store, ctx)?;
        let state = read_state(store)?;
        if !state.is_freezable {
            return Err(TokenError::NotFreezable);
        }
        store.frozen.remove(addr);
        Ok(Event::Unfreeze { account: addr })
    }

    /// Sets or clears the global freeze.
    pub fn set_frozen(store: &mut Store, ctx: &Context, frozen: bool) -> (r: Result<Event, TokenError>)
        requires
            old(store).wf(),
        ensures
            final(store).wf(),
            match freeze_error(old(store)@, ctx.signers@) {
                Some(e) => r == Err::<Event, TokenError>(e) && final(store)@ == old(store)@,
                None => r == Ok::<Event, TokenError>(Event::SetFrozen { frozen }) && final(store)@
                    == (StoreModel {
                    state: Some(TokenState { is_frozen: frozen, ..old(store)@.state.unwrap() }),
                    ..old(store)@
                }),
            },
    {
        check_admin(store, ctx)?;
        let state = read_state(store)?;
        if !state.is_freezable {
            return Err(TokenError::NotFreezable);
        }
        write_state(store, TokenState { is_frozen: frozen, ..state });
        Ok(Event::SetFrozen { frozen })
    }

    /// Hands the administrator's rights to `new_admin`.
    pub fn set_admin(store: &mut Store, ctx: &Context, new_admin: Principal) -> (r: Result<
        Event,
        TokenError,
    >)
        requires
            old(store).wf(),
        ensures
            final(store).wf(),
            match admin_error(old(store)@, ctx.signers@) {
                Some(e) => r == Err::<Event, TokenError>(e) && final(store)@ == old(store)@,
                None => r == Ok::<Event, TokenError>(Event::SetAdmin { new_admin }) && final(store)@
                    == (StoreModel {
                    admin: Some(new_admin),
                    state: Some(TokenState { admin: new_admin, ..old(store)@.state.unwrap() }),
                    ..old(store)@
                }),
            },
    {
        check_admin(store, ctx)?;
        let state = read_state(store)?;
        write_administrator(store, new_admin);
        write_state(store, TokenState { admin: new_admin, ..state });
        Ok(Event::SetAdmin { new_admin })
    }

    /// The current administrator.
    pub fn admin(store: &Store) -> (r: Result<Principal, TokenError>)
        ensures
            r == match store@.admin {
                Some(a) => Ok::<Principal, TokenError>(a),
                None => Err(TokenError::Uninitialized),
            },
    {
        read_administrator(store)
    }

    /// Whether balances may not move into or out of `addr`: the global
    /// freeze is on, or `addr` has a freeze record.
    pub fn is_frozen(store: &Store, addr: Principal) -> (r: bool)
        ensures
            r == ((store@.state matches Some(s) && s.is_frozen) || store@.account_frozen(addr)),
    {
        if let Some(s) = &store.state {
            if s.is_frozen {
                return true;
            }
        }
        store.frozen.contains(addr)
    }

    /// What `spender` may still take from `from` at the invocation's ledger sequence.
    pub fn allowance(store: &Store, ctx: &Context, from: Principal, spender: Principal) -> (r: i128)
        requires
            store.wf(),
        ensures
            r == live_allowance(store@, ctx.ledger_sequence, from, spender),
    {
        let v = store.allowances.read(AllowanceDataKey { from, spender });
        if ctx.ledger_sequence > v.expiration_ledger {
            0
        } else {
            v.amount
        }
    }

    /// Lets `spender` take up to `amount` from `from` until ledger
    /// `expiration_ledger`; replaces any earlier allowance of the pair.
    pub fn approve(
        store: &mut Store,
        ctx: &Context,
        from: Principal,
        spender: Principal,
        amount: i128,
        expiration_ledger: u32,
    ) -> (r: Result<Event, TokenError>)
        requires
            old(store).wf(),
        ensures
            final(store).wf(),
            match approve_error(old(store)@, ctx.signers@, from, amount) {
                Some(e) => r == Err::<Event, TokenError>(e) && final(store)@ == old(store)@,
                None => {
                    &&& r == Ok::<Event, TokenError>(
                        Event::Approve { from, spender, amount, expiration_ledger },
                    )
                    &&& allowance_set(
                        old(store)@,
                        final(store)@,
                        from,
                        spender,
                        AllowanceValue { amount, expiration_ledger },
                    )
                    &&& final(store)@.admin == old(store)@.admin
                    &&& final(store)@.metadata == old(store)@.metadata
                    &&& final(store)@.state == old(store)@.state
                    &&& final(store)@.balances == old(store)@.balances
                    &&& final(store)@.frozen == old(store)@.frozen
                },
            },
    {
        if !is_authorized(ctx, from) {
            return Err(TokenError::AuthorizationFailed);
        }
        if amount < 0 {
            return Err(TokenError::InvalidAmount);
        }
        store.allowances.write(AllowanceDataKey { from, spender }, AllowanceValue { amount, expiration_ledger });
        Ok(Event::Approve { from, spender, amount, expiration_ledger })
    }

    /// The balance of `id`.
    pub fn balance(store: &Store, id: Principal) -> (r: i128)
        requires
            store.wf(),
        ensures
            r == store@.balance(id),
    {
        store.balances.read(id)
    }

    /// Where the freeze gate stops a movement from `from` to `to`: the global
    /// freeze first, then the sender's record, then the receiver's.
    pub fn frozen_status(store: &Store, from: Principal, to: Principal) -> (r: FrozenStatus)
        ensures
            r == (if store@.state matches Some(s) && s.is_frozen {
                FrozenStatus::GloballyFrozen
            } else if store@.account_frozen(from) {
                FrozenStatus::AccountFrozen(from)
            } else if store@.account_frozen(to) {
                FrozenStatus::AccountFrozen(to)
            } else {
                FrozenStatus::NotFrozen
            }),
    {
        if let Some(s) = &store.state {
            if s.is_frozen {
                return FrozenStatus::GloballyFrozen;
            }
        }
        if store.frozen.contains(from) {
            FrozenStatus::AccountFrozen(from)
        } else if store.frozen.contains(to) {
            FrozenStatus::AccountFrozen(to)
        } else {
            FrozenStatus::NotFrozen
        }
    }

    /// Checks the freeze gate and the amount for a movement from `from` to `to`.
    fn check_movement(store: &Store, from: Principal, to: Principal, amount: i128) -> (r: Result<
        (),
        TokenError,
    >)
        ensures
            r == match movement_error(store@, from, to, amount) {
                Some(e) => Err::<(), TokenError>(e),
                None => Ok(()),
            },
    {
        read_state(store)?;
        match Self::frozen_status(store, from, to) {
            FrozenStatus::GloballyFrozen => Err(TokenError::GloballyFrozen),
            FrozenStatus::AccountFrozen(_) => Err(TokenError::AccountFrozen),
            FrozenStatus::NotFrozen => if amount <= 0 {
                Err(TokenError::InvalidAmount)
            } else {
                Ok(())
            },
        }
    }

    /// Moves `amount` from `from` to `to` once every check has passed.
    fn move_balance(store: &mut Store, from: Principal, to: Principal, amount: i128)
        requires
            old(store).wf(),
            amount > 0,
            old(store)@.balance(from) >= amount,
        ensures
            final(store).wf(),
            final(store)@.state == old(store)@.state,
            final(store)@.admin == old(store)@.admin,
            final(store)@.metadata == old(store)@.metadata,
            final(store)@.allowances == old(store)@.allowances,
            final(store)@.frozen == old(store)@.frozen,
            balances_moved(old(store)@, final(store)@, Some(from), Some(to), amount as int),
    {
        let _ = store.balances.spend(from, amount);
        proof {
            lemma_balance_le_sum(store@.balances, to);
        }
        store.balances.receive(to, amount);
    }

    /// Moves `amount` from `from` to `to` on the authority of `from`.
    pub fn transfer(store: &mut Store, ctx: &Context, from: Principal, to: Principal, amount: i128) -> (r:
        Result<Event, TokenError>)
        requires
            old(store).wf(),
        ensures
            final(store).wf(),
            match transfer_error(old(store)@, ctx.signers@, from, to, amount) {
                Some(e) => r == Err::<Event, TokenError>(e) && final(store)@ == old(store)@,
                None => {
                    &&& r == Ok::<Event, TokenError>(Event::Transfer { from, to, amount })
                    &&& final(store)@.state == old(store)@.state
                    &&& balances_moved(old(store)@, final(store)@, Some(from), Some(to), amount as int)
                    &&& same_registries(old(store)@, final(store)@)
                },
            },
    {
        if !is_authorized(ctx, from) {
            return Err(TokenError::AuthorizationFailed);
        }
        Self::check_movement(store, from, to, amount)?;
        if store.balances.read(from) < amount {
            return Err(TokenError::InsufficientBalance);
        }
        Self::move_balance(store, from, to, amount);
        Ok(Event::Transfer { from, to, amount })
    }

    /// Moves `amount` from `from` to `to` on the authority of `spender`,
    /// taking it off the allowance of `spender` over `from`.
    pub fn transfer_from(
        store: &mut Store,
        ctx: &Context,
        spender: Principal,
        from: Principal,
        to: Principal,
        amount: i128,
    ) -> (r: Result<Event, TokenError>)
        requires
            old(store).wf(),
        ensures
            final(store).wf(),
            match transfer_from_error(
                old(store)@,
                ctx.signers@,
                ctx.ledger_sequence,
                spender,
                from,
                to,
                amount,
            ) {
                Some(e) => r == Err::<Event, TokenError>(e) && final(store)@ == old(store)@,
                None => {
                    &&& r == Ok::<Event, TokenError>(Event::Transfer { from, to, amount })
                    &&& final(store)@.state == old(store)@.state
                    &&& balances_moved(old(store)@, final(store)@, Some(from), Some(to), amount as int)
                    &&& allowance_set(
                        old(store)@,
                        final(store)@,
                        from,
                        spender,
                        AllowanceValue {
                            amount: (old(store)@.allowance(from, spender).amount - amount) as i128,
                            expiration_ledger: old(store)@.allowance(from, spender).expiration_ledger,
                        },
                    )
                    &&& final(store)@.admin == old(store)@.admin
                    &&& final(store)@.metadata == old(store)@.metadata
                    &&& final(store)@.frozen == old(store)@.frozen
                },
            },
    {
        if !is_authorized(ctx, spender) {
            return Err(TokenError::AuthorizationFailed);
        }
        Self::check_movement(store, from, to, amount)?;
        let key = AllowanceDataKey { from, spender };
        let v = store.allowances.read(key);
        if ctx.ledger_sequence > v.expiration_ledger {
            return Err(TokenError::AllowanceExpired);
        }
        if v.amount < amount {
            return Err(TokenError::InsufficientAllowance);
        }
        if store.balances.read(from) < amount {
            return Err(TokenError::InsufficientBalance);
        }
        let _ = store.allowances.spend(key, amount, ctx.ledger_sequence);
        Self::move_balance(store, from, to, amount);
        Ok(Event::Transfer { from, to, amount })
    }

    /// The number of decimals; 0 before the token is initialized.
    pub fn decimals(store: &Store) -> (r: u32)
        ensures
            r == match store@.metadata {
                Some(m) => m.decimal,
                None => 0,
            },
    {
        read_decimal(store)
    }

    /// The token's name; empty before the token is initialized.
    pub fn name(store: &Store) -> (r: String)
        ensures
            r@ == match store@.metadata {
                Some(m) => m.name,
                None => Seq::<char>::empty(),
            },
    {
        read_name(store)
    }

    /// The token's symbol; empty before the token is initialized.
    pub fn symbol(store: &Store) -> (r: String)
        ensures
            r@ == match store@.metadata {
                Some(m) => m.symbol,
                None => Seq::<char>::empty(),
            },
    {
        read_symbol(store)
    }

    /// The number of units in existence.
    pub fn total_supply(store: &Store) -> (r: Result<i128, TokenError>)
        ensures
            r == match store@.state {
                Some(s) => Ok::<i128, TokenError>(s.total_supply),
                None => Err(TokenError::Uninitialized),
            },
    {
        let s = read_state(store)?;
        Ok(s.total_supply)
    }

    /// The cap on the total supply, if there is one.
    pub fn max_supply(store: &Store) -> (r: Result<Option<i128>, TokenError>)
        ensures
            r == match store@.state {
                Some(s) => Ok::<Option<i128>, TokenError>(s.max_supply),
                None => Err(TokenError::Uninitialized),
            },
    {
        let s = read_state(store)?;
        Ok(s.max_supply)
    }

    /// Whether the administrator may mint.
    pub fn is_mintable(store: &Store) -> (r: Result<bool, TokenError>)
        ensures
            r == match store@.state {
                Some(s) => Ok::<bool, TokenError>(s.is_mintable),
                None => Err(TokenError::Uninitialized),
            },
    {
        let s = read_state(store)?;
        Ok(s.is_mintable)
    }

    /// Whether the administrator may burn.
    pub fn is_burnable(store: &Store) -> (r: Result<bool, TokenError>)
        ensures
            r == match store@.state {
                Some(s) => Ok::<bool, TokenError>(s.is_burnable),
                None => Err(TokenError::Uninitialized),
            },
    {
        let s = read_state(store)?;
        Ok(s.is_burnable)
    }

    /// Whether the administrator may freeze accounts or the whole token.
    pub fn is_freezable(store: &Store) -> (r: Result<bool, TokenError>)
        ensures
            r == match store@.state {
                Some(s) => Ok::<bool, TokenError>(s.is_freezable),
                None => Err(TokenError::Uninitialized),
            },
    {
        let s = read_state(store)?;
        Ok(s.is_freezable)
    }
}

} // verus!
