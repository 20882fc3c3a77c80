use vstd::prelude::*;
use crate::balance::{lemma_balance_le_sum, sum_of};
use crate::contract::{
    allowance_set, approve_error, balances_moved, freeze_error, freeze_set, live_allowance,
};
use crate::store::StoreModel;
use crate::storage_types::{AllowanceValue, Principal};

verus! {

/// In every state that the operations reach (each one keeps `wf`, and a new
/// store has it), the total supply is the sum of all balances, is not
/// negative, and stays within the cap where one is set.
pub proof fn lemma_supply_is_sum_of_balances(m: StoreModel)
    requires
        m.wf(),
    ensures
        m.supply() == sum_of(m.balances),
        m.supply() >= 0,
        m.state matches Some(s) ==> (s.max_supply matches Some(c) ==> s.total_supply <= c),
{
}

/// In every reachable state, no account holds a negative balance, nor more
/// than the total supply.
pub proof fn lemma_balance_nonneg(m: StoreModel, p: Principal)
    requires
        m.wf(),
    ensures
        0 <= m.balance(p) <= m.supply(),
{
    lemma_balance_le_sum(m.balances, p);
}

/// Unfreezing an account that has no freeze record succeeds and changes
/// nothing, so a second `unfreeze` of the same account succeeds too and is a
/// no-op.
pub proof fn lemma_unfreeze_idempotent(
    m: StoreModel,
    next: StoreModel,
    signers: Seq<Principal>,
    p: Principal,
)
    requires
        freeze_error(m, signers) is None,
        !m.account_frozen(p),
        freeze_set(m, next, p, false),
    ensures
        freeze_error(next, signers) is None,
        forall|q: Principal| next.account_frozen(q) == m.account_frozen(q),
        next.state == m.state,
        next.admin == m.admin,
        next.metadata == m.metadata,
        next.balances == m.balances,
        next.allowances == m.allowances,
{
}

/// After `approve(from, spender, amount, expiration_ledger)`, the allowance
/// reads `amount` up to ledger `expiration_ledger` and 0 after it.
pub proof fn lemma_approve_then_allowance(
    m: StoreModel,
    next: StoreModel,
    signers: Seq<Principal>,
    from: Principal,
    spender: Principal,
    amount: i128,
    expiration_ledger: u32,
    sequence: u32,
)
    requires
        approve_error(m, signers, from, amount) is None,
        allowance_set(m, next, from, spender, AllowanceValue { amount, expiration_ledger }),
    ensures
        sequence <= expiration_ledger ==> live_allowance(next, sequence, from, spender) == amount,
        sequence > expiration_ledger ==> live_allowance(next, sequence, from, spender) == 0,
{
    assert(next.allowance(from, spender) == AllowanceValue { amount, expiration_ledger });
}

/// A transfer of `x` from `a` to `b` keeps `balance(a) + balance(b)`; where
/// `a` and `b` are different accounts, `a` loses `x` and `b` gains `x`.
pub proof fn lemma_transfer_conserves(
    m: StoreModel,
    next: StoreModel,
    a: Principal,
    b: Principal,
    x: int,
)
    requires
        balances_moved(m, next, Some(a), Some(b), x),
    ensures
        next.balance(a) + next.balance(b) == m.balance(a) + m.balance(b),
        a != b ==> next.balance(a) == m.balance(a) - x,
        a != b ==> next.balance(b) == m.balance(b) + x,
{
    assert(next.balance(a) == m.balance(a) - (if Some(a) == Some(a) { x } else { 0 }) + (if Some(
        b,
    ) == Some(a) {
        x
    } else {
        0
    }));
    assert(next.balance(b) == m.balance(b) - (if Some(a) == Some(b) { x } else { 0 }) + (if Some(
        b,
    ) == Some(b) {
        x
    } else {
        0
    }));
}

} // verus!
