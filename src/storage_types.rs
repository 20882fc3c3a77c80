use vstd::prelude::*;

verus! {

/// An account identifier. Two principals are the same account exactly when
/// their ids are equal.
#[derive(Clone, Copy, PartialEq, Eq, Structural, Debug, Hash)]
pub struct Principal {
    pub id: u64,
}

/// A delegated spending permission: what is left of it, and the last ledger
/// sequence number at which it may still be used.
#[derive(Clone, Copy, PartialEq, Eq, Structural, Debug)]
pub struct AllowanceValue {
    pub amount: i128,
    pub expiration_ledger: u32,
}

/// The key of an allowance: the owner of the funds and the spender.
#[derive(Clone, Copy, PartialEq, Eq, Structural, Debug, Hash)]
pub struct AllowanceDataKey {
    pub from: Principal,
    pub spender: Principal,
}

/// Descriptive data fixed when the token is created.
#[derive(Clone, Debug)]
pub struct TokenMetadata {
    pub decimal: u32,
    pub name: String,
    pub symbol: String,
}

/// What the contracts know of a `TokenMetadata`.
pub struct MetadataModel {
    pub decimal: u32,
    pub name: Seq<char>,
    pub symbol: Seq<char>,
}

impl View for TokenMetadata {
    type V = MetadataModel;

    open spec fn view(&self) -> MetadataModel {
        MetadataModel { decimal: self.decimal, name: self.name@, symbol: self.symbol@ }
    }
}

/// Supply counters and capability flags of the token.
#[derive(Clone, Copy, PartialEq, Eq, Structural, Debug)]
pub struct TokenState {
    pub admin: Principal,
    pub total_supply: i128,
    pub max_supply: Option<i128>,
    pub is_mintable: bool,
    pub is_burnable: bool,
    pub is_freezable: bool,
    pub is_frozen: bool,
}

/// Why the freeze gate stops an operation, if it does.
#[derive(Clone, Copy, PartialEq, Eq, Structural, Debug)]
pub enum FrozenStatus {
    NotFrozen,
    GloballyFrozen,
    AccountFrozen(Principal),
}

/// The reasons for which an operation fails. A failed operation leaves the
/// store as it was.
#[derive(Clone, Copy, PartialEq, Eq, Structural, Debug)]
pub enum TokenError {
    Uninitialized,
    AlreadyInitialized,
    AuthorizationFailed,
    NotMintable,
    NotBurnable,
    NotFreezable,
    GloballyFrozen,
    AccountFrozen,
    MaxSupplyExceeded,
    InsufficientBalance,
    InsufficientAllowance,
    AllowanceExpired,
    InvalidAmount,
    ArithmeticOverflow,
}

/// What a successful mutating operation publishes.
#[derive(Clone, Copy, PartialEq, Eq, Structural, Debug)]
pub enum Event {
    Mint { to: Principal, amount: i128 },
    Burn { from: Principal, amount: i128 },
    Freeze { account: Principal },
    Unfreeze { account: Principal },
    SetFrozen { frozen: bool },
    SetAdmin { new_admin: Principal },
    Approve { from: Principal, spender: Principal, amount: i128, expiration_ledger: u32 },
    Transfer { from: Principal, to: Principal, amount: i128 },
}

/// What the host supplies to one invocation: the principals that proved
/// control of themselves, and the current ledger sequence number.
#[derive(Clone, Debug)]
pub struct Context {
    pub signers: Vec<Principal>,
    pub ledger_sequence: u32,
}

/// Whether `p` authorized the current invocation.
pub fn is_authorized(ctx: &Context, p: Principal) -> (r: bool)
    ensures
        r == ctx.signers@.contains(p),
{
    let mut i: usize = 0;
    while i < ctx.signers.len()
        invariant
            i <= ctx.signers@.len(),
            forall|j: int| 0 <= j < i ==> ctx.signers@[j] != p,
        decreases ctx.signers@.len() - i,
    {
        if ctx.signers[i] == p {
            return true;
        }
        i = i + 1;
    }
    false
}

} // verus!
