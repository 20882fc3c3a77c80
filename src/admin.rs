use vstd::prelude::*;
use crate::store::{Store, StoreModel};
use crate::storage_types::{is_authorized, Context, Principal, TokenError, TokenState};

verus! {

/// Whether an administrator has been recorded, that is, whether the token
/// has been initialized.
pub fn has_administrator(store: &Store) -> (r: bool)
    ensures
        r == store@.admin is Some,
{
    store.admin.is_some()
}

/// The current administrator.
pub fn read_administrator(store: &Store) -> (r: Result<Principal, TokenError>)
    ensures
        r == match store@.admin {
            Some(a) => Ok::<Principal, TokenError>(a),
            None => Err(TokenError::Uninitialized),
        },
{
    match store.admin {
        Some(a) => Ok(a),
        None => Err(TokenError::Uninitialized),
    }
}

/// Records `id` as the administrator.
pub fn write_administrator(store: &mut Store, id: Principal)
    ensures
        final(store)@ == (StoreModel { admin: Some(id), ..old(store)@ }),
{
    store.admin = Some(id);
}

/// The supply counters and capability flags.
pub fn read_state(store: &Store) -> (r: Result<TokenState, TokenError>)
    ensures
        r == match store@.state {
            Some(s) => Ok::<TokenState, TokenError>(s),
            None => Err(TokenError::Uninitialized),
        },
{
    match store.state {
        Some(s) => Ok(s),
        None => Err(TokenError::Uninitialized),
    }
}

/// Replaces the supply counters and capability flags.
pub fn write_state(store: &mut Store, state: TokenState)
    ensures
        final(store)@ == (StoreModel { state: Some(state), ..old(store)@ }),
{
    store.state = Some(state);
}

/// Succeeds when the current administrator authorized the invocation.
pub fn check_admin(store: &Store, ctx: &Context) -> (r: Result<(), TokenError>)
    ensures
        r == match store@.admin {
            Some(a) => if ctx.signers@.contains(a) {
                Ok::<(), TokenError>(())
            } else {
                Err(TokenError::AuthorizationFailed)
            },
            None => Err(TokenError::Uninitialized),
        },
{
    let admin = read_administrator(store)?;
    if is_authorized(ctx, admin) {
        Ok(())
    } else {
        Err(TokenError::AuthorizationFailed)
    }
}

} // verus!
