use vstd::prelude::*;
use crate::store::{Store, StoreModel};
use crate::storage_types::TokenMetadata;

verus! {

/// The number of decimals; 0 before the token is initialized.
pub fn read_decimal(store: &Store) -> (r: u32)
    ensures
        r == match store@.metadata {
            Some(m) => m.decimal,
            None => 0,
        },
{
    match &store.metadata {
        Some(m) => m.decimal,
        None => 0,
    }
}

/// The token's name; empty before the token is initialized.
pub fn read_name(store: &Store) -> (r: String)
    ensures
        r@ == match store@.metadata {
            Some(m) => m.name,
            None => Seq::<char>::empty(),
        },
{
    match &store.metadata {
        Some(m) => m.name.clone(),
        None => String::new(),
    }
}

/// The token's symbol; empty before the token is initialized.
pub fn read_symbol(store: &Store) -> (r: String)
    ensures
        r@ == match store@.metadata {
            Some(m) => m.symbol,
            None => Seq::<char>::empty(),
        },
{
    match &store.metadata {
        Some(m) => m.symbol.clone(),
        None => String::new(),
    }
}

/// Records the token's metadata.
pub fn write_metadata(store: &mut Store, metadata: TokenMetadata)
    ensures
        final(store)@ == (StoreModel { metadata: Some(metadata@), ..old(store)@ }),
{
    store.metadata = Some(metadata);
}

} // verus!
