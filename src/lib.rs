pub mod storage_types;
pub mod balance;
pub mod allowance;
pub mod freeze;
pub mod store;
pub mod admin;
pub mod metadata;
pub mod contract;
pub mod laws;
