//! An ERC-721 style non-fungible token ledger: the named-key layout of the
//! token contract, its entry points as a verified state machine, and the
//! per-request decisions that a host adapter performs against contract storage.
#![allow(non_snake_case)]

pub mod account;
pub mod uint;
pub mod keys;
pub mod assoc;
pub mod error;
pub mod state;
pub mod decide;
pub mod token;
pub mod contract;
pub mod laws;
pub mod install;
