//! State-transition logic of two runtime pallets: a bounded accumulator that is
//! cleared on a fixed block schedule, and a token ledger with minting and
//! transfers. The host runtime authenticates callers, orders calls, persists the
//! store and forwards the deposited events; this crate decides what each call
//! does to the store.
use vstd::prelude::*;

pub mod config_constant;
pub mod mint_token;

verus! {

/// Identity of an account, already authenticated by the host.
pub type AccountId = u64;

/// The host's block counter.
pub type BlockNumber = u64;

/// Amount of tokens held by one account.
pub type Balance = u128;

} // verus!
