//! A fungible-token ledger with checked supply and balance bookkeeping, and a
//! custodial bridge that moves ledger funds in and out on the word of a single
//! configured authority.

pub mod bridge;
pub mod error;
pub mod identity;
pub mod laws;
pub mod ledger;
