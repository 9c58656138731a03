//! Accounting and pricing core of a custodial three-asset exchange.
//!
//! The pool holds reserves of a base asset and two quote assets, issues
//! liquidity shares against deposits valued at administrator-set rates, and
//! prices swaps between any pair of the three assets with a fixed 0.3% fee.
//! External collaborators (durable storage, caller authentication, custodial
//! transfers, event publication) are out of scope: callers authenticate
//! identities and move asset balances, while this crate decides, checks and
//! accounts.

pub mod exchange;
pub mod laws;
pub mod ledger;
pub mod pricing;

pub use exchange::DexError;
pub use exchange::StellarDex;
pub use ledger::LedgerEntry;
pub use pricing::fee;
