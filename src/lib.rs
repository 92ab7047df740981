//! A supply-capped token and a randomness-driven lottery that pays its
//! winner in that token, as verified state machines.
//!
//! Values are plain: 256-bit words (`uint::U256`), 20-byte addresses
//! (`address::Address`). Calls to other contracts are not made here: the
//! lottery's methods decide what to send and take back what came of it.

pub mod address;
pub mod draw;
pub mod ledger;
pub mod ownable;
pub mod proxy;
pub mod requests;
pub mod token;
pub mod uint;
pub mod vrf;
