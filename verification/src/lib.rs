//! Commitment-based escrow with per-account privacy flags.
//!
//! A depositor locks tokens under a 32-byte commitment to
//! (owner, amount, salt). Whoever can open the commitment may withdraw;
//! after a timeout the depositor may take a refund instead. The contract's
//! state is an explicit [`storage::Ledger`] value that every operation takes.

pub mod commitment;
pub mod contract;
pub mod encoding;
pub mod errors;
pub mod escrow;
pub mod events;
pub mod guarantees;
pub mod hash;
pub mod privacy;
pub mod silver;
pub mod storage;
pub mod table;
pub mod types;

pub use contract::QuickexContract;
pub use errors::QuickexError;
pub use storage::Ledger;
pub use types::{AccountId, EscrowEntry, EscrowStatus, PrivacyAwareEscrowView};
