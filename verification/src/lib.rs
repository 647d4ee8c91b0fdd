//! Custodial fund management on a ledger platform: a pooled vault at a
//! derived address, and a smart wallet that borrows from the vault on behalf
//! of its owner and returns what is left.
//!
//! Every operation is a transition on a [`ledger::Ledger`], the part of the
//! platform's state that the operations read and write. An operation either
//! succeeds and changes the ledger as its contract says, or fails and leaves
//! the ledger as it was.
//!
//! - [`identity`]: the names of accounts and programs.
//! - [`derivation`]: addresses that a program derives from seeds, and the
//!   proof with which it signs for them.
//! - [`ledger`]: balances and records.
//! - [`instruction`] and [`invoke`]: what one program asks of another, and
//!   how the platform carries it out.
//! - [`vault`]: `initialize`, `deposit`, `withdraw`.
//! - [`smart_wallet`]: `initialize_wallet`, `execute_transaction`,
//!   `return_funds`.
//! - [`laws`]: what holds of the operations on every ledger.

pub mod context;
pub mod derivation;
pub mod error;
pub mod identity;
pub mod instruction;
pub mod invoke;
pub mod laws;
pub mod ledger;
pub mod smart_wallet;
pub mod vault;

pub use context::{AccountInfo, Context};
pub use derivation::{DerivedAddress, SigningProof};
pub use error::{Failure, PlatformError};
pub use identity::Identity;
pub use instruction::{AccountMeta, Instruction};
pub use ledger::{Account, AccountData, Ledger};
