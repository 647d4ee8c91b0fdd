//! The ways in which an operation can fail.

use crate::ledger::LedgerView;
use crate::smart_wallet::WalletError;
use crate::vault::ErrorCode;
use vstd::prelude::*;

verus! {

/// A failure that the platform reports, whichever program is running.
#[derive(Clone, Copy, Debug, PartialEq, Eq, Structural)]
pub enum PlatformError {
    /// No bump yields an address that no key can sign for.
    DerivationExhausted,
    /// An address, or the seeds of a signing proof, do not match the
    /// derivation that was expected.
    DerivationMismatch,
    /// The account that was to be created exists already.
    AccountAlreadyInitialized,
    /// The platform gave up on the operation: a balance would have gone below
    /// zero or above what the platform can hold, a signature that was needed
    /// is missing, an account that was to be read holds no record, or an
    /// instruction cannot be made sense of.
    Aborted,
}

/// Why an operation failed.
#[derive(Clone, Copy, Debug, PartialEq, Eq, Structural)]
pub enum Failure {
    /// The vault refused.
    Vault(ErrorCode),
    /// The wallet refused.
    Wallet(WalletError),
    /// The platform refused.
    Platform(PlatformError),
}

/// What an operation's result and the ledger after it must be, given what
/// the operation is to do: on success the ledger that was computed, on
/// failure the error and the ledger as it was. No operation is carried out
/// in part.
pub open spec fn is_outcome(
    outcome: Result<LedgerView, Failure>,
    pre: LedgerView,
    res: Result<(), Failure>,
    post: LedgerView,
) -> bool {
    match outcome {
        Ok(next) => res is Ok && post == next,
        Err(e) => res == Err::<(), Failure>(e) && post == pre,
    }
}

} // verus!
