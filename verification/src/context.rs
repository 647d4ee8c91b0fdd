//! What an operation is handed: the program that runs it and the accounts it
//! may touch.

use crate::identity::Identity;
use vstd::prelude::*;

verus! {

/// An account as an operation sees it: its address, and whether its holder
/// has signed the transaction.
#[derive(Clone, Copy, Debug)]
pub struct AccountInfo {
    /// The address of the account.
    pub key: Identity,
    /// Whether the holder of the address has signed.
    pub is_signer: bool,
}

/// The program that is running and the accounts that it was handed.
#[derive(Debug)]
pub struct Context<T> {
    /// The identity of the program that is running.
    pub program_id: Identity,
    /// The accounts of the operation.
    pub accounts: T,
}

impl AccountInfo {
    /// An account whose holder has signed.
    pub fn signer(key: Identity) -> (info: AccountInfo)
        ensures
            info == (AccountInfo { key, is_signer: true }),
    {
        AccountInfo { key, is_signer: true }
    }

    /// An account whose holder has not signed.
    pub fn unsigned(key: Identity) -> (info: AccountInfo)
        ensures
            info == (AccountInfo { key, is_signer: false }),
    {
        AccountInfo { key, is_signer: false }
    }
}

} // verus!
