//! The vault: one pooled balance at a derived address.
//!
//! Anyone may deposit. A withdrawal needs no signature and names any
//! recipient; it is refused only where it would leave the vault with less
//! than its rent-exempt minimum.

use crate::context::{AccountInfo, Context};
use crate::derivation::{check_derived, derivation_check, spec_vault_seeds, vault_seeds};
use crate::error::{is_outcome, Failure, PlatformError};
use crate::identity::{base58_address, Identity};
use crate::instruction::transfer;
use crate::invoke::{invoke, is_authorized};
use crate::ledger::{AccountData, Ledger, LedgerView};
use vstd::prelude::*;

verus! {

/// The identity under which the vault program is deployed, in base58.
pub const PROGRAM_ID: &'static str = "GArNcH5X1sQka24mZvrGuA3QqDhvE9CBe35ZugwNevoH";

/// The size of the vault's storage: the tag that says that the record
/// exists, and nothing else.
pub const VAULT_ACCOUNT_SPACE: usize = 8;

/// The tag that stands at the head of the vault's storage and says that the
/// record exists.
pub const VAULT_ACCOUNT_TAG: [u8; 8] = [230, 251, 241, 83, 139, 202, 93, 28];

/// The number by which an instruction to the vault program asks for the
/// vault's creation.
pub const INITIALIZE_OPCODE: u8 = 0;

/// The number by which an instruction to the vault program asks for a
/// deposit.
pub const DEPOSIT_OPCODE: u8 = 1;

/// The number by which an instruction to the vault program asks for a
/// withdrawal.
pub const WITHDRAW_OPCODE: u8 = 2;

/// The vault's record. It holds nothing: that the record exists is all it
/// says.
#[derive(Clone, Copy, Debug, PartialEq, Eq, Structural)]
pub struct VaultAccount {

}

/// Why the vault refuses an operation.
#[derive(Clone, Copy, Debug, PartialEq, Eq, Structural)]
pub enum ErrorCode {
    /// The withdrawal would leave the vault below its rent-exempt minimum.
    InsufficientFunds,
}

/// The accounts of `initialize`.
#[derive(Clone, Copy, Debug)]
pub struct Initialize {
    /// Who pays for the vault's creation, and signs.
    pub payer: AccountInfo,
    /// The vault.
    pub vault: AccountInfo,
}

/// The accounts of `deposit`.
#[derive(Clone, Copy, Debug)]
pub struct Deposit {
    /// Who deposits, and signs.
    pub depositor: AccountInfo,
    /// The vault.
    pub vault: AccountInfo,
}

/// The accounts of `withdraw`.
#[derive(Clone, Copy, Debug)]
pub struct Withdraw {
    /// The vault.
    pub vault: AccountInfo,
    /// Who receives: any address.
    pub recipient: AccountInfo,
}

impl Deposit {
    /// The accounts in the order in which they are handed on.
    pub open spec fn infos(self) -> Seq<AccountInfo> {
        seq![self.depositor, self.vault]
    }
}

impl VaultAccount {
    /// The bytes of the record as it is stored: the tag.
    pub open spec fn encoding(self) -> Seq<u8> {
        VAULT_ACCOUNT_TAG@
    }

    /// The record that storage holds, where it begins with the tag.
    pub open spec fn decoding(data: Seq<u8>) -> Option<VaultAccount> {
        if data.len() >= 8 && data.subrange(0, 8) == VAULT_ACCOUNT_TAG@ {
            Some(VaultAccount {  })
        } else {
            None
        }
    }

    /// The record as it is stored.
    pub fn to_bytes(&self) -> (data: Vec<u8>)
        ensures
            data@ == self.encoding(),
            VaultAccount::decoding(data@) == Some(*self),
    {
        let mut data: Vec<u8> = Vec::new();
        let mut i: usize = 0;
        while i < 8
            invariant
                i <= 8,
                data@ == VAULT_ACCOUNT_TAG@.subrange(0, i as int),
            decreases 8 - i,
        {
            data.push(VAULT_ACCOUNT_TAG[i]);
            assert(VAULT_ACCOUNT_TAG@.subrange(0, i + 1) =~= VAULT_ACCOUNT_TAG@.subrange(
                0,
                i as int,
            ).push(VAULT_ACCOUNT_TAG@[i as int]));
            i += 1;
        }
        assert(data@ =~= VAULT_ACCOUNT_TAG@);
        assert(data@.subrange(0, 8) =~= data@);
        data
    }

    /// Reads the record out of storage.
    pub fn from_bytes(data: &Vec<u8>) -> (record: Option<VaultAccount>)
        ensures
            record == VaultAccount::decoding(data@),
    {
        if data.len() < 8 {
            return None;
        }
        let mut i: usize = 0;
        while i < 8
            invariant
                i <= 8,
                data@.len() >= 8,
                forall|j: int| 0 <= j < i ==> data@[j] == VAULT_ACCOUNT_TAG@[j],
            decreases 8 - i,
        {
            if data[i] != VAULT_ACCOUNT_TAG[i] {
                assert(data@.subrange(0, 8)[i as int] == data@[i as int]);
                return None;
            }
            i += 1;
        }
        assert(data@.subrange(0, 8) =~= VAULT_ACCOUNT_TAG@);
        Some(VaultAccount {  })
    }
}

impl ErrorCode {
    /// The number under which the platform reports the error.
    pub fn code(&self) -> (code: u32)
        ensures
            code == 6000,
    {
        6000
    }

    /// The message that goes with the error.
    pub fn message(&self) -> (text: &'static str)
        ensures
            text@ == "Insufficient funds in the vault"@,
    {
        "Insufficient funds in the vault"
    }
}

/// The identity under which the vault program is deployed.
pub fn program_id() -> (id: Option<Identity>)
    ensures
        match id {
            Some(id) => base58_address(PROGRAM_ID@) == Some(id@),
            None => base58_address(PROGRAM_ID@) is None,
        },
{
    Identity::from_base58(PROGRAM_ID)
}

/// Whether `vault` is the address that `program` derives for its vault, and
/// the vault has been created there.
pub open spec fn vault_check(pre: LedgerView, program: Identity, vault: Identity) -> Result<
    (),
    Failure,
> {
    match derivation_check(spec_vault_seeds(), program, vault) {
        Err(e) => Err(Failure::Platform(e)),
        Ok(_) => if pre.data(vault) is Vault {
            Ok(())
        } else {
            Err(Failure::Platform(PlatformError::Aborted))
        },
    }
}

/// What `initialize` does to the ledger.
///
/// It is refused with `Aborted` where the payer has not signed, with a
/// derivation error where the vault is not at the program's derived address,
/// and with `AccountAlreadyInitialized` where a record exists there.
/// Otherwise the vault's record is created and nothing else changes.
pub open spec fn initialize_outcome(pre: LedgerView, ctx: Context<Initialize>) -> Result<
    LedgerView,
    Failure,
> {
    let vault = ctx.accounts.vault.key;
    if !ctx.accounts.payer.is_signer {
        Err(Failure::Platform(PlatformError::Aborted))
    } else {
        match derivation_check(spec_vault_seeds(), ctx.program_id, vault) {
            Err(e) => Err(Failure::Platform(e)),
            Ok(_) => if pre.data(vault) is Uninitialized {
                Ok(pre.store(vault, AccountData::Vault(VaultAccount {  })))
            } else {
                Err(Failure::Platform(PlatformError::AccountAlreadyInitialized))
            },
        }
    }
}

/// What `deposit` does to the ledger.
///
/// Where the vault is the program's and exists, the deposit succeeds exactly
/// when the depositor has signed and holds the amount; the amount then moves
/// from the depositor to the vault. Otherwise the platform gives up.
pub open spec fn deposit_outcome(pre: LedgerView, ctx: Context<Deposit>, amount: u64) -> Result<
    LedgerView,
    Failure,
> {
    let vault = ctx.accounts.vault.key;
    let depositor = ctx.accounts.depositor.key;
    match vault_check(pre, ctx.program_id, vault) {
        Err(e) => Err(e),
        Ok(_) => if is_authorized(depositor, ctx.accounts.infos(), None) && amount <= pre.balance(
            depositor,
        ) {
            Ok(pre.transfer(depositor, vault, amount as nat))
        } else {
            Err(Failure::Platform(PlatformError::Aborted))
        },
    }
}

/// What `withdraw` does to the ledger.
///
/// Where the vault is the program's and exists, the withdrawal succeeds
/// exactly when the vault holds the amount and its rent-exempt minimum
/// besides; the amount then moves from the vault to the recipient. Otherwise
/// it is refused with `InsufficientFunds`.
pub open spec fn withdraw_outcome(pre: LedgerView, ctx: Context<Withdraw>, amount: u64) -> Result<
    LedgerView,
    Failure,
> {
    let vault = ctx.accounts.vault.key;
    match vault_check(pre, ctx.program_id, vault) {
        Err(e) => Err(e),
        Ok(_) => if pre.balance(vault) < amount + pre.rent_exempt_min {
            Err(Failure::Vault(ErrorCode::InsufficientFunds))
        } else {
            Ok(pre.transfer(vault, ctx.accounts.recipient.key, amount as nat))
        },
    }
}

/// Holds the vault that was named against the program's derived address and
/// against the ledger.
fn check_vault(ledger: &Ledger, program: &Identity, vault: &Identity) -> (res: Result<
    (),
    Failure,
>)
    requires
        ledger.wf(),
    ensures
        res == vault_check(ledger@, *program, *vault),
{
    match check_derived(vault_seeds(), program, vault) {
        Err(e) => Err(Failure::Platform(e)),
        Ok(_) => match ledger.get_data(vault) {
            AccountData::Vault(_) => Ok(()),
            _ => Err(Failure::Platform(PlatformError::Aborted)),
        },
    }
}

/// Creates the vault at the address that the program derives from `"vault"`.
///
/// The payer has to sign. The vault can be created once: a second call is
/// refused with `AccountAlreadyInitialized`.
pub fn initialize(ledger: &mut Ledger, ctx: &Context<Initialize>) -> (res: Result<(), Failure>)
    requires
        old(ledger).wf(),
    ensures
        final(ledger).wf(),
        is_outcome(initialize_outcome(old(ledger)@, *ctx), old(ledger)@, res, final(ledger)@),
{
    if !ctx.accounts.payer.is_signer {
        return Err(Failure::Platform(PlatformError::Aborted));
    }
    match check_derived(vault_seeds(), &ctx.program_id, &ctx.accounts.vault.key) {
        Err(e) => Err(Failure::Platform(e)),
        Ok(_) => match ledger.create(
            &ctx.accounts.vault.key,
            AccountData::Vault(VaultAccount {  }),
        ) {
            Ok(()) => Ok(()),
            Err(e) => Err(Failure::Platform(e)),
        },
    }
}

/// Moves `amount` from the depositor to the vault, by a native transfer.
///
/// The depositor has to sign. What is deposited is pooled: the vault keeps
/// no account of who deposited what.
pub fn deposit(ledger: &mut Ledger, ctx: &Context<Deposit>, amount: u64) -> (res: Result<
    (),
    Failure,
>)
    requires
        old(ledger).wf(),
    ensures
        final(ledger).wf(),
        is_outcome(deposit_outcome(old(ledger)@, *ctx, amount), old(ledger)@, res, final(ledger)@),
{
    let vault = &ctx.accounts.vault.key;
    match check_vault(ledger, &ctx.program_id, vault) {
        Err(e) => {
            return Err(e);
        },
        Ok(()) => {},
    }
    let ix = transfer(&ctx.accounts.depositor.key, vault, amount);
    let account_infos = vec![ctx.accounts.depositor, ctx.accounts.vault];
    assert(account_infos@ =~= ctx.accounts.infos());
    invoke(ledger, &ctx.program_id, &ix, &account_infos)
}

/// Moves `amount` from the vault to the recipient.
///
/// No signature is asked for and any recipient is accepted. The withdrawal
/// is refused with `InsufficientFunds` unless the vault holds `amount` and
/// its rent-exempt minimum besides.
pub fn withdraw(ledger: &mut Ledger, ctx: &Context<Withdraw>, amount: u64) -> (res: Result<
    (),
    Failure,
>)
    requires
        old(ledger).wf(),
    ensures
        final(ledger).wf(),
        is_outcome(withdraw_outcome(old(ledger)@, *ctx, amount), old(ledger)@, res, final(ledger)@),
{
    let vault = &ctx.accounts.vault.key;
    match check_vault(ledger, &ctx.program_id, vault) {
        Err(e) => {
            return Err(e);
        },
        Ok(()) => {},
    }
    let vault_balance = ledger.get_balance(vault);
    let rent_exempt_min = ledger.rent_exempt_minimum();
    if vault_balance < amount || vault_balance - amount < rent_exempt_min {
        return Err(Failure::Vault(ErrorCode::InsufficientFunds));
    }
    match ledger.transfer(vault, &ctx.accounts.recipient.key, amount) {
        Ok(()) => Ok(()),
        Err(e) => Err(Failure::Platform(e)),
    }
}

} // verus!
