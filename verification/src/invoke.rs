//! The call from one program into another.
//!
//! The platform lets a program call the native transfer and the vault
//! program. Before the callee runs, the platform makes sure that every
//! signature that the instruction asks for was given: by the holder of the
//! address, in the transaction, or by the calling program, for an address
//! that it derives, with a signing proof.

use crate::context::{AccountInfo, Context};
use crate::derivation::{SigningProof, SigningProofView};
use crate::error::{is_outcome, Failure, PlatformError};
use crate::identity::Identity;
use crate::instruction::{decode_transfer, transfer_amount, Instruction, InstructionView};
use crate::ledger::{Ledger, LedgerView};
use crate::smart_wallet::WithdrawArgs;
use crate::vault::{withdraw, withdraw_outcome, Withdraw, WITHDRAW_OPCODE};
use vstd::prelude::*;

verus! {

/// Whether `key` has signed: its holder did, in the transaction, or it is
/// the address that the calling program has proved to own.
pub open spec fn is_authorized(
    key: Identity,
    account_infos: Seq<AccountInfo>,
    proved: Option<Seq<u8>>,
) -> bool {
    ||| proved == Some(key@)
    ||| exists|j: int|
        0 <= j < account_infos.len() && (#[trigger] account_infos[j]).key == key
            && account_infos[j].is_signer
}

/// Whether every signature that the instruction asks for was given.
pub open spec fn signers_authorized(
    instruction: InstructionView,
    account_infos: Seq<AccountInfo>,
    proved: Option<Seq<u8>>,
) -> bool {
    forall|i: int|
        0 <= i < instruction.accounts.len() && (#[trigger] instruction.accounts[i]).is_signer
            ==> is_authorized(instruction.accounts[i].pubkey, account_infos, proved)
}

/// What the native program does with an instruction: a transfer from the
/// first account, which must sign and hold the amount, to the second.
/// Anything else is given up.
pub open spec fn native_outcome(pre: LedgerView, instruction: InstructionView) -> Result<
    LedgerView,
    Failure,
> {
    match transfer_amount(instruction.data) {
        Some(lamports) => if instruction.accounts.len() >= 2 && instruction.accounts[0].is_signer
            && lamports <= pre.balance(instruction.accounts[0].pubkey) {
            Ok(
                pre.transfer(
                    instruction.accounts[0].pubkey,
                    instruction.accounts[1].pubkey,
                    lamports as nat,
                ),
            )
        } else {
            Err(Failure::Platform(PlatformError::Aborted))
        },
        None => Err(Failure::Platform(PlatformError::Aborted)),
    }
}

/// The accounts that the vault program sees when it is called to withdraw:
/// the first account is the vault, the second the recipient.
pub open spec fn withdraw_accounts(instruction: InstructionView) -> Context<Withdraw> {
    Context {
        program_id: instruction.program_id,
        accounts: Withdraw {
            vault: AccountInfo {
                key: instruction.accounts[0].pubkey,
                is_signer: instruction.accounts[0].is_signer,
            },
            recipient: AccountInfo {
                key: instruction.accounts[1].pubkey,
                is_signer: instruction.accounts[1].is_signer,
            },
        },
    }
}

/// What the vault program does with an instruction from another program: a
/// withdrawal, where the payload asks for one and two accounts are named.
/// Anything else is given up.
pub open spec fn vault_outcome(pre: LedgerView, instruction: InstructionView) -> Result<
    LedgerView,
    Failure,
> {
    match WithdrawArgs::decoding(instruction.data) {
        Some(args) => if args.instruction == WITHDRAW_OPCODE && instruction.accounts.len() >= 2 {
            withdraw_outcome(pre, withdraw_accounts(instruction), args.amount)
        } else {
            Err(Failure::Platform(PlatformError::Aborted))
        },
        None => Err(Failure::Platform(PlatformError::Aborted)),
    }
}

/// What the program that the instruction names does with it. The platform
/// knows the native program and the vault program, and gives up on any
/// other.
pub open spec fn dispatch_outcome(pre: LedgerView, instruction: InstructionView) -> Result<
    LedgerView,
    Failure,
> {
    if instruction.program_id == Identity::system_program() {
        native_outcome(pre, instruction)
    } else if instruction.program_id == pre.vault_program {
        vault_outcome(pre, instruction)
    } else {
        Err(Failure::Platform(PlatformError::Aborted))
    }
}

/// What a call does to the ledger.
///
/// A signing proof that lets the caller sign for no address is refused with
/// `DerivationMismatch`. A call that asks for a signature that was not given
/// is given up. Otherwise the callee runs.
pub open spec fn invoke_outcome(
    pre: LedgerView,
    caller: Identity,
    instruction: InstructionView,
    account_infos: Seq<AccountInfo>,
    signing: Option<SigningProofView>,
) -> Result<LedgerView, Failure> {
    let proved = match signing {
        Some(p) => p.signs_for(caller),
        None => None,
    };
    if signing is Some && proved is None {
        Err(Failure::Platform(PlatformError::DerivationMismatch))
    } else if !signers_authorized(instruction, account_infos, proved) {
        Err(Failure::Platform(PlatformError::Aborted))
    } else {
        dispatch_outcome(pre, instruction)
    }
}

/// The bytes of a proved address, if there is one.
pub open spec fn proved_bytes(proved: Option<Identity>) -> Option<Seq<u8>> {
    match proved {
        Some(id) => Some(id@),
        None => None,
    }
}

/// Looks for the signature of `key`.
fn has_signed(key: &Identity, account_infos: &Vec<AccountInfo>, proved: &Option<Identity>) -> (ok:
    bool)
    ensures
        ok == is_authorized(*key, account_infos@, proved_bytes(*proved)),
{
    match proved {
        Some(id) => {
            proof {
                Identity::lemma_equal_by_bytes(*id, *key);
            }
            if *id == *key {
                return true;
            }
        },
        None => {},
    }
    let mut j: usize = 0;
    while j < account_infos.len()
        invariant
            j <= account_infos@.len(),
            forall|k: int|
                0 <= k < j ==> !((#[trigger] account_infos@[k]).key == *key
                    && account_infos@[k].is_signer),
        decreases account_infos@.len() - j,
    {
        if account_infos[j].is_signer && account_infos[j].key == *key {
            return true;
        }
        j += 1;
    }
    false
}

/// Looks for every signature that the instruction asks for.
fn all_signed(
    instruction: &Instruction,
    account_infos: &Vec<AccountInfo>,
    proved: &Option<Identity>,
) -> (ok: bool)
    ensures
        ok == signers_authorized(instruction@, account_infos@, proved_bytes(*proved)),
{
    let mut i: usize = 0;
    while i < instruction.accounts.len()
        invariant
            i <= instruction.accounts@.len(),
            forall|k: int|
                0 <= k < i && (#[trigger] instruction.accounts@[k]).is_signer ==> is_authorized(
                    instruction.accounts@[k].pubkey,
                    account_infos@,
                    proved_bytes(*proved),
                ),
        decreases instruction.accounts@.len() - i,
    {
        if instruction.accounts[i].is_signer && !has_signed(
            &instruction.accounts[i].pubkey,
            account_infos,
            proved,
        ) {
            assert(instruction@.accounts[i as int].is_signer);
            return false;
        }
        i += 1;
    }
    true
}

/// Runs the native program on an instruction.
fn run_native(ledger: &mut Ledger, instruction: &Instruction) -> (res: Result<(), Failure>)
    requires
        old(ledger).wf(),
    ensures
        final(ledger).wf(),
        is_outcome(native_outcome(old(ledger)@, instruction@), old(ledger)@, res, final(ledger)@),
{
    match decode_transfer(&instruction.data) {
        Some(lamports) => {
            if instruction.accounts.len() < 2 || !instruction.accounts[0].is_signer {
                return Err(Failure::Platform(PlatformError::Aborted));
            }
            match ledger.transfer(
                &instruction.accounts[0].pubkey,
                &instruction.accounts[1].pubkey,
                lamports,
            ) {
                Ok(()) => Ok(()),
                Err(e) => Err(Failure::Platform(e)),
            }
        },
        None => Err(Failure::Platform(PlatformError::Aborted)),
    }
}

/// Runs the vault program on an instruction from another program.
fn run_vault(ledger: &mut Ledger, instruction: &Instruction) -> (res: Result<(), Failure>)
    requires
        old(ledger).wf(),
    ensures
        final(ledger).wf(),
        is_outcome(vault_outcome(old(ledger)@, instruction@), old(ledger)@, res, final(ledger)@),
{
    match WithdrawArgs::from_bytes(&instruction.data) {
        Some(args) => {
            if args.instruction != WITHDRAW_OPCODE || instruction.accounts.len() < 2 {
                return Err(Failure::Platform(PlatformError::Aborted));
            }
            let ctx = Context {
                program_id: instruction.program_id,
                accounts: Withdraw {
                    vault: AccountInfo {
                        key: instruction.accounts[0].pubkey,
                        is_signer: instruction.accounts[0].is_signer,
                    },
                    recipient: AccountInfo {
                        key: instruction.accounts[1].pubkey,
                        is_signer: instruction.accounts[1].is_signer,
                    },
                },
            };
            withdraw(ledger, &ctx, args.amount)
        },
        None => Err(Failure::Platform(PlatformError::Aborted)),
    }
}

/// Hands the instruction to the program that it names.
fn dispatch(ledger: &mut Ledger, instruction: &Instruction) -> (res: Result<(), Failure>)
    requires
        old(ledger).wf(),
    ensures
        final(ledger).wf(),
        is_outcome(dispatch_outcome(old(ledger)@, instruction@), old(ledger)@, res, final(ledger)@),
{
    if instruction.program_id == Identity::system() {
        run_native(ledger, instruction)
    } else if instruction.program_id == ledger.vault_program() {
        run_vault(ledger, instruction)
    } else {
        Err(Failure::Platform(PlatformError::Aborted))
    }
}

/// Calls the program that `instruction` names, on behalf of `caller`, with
/// the signatures of the transaction alone.
pub fn invoke(
    ledger: &mut Ledger,
    caller: &Identity,
    instruction: &Instruction,
    account_infos: &Vec<AccountInfo>,
) -> (res: Result<(), Failure>)
    requires
        old(ledger).wf(),
    ensures
        final(ledger).wf(),
        is_outcome(
            invoke_outcome(old(ledger)@, *caller, instruction@, account_infos@, None),
            old(ledger)@,
            res,
            final(ledger)@,
        ),
{
    if !all_signed(instruction, account_infos, &None) {
        return Err(Failure::Platform(PlatformError::Aborted));
    }
    dispatch(ledger, instruction)
}

/// Calls the program that `instruction` names, on behalf of `caller`, which
/// signs for the address that `signing` shows it to own.
pub fn invoke_signed(
    ledger: &mut Ledger,
    caller: &Identity,
    instruction: &Instruction,
    account_infos: &Vec<AccountInfo>,
    signing: &SigningProof,
) -> (res: Result<(), Failure>)
    requires
        old(ledger).wf(),
    ensures
        final(ledger).wf(),
        is_outcome(
            invoke_outcome(old(ledger)@, *caller, instruction@, account_infos@, Some(signing@)),
            old(ledger)@,
            res,
            final(ledger)@,
        ),
{
    let proved = signing.signer(caller);
    if proved.is_none() {
        return Err(Failure::Platform(PlatformError::DerivationMismatch));
    }
    if !all_signed(instruction, account_infos, &proved) {
        return Err(Failure::Platform(PlatformError::Aborted));
    }
    dispatch(ledger, instruction)
}

} // verus!
