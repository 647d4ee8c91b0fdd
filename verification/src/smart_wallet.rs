//! The smart wallet: borrows from the vault for its owner, and gives back.

use crate::context::{AccountInfo, Context};
use crate::derivation::{
    check_derived, derivation_check, derived_address, spec_vault_seeds,
    spec_wallet_account_seeds, spec_wallet_seeds, vault_seeds, wallet_account_seeds,
    wallet_seeds, SigningProof, SigningProofView,
};
use crate::error::{is_outcome, Failure, PlatformError};
use crate::identity::{base58_address, Identity};
use crate::instruction::{transfer, transfer_instruction, AccountMeta, Instruction, InstructionView};
use crate::invoke::invoke_signed;
use crate::ledger::{AccountData, Ledger, LedgerView};
use crate::vault::{withdraw_outcome, Withdraw, WITHDRAW_OPCODE};
use vstd::bytes::spec_u64_from_le_bytes;
use vstd::bytes::spec_u64_to_le_bytes;
use vstd::bytes::u64_from_le_bytes;
use vstd::bytes::u64_to_le_bytes;
use vstd::prelude::*;

verus! {

/// The identity under which the wallet program is deployed, in base58.
pub const PROGRAM_ID: &'static str = "9RS7omQopJpsW3uYiCfxoTboEBtxo6a6o5GB5GCvmzUi";

/// The identity of the vault program that the wallet program calls, in
/// base58.
pub const VAULT_PROGRAM_ID: &'static str = "GArNcH5X1sQka24mZvrGuA3QqDhvE9CBe35ZugwNevoH";

/// The size of a wallet's storage: the tag that says that the record
/// exists, then the three identities of the record.
pub const WALLET_ACCOUNT_SPACE: usize = 8 + 32 + 32 + 32;

/// The tag that stands at the head of a wallet's storage and says that the
/// record exists.
pub const WALLET_ACCOUNT_TAG: [u8; 8] = [158, 98, 171, 153, 212, 64, 242, 213];

/// The number by which an instruction to the wallet program asks for a
/// wallet's creation.
pub const INITIALIZE_WALLET_OPCODE: u8 = 0;

/// The number by which an instruction to the wallet program asks to borrow
/// from the vault.
pub const EXECUTE_TRANSACTION_OPCODE: u8 = 1;

/// The number by which an instruction to the wallet program asks to give
/// back to the vault.
pub const RETURN_FUNDS_OPCODE: u8 = 2;

/// The record of one owner's wallet. It is written once, when the wallet is
/// created, and never changed.
#[derive(Clone, Copy, Debug)]
pub struct WalletAccount {
    /// The owner, who alone may drive this wallet.
    pub owner: Identity,
    /// The identity of the vault program.
    pub vault_program: Identity,
    /// The derived address of the vault.
    pub vault_pda: Identity,
}

/// The payload of an instruction: which operation of the program that is
/// called, and the amount. It is what the wallet program sends to the vault
/// program to withdraw.
#[derive(Clone, Copy, Debug, PartialEq, Eq, Structural)]
pub struct WithdrawArgs {
    /// The number of the operation.
    pub instruction: u8,
    /// The amount.
    pub amount: u64,
}

/// Why the wallet refuses an operation.
#[derive(Clone, Copy, Debug, PartialEq, Eq, Structural)]
pub enum WalletError {
    /// The caller has not signed, or is not the wallet's owner.
    InvalidOwner,
    /// The vault that was named is not the one the wallet records.
    InvalidVaultAccount,
}

/// The accounts of `initialize_wallet`.
#[derive(Clone, Copy, Debug)]
pub struct InitializeWallet {
    /// The owner, who signs.
    pub owner: AccountInfo,
    /// Where the wallet's record is to be created.
    pub wallet: AccountInfo,
    /// The address from which the wallet will spend.
    pub wallet_pda: AccountInfo,
}

/// The accounts of `execute_transaction`.
#[derive(Clone, Copy, Debug)]
pub struct ExecuteTransaction {
    /// Where the wallet's record is.
    pub wallet: AccountInfo,
    /// The address from which the wallet spends.
    pub wallet_pda: AccountInfo,
    /// The vault.
    pub vault: AccountInfo,
    /// The caller, who has to be the owner and has to sign.
    pub owner: AccountInfo,
}

/// The accounts of `return_funds`.
#[derive(Clone, Copy, Debug)]
pub struct ReturnFunds {
    /// Where the wallet's record is.
    pub wallet: AccountInfo,
    /// The address from which the wallet spends.
    pub wallet_pda: AccountInfo,
    /// The vault.
    pub vault: AccountInfo,
    /// The caller, who has to be the owner and has to sign.
    pub owner: AccountInfo,
}

/// A call that the wallet program is about to make: the instruction, the
/// accounts that go with it, and the proof with which the program signs.
#[derive(Debug)]
pub struct SignedCall {
    /// The instruction.
    pub instruction: Instruction,
    /// The accounts, as the wallet program was handed them.
    pub account_infos: Vec<AccountInfo>,
    /// The proof that the wallet program owns the address it signs for.
    pub signing: SigningProof,
}

/// A signed call as a mathematical value.
pub struct SignedCallView {
    pub instruction: InstructionView,
    pub account_infos: Seq<AccountInfo>,
    pub signing: SigningProofView,
}

impl View for SignedCall {
    type V = SignedCallView;

    open spec fn view(&self) -> SignedCallView {
        SignedCallView {
            instruction: self.instruction@,
            account_infos: self.account_infos@,
            signing: self.signing@,
        }
    }
}

impl WalletAccount {
    /// The bytes of the record as it is stored: the tag, the owner, the
    /// vault program and the vault's address.
    pub open spec fn encoding(self) -> Seq<u8> {
        WALLET_ACCOUNT_TAG@ + self.owner@ + self.vault_program@ + self.vault_pda@
    }

    /// The record that storage holds, where it begins with the tag and is
    /// long enough for the three identities.
    pub open spec fn decoding(data: Seq<u8>) -> Option<WalletAccount> {
        if data.len() >= 104 && data.subrange(0, 8) == WALLET_ACCOUNT_TAG@ {
            Some(
                WalletAccount {
                    owner: Identity::of_bytes(data.subrange(8, 40)),
                    vault_program: Identity::of_bytes(data.subrange(40, 72)),
                    vault_pda: Identity::of_bytes(data.subrange(72, 104)),
                },
            )
        } else {
            None
        }
    }

    /// What was stored is what is read.
    pub proof fn lemma_round_trip(self)
        ensures
            self.encoding().len() == 104,
            WalletAccount::decoding(self.encoding()) == Some(self),
    {
        let data = self.encoding();
        assert(data.subrange(0, 8) =~= WALLET_ACCOUNT_TAG@);
        assert(data.subrange(8, 40) =~= self.owner@);
        assert(data.subrange(40, 72) =~= self.vault_program@);
        assert(data.subrange(72, 104) =~= self.vault_pda@);
        Identity::lemma_of_bytes(self.owner);
        Identity::lemma_of_bytes(self.vault_program);
        Identity::lemma_of_bytes(self.vault_pda);
    }

    /// The record as it is stored.
    pub fn to_bytes(&self) -> (data: Vec<u8>)
        ensures
            data@ == self.encoding(),
            WalletAccount::decoding(data@) == Some(*self),
    {
        let mut data: Vec<u8> = Vec::new();
        let mut i: usize = 0;
        while i < 8
            invariant
                i <= 8,
                data@ == WALLET_ACCOUNT_TAG@.subrange(0, i as int),
            decreases 8 - i,
        {
            data.push(WALLET_ACCOUNT_TAG[i]);
            assert(WALLET_ACCOUNT_TAG@.subrange(0, i + 1) =~= WALLET_ACCOUNT_TAG@.subrange(
                0,
                i as int,
            ).push(WALLET_ACCOUNT_TAG@[i as int]));
            i += 1;
        }
        assert(data@ =~= WALLET_ACCOUNT_TAG@);
        let mut owner = self.owner.to_seed();
        let mut vault_program = self.vault_program.to_seed();
        let mut vault_pda = self.vault_pda.to_seed();
        data.append(&mut owner);
        data.append(&mut vault_program);
        data.append(&mut vault_pda);
        proof {
            assert(data@ =~= self.encoding());
            self.lemma_round_trip();
        }
        data
    }

    /// Reads the record out of storage.
    pub fn from_bytes(data: &Vec<u8>) -> (record: Option<WalletAccount>)
        ensures
            record == WalletAccount::decoding(data@),
    {
        if data.len() < 104 {
            return None;
        }
        let mut i: usize = 0;
        while i < 8
            invariant
                i <= 8,
                data@.len() >= 104,
                forall|j: int| 0 <= j < i ==> data@[j] == WALLET_ACCOUNT_TAG@[j],
            decreases 8 - i,
        {
            if data[i] != WALLET_ACCOUNT_TAG[i] {
                assert(data@.subrange(0, 8)[i as int] == data@[i as int]);
                return None;
            }
            i += 1;
        }
        assert(data@.subrange(0, 8) =~= WALLET_ACCOUNT_TAG@);
        Some(
            WalletAccount {
                owner: Identity::from_slice(data, 8),
                vault_program: Identity::from_slice(data, 40),
                vault_pda: Identity::from_slice(data, 72),
            },
        )
    }
}

impl WalletError {
    /// The number under which the platform reports the error.
    pub fn code(&self) -> (code: u32)
        ensures
            code == (match *self {
                WalletError::InvalidOwner => 6000u32,
                WalletError::InvalidVaultAccount => 6001u32,
            }),
    {
        match self {
            WalletError::InvalidOwner => 6000,
            WalletError::InvalidVaultAccount => 6001,
        }
    }

    /// The message that goes with the error.
    pub fn message(&self) -> (text: &'static str)
        ensures
            text@ == (match *self {
                WalletError::InvalidOwner => "Invalid owner for this wallet"@,
                WalletError::InvalidVaultAccount => "Invalid vault account"@,
            }),
    {
        match self {
            WalletError::InvalidOwner => "Invalid owner for this wallet",
            WalletError::InvalidVaultAccount => "Invalid vault account",
        }
    }
}

impl WithdrawArgs {
    /// The bytes of the payload: the operation's number, then the amount in
    /// eight bytes, lowest first.
    pub open spec fn encoding(self) -> Seq<u8> {
        seq![self.instruction] + spec_u64_to_le_bytes(self.amount)
    }

    /// The payload that `data` holds, where it is nine bytes long.
    pub open spec fn decoding(data: Seq<u8>) -> Option<WithdrawArgs> {
        if data.len() == 9 {
            Some(
                WithdrawArgs {
                    instruction: data[0],
                    amount: spec_u64_from_le_bytes(data.subrange(1, 9)),
                },
            )
        } else {
            None
        }
    }

    /// What was encoded is what decodes.
    pub proof fn lemma_round_trip(self)
        ensures
            WithdrawArgs::decoding(self.encoding()) == Some(self),
    {
        vstd::bytes::lemma_auto_spec_u64_to_from_le_bytes();
        assert(self.encoding().subrange(1, 9) =~= spec_u64_to_le_bytes(self.amount));
    }

    /// What decodes was encoded: no two byte strings hold one payload.
    pub proof fn lemma_decoding_is_exact(data: Seq<u8>)
        ensures
            WithdrawArgs::decoding(data) matches Some(args) ==> args.encoding() == data,
    {
        vstd::bytes::lemma_auto_spec_u64_to_from_le_bytes();
        if data.len() == 9 {
            let args = WithdrawArgs::decoding(data)->0;
            assert(spec_u64_to_le_bytes(args.amount) == data.subrange(1, 9));
            assert(args.encoding() =~= data);
        }
    }

    /// Encodes the payload.
    pub fn to_bytes(&self) -> (data: Vec<u8>)
        ensures
            data@ == self.encoding(),
    {
        let mut data: Vec<u8> = Vec::new();
        data.push(self.instruction);
        let mut amount = u64_to_le_bytes(self.amount);
        data.append(&mut amount);
        assert(data@ =~= self.encoding());
        data
    }

    /// Decodes a payload. Every payload is nine bytes long.
    pub fn from_bytes(data: &Vec<u8>) -> (args: Option<WithdrawArgs>)
        ensures
            args == WithdrawArgs::decoding(data@),
    {
        if data.len() != 9 {
            return None;
        }
        let mut amount: Vec<u8> = Vec::new();
        let mut i: usize = 1;
        while i < 9
            invariant
                1 <= i <= 9,
                data@.len() == 9,
                amount@ == data@.subrange(1, i as int),
            decreases 9 - i,
        {
            amount.push(data[i]);
            assert(data@.subrange(1, i + 1) =~= data@.subrange(1, i as int).push(data@[i as int]));
            i += 1;
        }
        Some(WithdrawArgs { instruction: data[0], amount: u64_from_le_bytes(amount.as_slice()) })
    }
}

/// The identity under which the wallet program is deployed.
pub fn program_id() -> (id: Option<Identity>)
    ensures
        match id {
            Some(id) => base58_address(PROGRAM_ID@) == Some(id@),
            None => base58_address(PROGRAM_ID@) is None,
        },
{
    Identity::from_base58(PROGRAM_ID)
}

/// The identity of the vault program that the wallet program calls.
pub fn vault_program_id() -> (id: Option<Identity>)
    ensures
        match id {
            Some(id) => base58_address(VAULT_PROGRAM_ID@) == Some(id@),
            None => base58_address(VAULT_PROGRAM_ID@) is None,
        },
{
    Identity::from_base58(VAULT_PROGRAM_ID)
}

/// The instruction that asks the vault program to withdraw `amount` into the
/// wallet's spending address: the vault and the spending address may change,
/// the owner signs, the native program is named last, and the payload is the
/// withdraw operation with the amount.
pub open spec fn withdraw_instruction(
    vault_program: Identity,
    vault: Identity,
    wallet_pda: Identity,
    owner: Identity,
    amount: u64,
) -> InstructionView {
    InstructionView {
        program_id: vault_program,
        accounts: seq![
            AccountMeta { pubkey: vault, is_signer: false, is_writable: true },
            AccountMeta { pubkey: wallet_pda, is_signer: false, is_writable: true },
            AccountMeta { pubkey: owner, is_signer: true, is_writable: false },
            AccountMeta {
                pubkey: Identity::system_program(),
                is_signer: false,
                is_writable: false,
            },
        ],
        data: (WithdrawArgs { instruction: WITHDRAW_OPCODE, amount }).encoding(),
    }
}

/// Whether the caller may drive the wallet with these accounts, and the
/// bump of the wallet's spending address where it may.
///
/// The caller has to have signed and to be the wallet's owner, else
/// `InvalidOwner`. The vault has to be the one that the wallet records, else
/// `InvalidVaultAccount`. The spending address has to be the one that the
/// wallet program derives from `"wallet"` and the owner, else a derivation
/// error.
pub open spec fn authorization(
    wallet: WalletAccount,
    program: Identity,
    owner: AccountInfo,
    vault: Identity,
    wallet_pda: Identity,
) -> Result<u8, Failure> {
    if !(owner.is_signer && owner.key == wallet.owner) {
        Err(Failure::Wallet(WalletError::InvalidOwner))
    } else if vault != wallet.vault_pda {
        Err(Failure::Wallet(WalletError::InvalidVaultAccount))
    } else {
        match derivation_check(spec_wallet_seeds(owner.key), program, wallet_pda) {
            Err(e) => Err(Failure::Platform(e)),
            Ok(bump) => Ok(bump),
        }
    }
}

/// The proof with which `program` signs for the spending address of
/// `owner`'s wallet.
pub open spec fn wallet_signing(program: Identity, owner: Identity, bump: u8) -> SigningProofView {
    SigningProofView { seeds: spec_wallet_seeds(owner), bump, program }
}

/// The call that `execute_transaction` makes, or why it makes none.
pub open spec fn execute_transaction_call(
    wallet: WalletAccount,
    ctx: Context<ExecuteTransaction>,
    amount: u64,
) -> Result<SignedCallView, Failure> {
    let a = ctx.accounts;
    match authorization(wallet, ctx.program_id, a.owner, a.vault.key, a.wallet_pda.key) {
        Err(e) => Err(e),
        Ok(bump) => Ok(
            SignedCallView {
                instruction: withdraw_instruction(
                    wallet.vault_program,
                    a.vault.key,
                    a.wallet_pda.key,
                    a.owner.key,
                    amount,
                ),
                account_infos: seq![a.vault, a.wallet_pda, a.owner],
                signing: wallet_signing(ctx.program_id, a.owner.key, bump),
            },
        ),
    }
}

/// The call that `return_funds` makes, or why it makes none.
pub open spec fn return_funds_call(
    wallet: WalletAccount,
    ctx: Context<ReturnFunds>,
    amount: u64,
) -> Result<SignedCallView, Failure> {
    let a = ctx.accounts;
    match authorization(wallet, ctx.program_id, a.owner, a.vault.key, a.wallet_pda.key) {
        Err(e) => Err(e),
        Ok(bump) => Ok(
            SignedCallView {
                instruction: transfer_instruction(a.wallet_pda.key, a.vault.key, amount),
                account_infos: seq![a.wallet_pda, a.vault],
                signing: wallet_signing(ctx.program_id, a.owner.key, bump),
            },
        ),
    }
}

/// What `initialize_wallet` does to the ledger.
///
/// It is given up where the owner has not signed, and refused with a
/// derivation error where the record's address or the spending address is
/// not the one that the wallet program derives for the owner, or where the
/// vault program derives no address for its vault. It is refused with
/// `AccountAlreadyInitialized` where the record exists. Otherwise the record
/// is created, with the owner, the vault program and the vault's derived
/// address, and nothing else changes.
pub open spec fn initialize_wallet_outcome(
    pre: LedgerView,
    ctx: Context<InitializeWallet>,
) -> Result<LedgerView, Failure> {
    let a = ctx.accounts;
    if !a.owner.is_signer {
        Err(Failure::Platform(PlatformError::Aborted))
    } else {
        match derivation_check(spec_wallet_account_seeds(a.owner.key), ctx.program_id, a.wallet.key) {
            Err(e) => Err(Failure::Platform(e)),
            Ok(_) => match derivation_check(
                spec_wallet_seeds(a.owner.key),
                ctx.program_id,
                a.wallet_pda.key,
            ) {
                Err(e) => Err(Failure::Platform(e)),
                Ok(_) => match derived_address(spec_vault_seeds(), pre.vault_program@) {
                    None => Err(Failure::Platform(PlatformError::DerivationExhausted)),
                    Some((vault_pda, _)) => if pre.data(a.wallet.key) is Uninitialized {
                        Ok(
                            pre.store(
                                a.wallet.key,
                                AccountData::Wallet(
                                    WalletAccount {
                                        owner: a.owner.key,
                                        vault_program: pre.vault_program,
                                        vault_pda: Identity::of_bytes(vault_pda),
                                    },
                                ),
                            ),
                        )
                    } else {
                        Err(Failure::Platform(PlatformError::AccountAlreadyInitialized))
                    },
                },
            },
        }
    }
}

/// What `execute_transaction` does to the ledger.
///
/// It is given up where no wallet record is at the address that was named,
/// and refused where the caller may not drive the wallet. Otherwise the
/// vault program is asked to withdraw the amount into the wallet's spending
/// address; the platform gives up where the program that the wallet records
/// is not the vault program.
pub open spec fn execute_transaction_outcome(
    pre: LedgerView,
    ctx: Context<ExecuteTransaction>,
    amount: u64,
) -> Result<LedgerView, Failure> {
    let a = ctx.accounts;
    match pre.data(a.wallet.key) {
        AccountData::Wallet(wallet) => match authorization(
            wallet,
            ctx.program_id,
            a.owner,
            a.vault.key,
            a.wallet_pda.key,
        ) {
            Err(e) => Err(e),
            Ok(_) => if wallet.vault_program != Identity::system_program() && wallet.vault_program
                == pre.vault_program {
                withdraw_outcome(
                    pre,
                    Context {
                        program_id: wallet.vault_program,
                        accounts: Withdraw {
                            vault: AccountInfo { key: a.vault.key, is_signer: false },
                            recipient: AccountInfo { key: a.wallet_pda.key, is_signer: false },
                        },
                    },
                    amount,
                )
            } else {
                Err(Failure::Platform(PlatformError::Aborted))
            },
        },
        _ => Err(Failure::Platform(PlatformError::Aborted)),
    }
}

/// What `return_funds` does to the ledger.
///
/// It is given up where no wallet record is at the address that was named,
/// and refused where the caller may not drive the wallet. Otherwise the
/// amount moves from the wallet's spending address to the vault, and the
/// platform gives up where the spending address holds less.
pub open spec fn return_funds_outcome(
    pre: LedgerView,
    ctx: Context<ReturnFunds>,
    amount: u64,
) -> Result<LedgerView, Failure> {
    let a = ctx.accounts;
    match pre.data(a.wallet.key) {
        AccountData::Wallet(wallet) => match authorization(
            wallet,
            ctx.program_id,
            a.owner,
            a.vault.key,
            a.wallet_pda.key,
        ) {
            Err(e) => Err(e),
            Ok(_) => if amount <= pre.balance(a.wallet_pda.key) {
                Ok(pre.transfer(a.wallet_pda.key, a.vault.key, amount as nat))
            } else {
                Err(Failure::Platform(PlatformError::Aborted))
            },
        },
        _ => Err(Failure::Platform(PlatformError::Aborted)),
    }
}

/// Decides whether the caller may drive the wallet, and derives the proof
/// with which the wallet program signs for the wallet's spending address.
fn authorize(
    wallet: &WalletAccount,
    program: &Identity,
    owner: &AccountInfo,
    vault: &Identity,
    wallet_pda: &Identity,
) -> (res: Result<SigningProof, Failure>)
    ensures
        match res {
            Ok(signing) => authorization(*wallet, *program, *owner, *vault, *wallet_pda) == Ok::<
                u8,
                Failure,
            >(signing@.bump) && signing@ == wallet_signing(*program, owner.key, signing@.bump)
                && signing@.signs_for(*program) == Some(wallet_pda@),
            Err(e) => authorization(*wallet, *program, *owner, *vault, *wallet_pda) == Err::<
                u8,
                Failure,
            >(e),
        },
{
    if !(owner.is_signer && owner.key == wallet.owner) {
        return Err(Failure::Wallet(WalletError::InvalidOwner));
    }
    if *vault != wallet.vault_pda {
        return Err(Failure::Wallet(WalletError::InvalidVaultAccount));
    }
    match check_derived(wallet_seeds(&owner.key), program, wallet_pda) {
        Err(e) => Err(Failure::Platform(e)),
        Ok(derived) => Ok(derived.into_proof(*program)),
    }
}

/// Builds the instruction that asks the vault program to withdraw `amount`
/// into the wallet's spending address.
pub fn build_withdraw_instruction(
    vault_program: &Identity,
    vault: &Identity,
    wallet_pda: &Identity,
    owner: &Identity,
    amount: u64,
) -> (built: Instruction)
    ensures
        built@ == withdraw_instruction(*vault_program, *vault, *wallet_pda, *owner, amount),
{
    let accounts = vec![
        AccountMeta::new(*vault, false),
        AccountMeta::new(*wallet_pda, false),
        AccountMeta::new_readonly(*owner, true),
        AccountMeta::new_readonly(Identity::system(), false),
    ];
    let data = (WithdrawArgs { instruction: WITHDRAW_OPCODE, amount }).to_bytes();
    let built = Instruction { program_id: *vault_program, accounts, data };
    assert(built@.accounts =~= withdraw_instruction(
        *vault_program,
        *vault,
        *wallet_pda,
        *owner,
        amount,
    ).accounts);
    built
}

/// Decides what `execute_transaction` asks of the platform: the call into
/// the vault program, signed for the wallet's spending address, or the
/// reason why the caller is turned away.
pub fn prepare_execute_transaction(
    wallet: &WalletAccount,
    ctx: &Context<ExecuteTransaction>,
    amount: u64,
) -> (res: Result<SignedCall, Failure>)
    ensures
        match res {
            Ok(call) => execute_transaction_call(*wallet, *ctx, amount) == Ok::<
                SignedCallView,
                Failure,
            >(call@),
            Err(e) => execute_transaction_call(*wallet, *ctx, amount) == Err::<
                SignedCallView,
                Failure,
            >(e),
        },
{
    let a = &ctx.accounts;
    match authorize(wallet, &ctx.program_id, &a.owner, &a.vault.key, &a.wallet_pda.key) {
        Err(e) => Err(e),
        Ok(signing) => {
            let instruction = build_withdraw_instruction(
                &wallet.vault_program,
                &a.vault.key,
                &a.wallet_pda.key,
                &a.owner.key,
                amount,
            );
            let account_infos = vec![a.vault, a.wallet_pda, a.owner];
            assert(account_infos@ =~= seq![a.vault, a.wallet_pda, a.owner]);
            Ok(SignedCall { instruction, account_infos, signing })
        },
    }
}

/// Decides what `return_funds` asks of the platform: the native transfer
/// from the wallet's spending address to the vault, signed for that address,
/// or the reason why the caller is turned away.
pub fn prepare_return_funds(wallet: &WalletAccount, ctx: &Context<ReturnFunds>, amount: u64) -> (res:
    Result<SignedCall, Failure>)
    ensures
        match res {
            Ok(call) => return_funds_call(*wallet, *ctx, amount) == Ok::<SignedCallView, Failure>(
                call@,
            ),
            Err(e) => return_funds_call(*wallet, *ctx, amount) == Err::<SignedCallView, Failure>(e),
        },
{
    let a = &ctx.accounts;
    match authorize(wallet, &ctx.program_id, &a.owner, &a.vault.key, &a.wallet_pda.key) {
        Err(e) => Err(e),
        Ok(signing) => {
            let instruction = transfer(&a.wallet_pda.key, &a.vault.key, amount);
            let account_infos = vec![a.wallet_pda, a.vault];
            assert(account_infos@ =~= seq![a.wallet_pda, a.vault]);
            Ok(SignedCall { instruction, account_infos, signing })
        },
    }
}

/// Creates the wallet of the owner who signs.
///
/// The record goes to the address that the wallet program derives from
/// `"wallet_account"` and the owner. It names the owner, the vault program
/// and the vault's derived address, and is never changed afterwards: a
/// second call for the same owner is refused with
/// `AccountAlreadyInitialized`.
pub fn initialize_wallet(ledger: &mut Ledger, ctx: &Context<InitializeWallet>) -> (res: Result<
    (),
    Failure,
>)
    requires
        old(ledger).wf(),
    ensures
        final(ledger).wf(),
        is_outcome(
            initialize_wallet_outcome(old(ledger)@, *ctx),
            old(ledger)@,
            res,
            final(ledger)@,
        ),
{
    let a = &ctx.accounts;
    if !a.owner.is_signer {
        return Err(Failure::Platform(PlatformError::Aborted));
    }
    match check_derived(wallet_account_seeds(&a.owner.key), &ctx.program_id, &a.wallet.key) {
        Err(e) => {
            return Err(Failure::Platform(e));
        },
        Ok(_) => {},
    }
    match check_derived(wallet_seeds(&a.owner.key), &ctx.program_id, &a.wallet_pda.key) {
        Err(e) => {
            return Err(Failure::Platform(e));
        },
        Ok(_) => {},
    }
    let vault_program = ledger.vault_program();
    let vault_pda = match crate::derivation::derive(vault_seeds(), &vault_program) {
        Err(e) => {
            return Err(Failure::Platform(e));
        },
        Ok(derived) => derived.address,
    };
    proof {
        Identity::lemma_of_bytes(vault_pda);
    }
    let wallet = WalletAccount { owner: a.owner.key, vault_program, vault_pda };
    match ledger.create(&a.wallet.key, AccountData::Wallet(wallet)) {
        Ok(()) => Ok(()),
        Err(e) => Err(Failure::Platform(e)),
    }
}

/// Borrows `amount` from the vault into the wallet's spending address.
///
/// Only the owner may ask, and has to sign: any other caller is refused
/// with `InvalidOwner`. The vault has to be the one that the wallet records,
/// else `InvalidVaultAccount`. The wallet program then calls the vault
/// program's withdrawal, which is refused with `InsufficientFunds` unless
/// the vault holds the amount and its rent-exempt minimum besides.
pub fn execute_transaction(ledger: &mut Ledger, ctx: &Context<ExecuteTransaction>, amount: u64) -> (res:
    Result<(), Failure>)
    requires
        old(ledger).wf(),
    ensures
        final(ledger).wf(),
        is_outcome(
            execute_transaction_outcome(old(ledger)@, *ctx, amount),
            old(ledger)@,
            res,
            final(ledger)@,
        ),
{
    let wallet = match ledger.get_data(&ctx.accounts.wallet.key) {
        AccountData::Wallet(wallet) => wallet,
        _ => {
            return Err(Failure::Platform(PlatformError::Aborted));
        },
    };
    match prepare_execute_transaction(&wallet, ctx, amount) {
        Err(e) => Err(e),
        Ok(call) => {
            proof {
                (WithdrawArgs { instruction: WITHDRAW_OPCODE, amount }).lemma_round_trip();
            }
            invoke_signed(
                ledger,
                &ctx.program_id,
                &call.instruction,
                &call.account_infos,
                &call.signing,
            )
        },
    }
}

/// Gives `amount` back from the wallet's spending address to the vault, by
/// a native transfer for which the wallet program signs.
///
/// Only the owner may ask, and has to sign: any other caller is refused
/// with `InvalidOwner`. The vault has to be the one that the wallet records,
/// else `InvalidVaultAccount`. Whether the spending address holds the amount
/// is left to the platform, which gives up where it does not.
pub fn return_funds(ledger: &mut Ledger, ctx: &Context<ReturnFunds>, amount: u64) -> (res: Result<
    (),
    Failure,
>)
    requires
        old(ledger).wf(),
    ensures
        final(ledger).wf(),
        is_outcome(
            return_funds_outcome(old(ledger)@, *ctx, amount),
            old(ledger)@,
            res,
            final(ledger)@,
        ),
{
    let wallet = match ledger.get_data(&ctx.accounts.wallet.key) {
        AccountData::Wallet(wallet) => wallet,
        _ => {
            return Err(Failure::Platform(PlatformError::Aborted));
        },
    };
    match prepare_return_funds(&wallet, ctx, amount) {
        Err(e) => Err(e),
        Ok(call) => {
            proof {
                crate::instruction::lemma_transfer_amount(amount);
            }
            invoke_signed(
                ledger,
                &ctx.program_id,
                &call.instruction,
                &call.account_infos,
                &call.signing,
            )
        },
    }
}

} // verus!
