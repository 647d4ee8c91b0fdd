//! Instructions: what one program asks another to do.

use crate::identity::Identity;
use anchor_lang::prelude::Pubkey;
use anchor_lang::solana_program::system_instruction;
use vstd::bytes::spec_u64_from_le_bytes;
use vstd::bytes::spec_u64_to_le_bytes;
use vstd::bytes::u64_from_le_bytes;
use vstd::prelude::*;

verus! {

/// One account of an instruction, and what the instruction may do with it.
#[derive(Clone, Copy, Debug)]
pub struct AccountMeta {
    /// The address of the account.
    pub pubkey: Identity,
    /// Whether the instruction needs the account's signature.
    pub is_signer: bool,
    /// Whether the instruction may change the account.
    pub is_writable: bool,
}

/// A call into a program: the program, the accounts in the order in which
/// the program expects them, and the payload.
#[derive(Debug)]
pub struct Instruction {
    /// The program that is to run.
    pub program_id: Identity,
    /// The accounts.
    pub accounts: Vec<AccountMeta>,
    /// The payload, which only the program that runs can read.
    pub data: Vec<u8>,
}

/// An instruction as a mathematical value.
pub struct InstructionView {
    pub program_id: Identity,
    pub accounts: Seq<AccountMeta>,
    pub data: Seq<u8>,
}

impl View for Instruction {
    type V = InstructionView;

    open spec fn view(&self) -> InstructionView {
        InstructionView { program_id: self.program_id, accounts: self.accounts@, data: self.data@ }
    }
}

impl AccountMeta {
    /// An account that the instruction may change.
    pub fn new(pubkey: Identity, is_signer: bool) -> (meta: AccountMeta)
        ensures
            meta == (AccountMeta { pubkey, is_signer, is_writable: true }),
    {
        AccountMeta { pubkey, is_signer, is_writable: true }
    }

    /// An account that the instruction may only read.
    pub fn new_readonly(pubkey: Identity, is_signer: bool) -> (meta: AccountMeta)
        ensures
            meta == (AccountMeta { pubkey, is_signer, is_writable: false }),
    {
        AccountMeta { pubkey, is_signer, is_writable: false }
    }
}

/// The tag with which a native instruction says that it is a transfer: the
/// number 2 in four bytes, lowest first.
pub open spec fn transfer_tag() -> Seq<u8> {
    seq![2u8, 0u8, 0u8, 0u8]
}

/// The native instruction that moves `lamports` from `from` to `to`: `from`
/// signs and both may change, and the payload is the transfer tag followed by
/// the amount in eight bytes, lowest first.
pub open spec fn transfer_instruction(from: Identity, to: Identity, lamports: u64) -> InstructionView {
    InstructionView {
        program_id: Identity::system_program(),
        accounts: seq![
            AccountMeta { pubkey: from, is_signer: true, is_writable: true },
            AccountMeta { pubkey: to, is_signer: false, is_writable: true },
        ],
        data: transfer_tag() + spec_u64_to_le_bytes(lamports),
    }
}

/// The amount that a native transfer's payload asks for, where the payload
/// is one: the tag, then at least eight bytes.
pub open spec fn transfer_amount(data: Seq<u8>) -> Option<u64> {
    if data.len() >= 12 && data.subrange(0, 4) == transfer_tag() {
        Some(spec_u64_from_le_bytes(data.subrange(4, 12)))
    } else {
        None
    }
}

/// `system_instruction::transfer`: builds the native program's transfer
/// instruction. The contract claims that the instruction names the native
/// program, lists the payer as a signer that may change and the payee as a
/// plain account that may change, and carries the number 2 in four bytes
/// followed by the amount in eight, each lowest byte first.
#[verifier::external_body]
fn system_transfer(from: &Identity, to: &Identity, lamports: u64) -> (built: Instruction)
    ensures
        built@ == transfer_instruction(*from, *to, lamports),
{
    let from = Pubkey::new_from_array(from.bytes);
    let to = Pubkey::new_from_array(to.bytes);
    let built = system_instruction::transfer(&from, &to, lamports);
    let accounts = built.accounts.iter().map(
        |meta| AccountMeta {
            pubkey: Identity { bytes: meta.pubkey.to_bytes() },
            is_signer: meta.is_signer,
            is_writable: meta.is_writable,
        },
    ).collect();
    Instruction { program_id: Identity { bytes: built.program_id.to_bytes() }, accounts, data: built.data }
}

/// What a native transfer's payload decodes to is what was encoded.
pub proof fn lemma_transfer_amount(lamports: u64)
    ensures
        transfer_amount(transfer_tag() + spec_u64_to_le_bytes(lamports)) == Some(lamports),
{
    vstd::bytes::lemma_auto_spec_u64_to_from_le_bytes();
    let data = transfer_tag() + spec_u64_to_le_bytes(lamports);
    assert(data.subrange(0, 4) =~= transfer_tag());
    assert(data.subrange(4, 12) =~= spec_u64_to_le_bytes(lamports));
}

/// The native instruction that moves `lamports` from `from` to `to`.
pub fn transfer(from: &Identity, to: &Identity, lamports: u64) -> (built: Instruction)
    ensures
        built@ == transfer_instruction(*from, *to, lamports),
        transfer_amount(built@.data) == Some(lamports),
{
    proof {
        lemma_transfer_amount(lamports);
    }
    system_transfer(from, to, lamports)
}

/// Reads the amount out of a native transfer's payload.
pub fn decode_transfer(data: &Vec<u8>) -> (amount: Option<u64>)
    ensures
        amount == transfer_amount(data@),
{
    if data.len() < 12 {
        return None;
    }
    if data[0] != 2 || data[1] != 0 || data[2] != 0 || data[3] != 0 {
        assert(data@.subrange(0, 4)[0] == data@[0]);
        assert(data@.subrange(0, 4)[1] == data@[1]);
        assert(data@.subrange(0, 4)[2] == data@[2]);
        assert(data@.subrange(0, 4)[3] == data@[3]);
        return None;
    }
    assert(data@.subrange(0, 4) =~= transfer_tag());
    let mut amount: Vec<u8> = Vec::new();
    let mut i: usize = 4;
    while i < 12
        invariant
            4 <= i <= 12,
            data@.len() >= 12,
            amount@ == data@.subrange(4, i as int),
        decreases 12 - i,
    {
        amount.push(data[i]);
        assert(data@.subrange(4, i + 1) =~= data@.subrange(4, i as int).push(data@[i as int]));
        i += 1;
    }
    Some(u64_from_le_bytes(amount.as_slice()))
}

} // verus!
