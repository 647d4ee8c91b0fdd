//! What holds of the operations, whatever the ledger and whoever calls.

use crate::context::Context;
use crate::derivation::{is_derive_result, DerivedAddress};
use crate::error::{is_outcome, Failure, PlatformError};
use crate::identity::Identity;
use crate::ledger::{AccountData, LedgerView};
use crate::smart_wallet::{
    execute_transaction_outcome, initialize_wallet_outcome, return_funds_outcome,
    ExecuteTransaction, InitializeWallet, ReturnFunds, WalletAccount, WalletError,
};
use crate::vault::{
    deposit_outcome, initialize_outcome, vault_check, withdraw_outcome, Deposit, ErrorCode,
    Initialize, Withdraw,
};
use vstd::prelude::*;

verus! {

/// Derivation is a function of the seeds and the program: two calls of
/// `derive` on the same seeds and the same program both succeed or both
/// fail, and where they succeed they give the same address and the same
/// bump.
pub proof fn law_derivation_is_deterministic(
    seeds: Seq<Seq<u8>>,
    program: Identity,
    first: Result<DerivedAddress, PlatformError>,
    second: Result<DerivedAddress, PlatformError>,
)
    requires
        is_derive_result(seeds, program, first),
        is_derive_result(seeds, program, second),
    ensures
        first is Ok <==> second is Ok,
        first is Err ==> first->Err_0 == second->Err_0,
        first is Ok ==> first->Ok_0.address == second->Ok_0.address && first->Ok_0.bump
            == second->Ok_0.bump && first->Ok_0.seeds.deep_view() == second->Ok_0.seeds.deep_view(),
{
    if first is Ok {
        Identity::lemma_equal_by_bytes(first->Ok_0.address, second->Ok_0.address);
    }
}

/// A withdrawal from the program's vault to another address succeeds exactly
/// when the amount is no more than what the vault holds above its
/// rent-exempt minimum. On success the vault holds that much less and the
/// recipient that much more. On failure the error is `InsufficientFunds`
/// and the ledger is as it was.
pub proof fn law_withdraw_bound(
    pre: LedgerView,
    ctx: Context<Withdraw>,
    amount: u64,
    res: Result<(), Failure>,
    post: LedgerView,
)
    requires
        pre.wf(),
        vault_check(pre, ctx.program_id, ctx.accounts.vault.key) is Ok,
        ctx.accounts.recipient.key != ctx.accounts.vault.key,
        is_outcome(withdraw_outcome(pre, ctx, amount), pre, res, post),
    ensures
        res is Ok <==> amount <= pre.balance(ctx.accounts.vault.key) - pre.rent_exempt_min,
        res is Ok ==> post.balance(ctx.accounts.vault.key) == pre.balance(ctx.accounts.vault.key)
            - amount,
        res is Ok ==> post.balance(ctx.accounts.recipient.key) == pre.balance(
            ctx.accounts.recipient.key,
        ) + amount,
        res is Err ==> res == Err::<(), Failure>(Failure::Vault(ErrorCode::InsufficientFunds))
            && post == pre,
{
}

/// A withdrawal asks for no signature: whether the vault or the recipient
/// has signed makes no difference to what it does.
pub proof fn law_withdraw_asks_for_no_signature(
    pre: LedgerView,
    one: Context<Withdraw>,
    other: Context<Withdraw>,
    amount: u64,
)
    requires
        one.program_id == other.program_id,
        one.accounts.vault.key == other.accounts.vault.key,
        one.accounts.recipient.key == other.accounts.recipient.key,
    ensures
        withdraw_outcome(pre, one, amount) == withdraw_outcome(pre, other, amount),
{
}

/// A withdrawal that succeeds leaves the vault with its rent-exempt minimum
/// at least, whoever the recipient is.
pub proof fn law_withdraw_keeps_the_floor(pre: LedgerView, ctx: Context<Withdraw>, amount: u64)
    requires
        pre.wf(),
    ensures
        withdraw_outcome(pre, ctx, amount) matches Ok(post) ==> post.balance(
            ctx.accounts.vault.key,
        ) >= pre.rent_exempt_min,
{
}

/// Two deposits in a row do what one deposit of the sum does: where the
/// depositor is not the vault itself, the two succeed exactly when the one
/// does, and they leave the same ledger, so the same balance in the vault.
pub proof fn law_deposit_is_additive(
    pre: LedgerView,
    ctx: Context<Deposit>,
    first: u64,
    second: u64,
)
    requires
        pre.wf(),
        first + second <= u64::MAX,
        ctx.accounts.depositor.key != ctx.accounts.vault.key,
    ensures
        (deposit_outcome(pre, ctx, first) matches Ok(mid) && deposit_outcome(mid, ctx, second)
            is Ok) <==> deposit_outcome(pre, ctx, (first + second) as u64) is Ok,
        deposit_outcome(pre, ctx, first) matches Ok(mid) ==> (deposit_outcome(
            mid,
            ctx,
            second,
        ) matches Ok(twice) ==> deposit_outcome(pre, ctx, (first + second) as u64) == Ok::<
            LedgerView,
            Failure,
        >(twice)),
{
    let depositor = ctx.accounts.depositor.key;
    let vault = ctx.accounts.vault.key;
    if deposit_outcome(pre, ctx, first) is Ok {
        let mid = deposit_outcome(pre, ctx, first)->Ok_0;
        assert(mid == pre.transfer(depositor, vault, first as nat));
        if deposit_outcome(mid, ctx, second) is Ok {
            let twice = deposit_outcome(mid, ctx, second)->Ok_0;
            let once = pre.transfer(depositor, vault, (first + second) as nat);
            assert(twice.accounts =~= once.accounts);
        }
    }
}

/// A caller who is not the wallet's owner is turned away from
/// `execute_transaction` with `InvalidOwner`, and the ledger is as it was.
pub proof fn law_execute_transaction_is_for_the_owner(
    pre: LedgerView,
    ctx: Context<ExecuteTransaction>,
    amount: u64,
    wallet: WalletAccount,
    res: Result<(), Failure>,
    post: LedgerView,
)
    requires
        pre.data(ctx.accounts.wallet.key) == AccountData::Wallet(wallet),
        ctx.accounts.owner.key != wallet.owner,
        is_outcome(execute_transaction_outcome(pre, ctx, amount), pre, res, post),
    ensures
        res == Err::<(), Failure>(Failure::Wallet(WalletError::InvalidOwner)),
        post == pre,
{
}

/// A caller who is not the wallet's owner is turned away from `return_funds`
/// with `InvalidOwner`, and the ledger is as it was.
pub proof fn law_return_funds_is_for_the_owner(
    pre: LedgerView,
    ctx: Context<ReturnFunds>,
    amount: u64,
    wallet: WalletAccount,
    res: Result<(), Failure>,
    post: LedgerView,
)
    requires
        pre.data(ctx.accounts.wallet.key) == AccountData::Wallet(wallet),
        ctx.accounts.owner.key != wallet.owner,
        is_outcome(return_funds_outcome(pre, ctx, amount), pre, res, post),
    ensures
        res == Err::<(), Failure>(Failure::Wallet(WalletError::InvalidOwner)),
        post == pre,
{
}

/// What was borrowed can be given back, and then nothing has happened:
/// after `execute_transaction` has succeeded, `return_funds` of the same
/// amount on the same accounts succeeds and leaves the ledger as it was
/// before the two. The vault holds what it held, and the wallet's spending
/// address, where it held nothing, holds nothing again.
pub proof fn law_round_trip(
    pre: LedgerView,
    borrow: Context<ExecuteTransaction>,
    give_back: Context<ReturnFunds>,
    amount: u64,
)
    requires
        pre.wf(),
        give_back.program_id == borrow.program_id,
        give_back.accounts.wallet == borrow.accounts.wallet,
        give_back.accounts.wallet_pda == borrow.accounts.wallet_pda,
        give_back.accounts.vault == borrow.accounts.vault,
        give_back.accounts.owner == borrow.accounts.owner,
        execute_transaction_outcome(pre, borrow, amount) is Ok,
    ensures
        return_funds_outcome(
            execute_transaction_outcome(pre, borrow, amount)->Ok_0,
            give_back,
            amount,
        ) matches Ok(post) && post == pre && post.balance(borrow.accounts.vault.key)
            == pre.balance(borrow.accounts.vault.key) && (pre.balance(
            borrow.accounts.wallet_pda.key,
        ) == 0 ==> post.balance(borrow.accounts.wallet_pda.key) == 0),
{
    let vault = borrow.accounts.vault.key;
    let wallet_pda = borrow.accounts.wallet_pda.key;
    let mid = execute_transaction_outcome(pre, borrow, amount)->Ok_0;
    assert(mid == pre.transfer(vault, wallet_pda, amount as nat));
    let post = mid.transfer(wallet_pda, vault, amount as nat);
    assert(post.accounts =~= pre.accounts);
}

/// The vault is created once: after `initialize` has succeeded the vault's
/// record exists, and the same call again is refused with
/// `AccountAlreadyInitialized`.
pub proof fn law_vault_is_created_once(pre: LedgerView, ctx: Context<Initialize>)
    requires
        pre.wf(),
        initialize_outcome(pre, ctx) is Ok,
    ensures
        initialize_outcome(pre, ctx)->Ok_0.data(ctx.accounts.vault.key) is Vault,
        initialize_outcome(initialize_outcome(pre, ctx)->Ok_0, ctx) == Err::<LedgerView, Failure>(
            Failure::Platform(PlatformError::AccountAlreadyInitialized),
        ),
{
}

/// A wallet is created once: after `initialize_wallet` has succeeded the
/// wallet's record exists and names the owner who signed, and the same call
/// again is refused with `AccountAlreadyInitialized`.
pub proof fn law_wallet_is_created_once(pre: LedgerView, ctx: Context<InitializeWallet>)
    requires
        pre.wf(),
        initialize_wallet_outcome(pre, ctx) is Ok,
    ensures
        initialize_wallet_outcome(pre, ctx)->Ok_0.data(ctx.accounts.wallet.key) matches AccountData::Wallet(
            wallet,
        ) && wallet.owner == ctx.accounts.owner.key && wallet.vault_program == pre.vault_program,
        initialize_wallet_outcome(initialize_wallet_outcome(pre, ctx)->Ok_0, ctx) == Err::<
            LedgerView,
            Failure,
        >(Failure::Platform(PlatformError::AccountAlreadyInitialized)),
{
}

/// No operation changes a record that exists: a wallet's record, once
/// created, stays as it was written, and so does the vault's.
pub proof fn law_records_are_never_changed(
    pre: LedgerView,
    key: Identity,
    amount: u64,
    create_vault: Context<Initialize>,
    pay_in: Context<Deposit>,
    pay_out: Context<Withdraw>,
    create_wallet: Context<InitializeWallet>,
    borrow: Context<ExecuteTransaction>,
    give_back: Context<ReturnFunds>,
)
    requires
        pre.wf(),
        !(pre.data(key) is Uninitialized),
    ensures
        initialize_outcome(pre, create_vault) matches Ok(post) ==> post.data(key) == pre.data(key),
        deposit_outcome(pre, pay_in, amount) matches Ok(post) ==> post.data(key) == pre.data(key),
        withdraw_outcome(pre, pay_out, amount) matches Ok(post) ==> post.data(key) == pre.data(
            key,
        ),
        initialize_wallet_outcome(pre, create_wallet) matches Ok(post) ==> post.data(key)
            == pre.data(key),
        execute_transaction_outcome(pre, borrow, amount) matches Ok(post) ==> post.data(key)
            == pre.data(key),
        return_funds_outcome(pre, give_back, amount) matches Ok(post) ==> post.data(key)
            == pre.data(key),
{
}

/// An operation changes only the accounts that it names: the two between
/// which the amount moves, or the one whose record is created. Creating a
/// record moves no balance at all.
pub proof fn law_other_accounts_are_left_alone(
    pre: LedgerView,
    key: Identity,
    amount: u64,
    create_vault: Context<Initialize>,
    pay_in: Context<Deposit>,
    pay_out: Context<Withdraw>,
    create_wallet: Context<InitializeWallet>,
    borrow: Context<ExecuteTransaction>,
    give_back: Context<ReturnFunds>,
)
    requires
        pre.wf(),
    ensures
        initialize_outcome(pre, create_vault) matches Ok(post) ==> post.balance(key)
            == pre.balance(key) && (key != create_vault.accounts.vault.key ==> post.data(key)
            == pre.data(key)),
        initialize_wallet_outcome(pre, create_wallet) matches Ok(post) ==> post.balance(key)
            == pre.balance(key) && (key != create_wallet.accounts.wallet.key ==> post.data(key)
            == pre.data(key)),
        deposit_outcome(pre, pay_in, amount) matches Ok(post) ==> (key
            != pay_in.accounts.depositor.key && key != pay_in.accounts.vault.key
            ==> post.accounts[key] == pre.accounts[key]),
        withdraw_outcome(pre, pay_out, amount) matches Ok(post) ==> (key
            != pay_out.accounts.vault.key && key != pay_out.accounts.recipient.key
            ==> post.accounts[key] == pre.accounts[key]),
        execute_transaction_outcome(pre, borrow, amount) matches Ok(post) ==> (key
            != borrow.accounts.vault.key && key != borrow.accounts.wallet_pda.key
            ==> post.accounts[key] == pre.accounts[key]),
        return_funds_outcome(pre, give_back, amount) matches Ok(post) ==> (key
            != give_back.accounts.vault.key && key != give_back.accounts.wallet_pda.key
            ==> post.accounts[key] == pre.accounts[key]),
{
}

/// No operation makes or destroys balance: the supply after an operation is
/// the supply before it.
pub proof fn law_supply_is_conserved(
    pre: LedgerView,
    amount: u64,
    create_vault: Context<Initialize>,
    pay_in: Context<Deposit>,
    pay_out: Context<Withdraw>,
    create_wallet: Context<InitializeWallet>,
    borrow: Context<ExecuteTransaction>,
    give_back: Context<ReturnFunds>,
)
    ensures
        initialize_outcome(pre, create_vault) matches Ok(post) ==> post.supply == pre.supply,
        deposit_outcome(pre, pay_in, amount) matches Ok(post) ==> post.supply == pre.supply,
        withdraw_outcome(pre, pay_out, amount) matches Ok(post) ==> post.supply == pre.supply,
        initialize_wallet_outcome(pre, create_wallet) matches Ok(post) ==> post.supply
            == pre.supply,
        execute_transaction_outcome(pre, borrow, amount) matches Ok(post) ==> post.supply
            == pre.supply,
        return_funds_outcome(pre, give_back, amount) matches Ok(post) ==> post.supply
            == pre.supply,
{
}

} // verus!
