//! The ledger: what the platform holds at each address.
//!
//! Every address has a balance and at most one record. An address that was
//! never touched has balance zero and no record. Balances only move: the sum
//! of all balances, the supply, changes only when the ledger is funded from
//! outside.

use crate::error::PlatformError;
use crate::identity::Identity;
use crate::smart_wallet::WalletAccount;
use crate::vault::VaultAccount;
use vstd::prelude::*;

verus! {

/// The record stored at an address.
#[derive(Clone, Copy, Debug)]
pub enum AccountData {
    /// No record was created here.
    Uninitialized,
    /// The vault's record.
    Vault(VaultAccount),
    /// A wallet's record.
    Wallet(WalletAccount),
}

/// One account as the ledger stores it.
#[derive(Clone, Copy, Debug)]
pub struct Account {
    /// The address of the account.
    pub key: Identity,
    /// Its balance.
    pub lamports: u64,
    /// Its record.
    pub data: AccountData,
}

/// What the ledger holds at one address, as a mathematical value.
pub struct AccountState {
    pub lamports: nat,
    pub data: AccountData,
}

/// The ledger as a mathematical value: the state at every address, the sum of
/// all balances, the identity under which the vault program is deployed, and
/// the least balance that the platform lets an account of the vault's size
/// keep.
pub struct LedgerView {
    pub accounts: Map<Identity, AccountState>,
    pub supply: nat,
    pub vault_program: Identity,
    pub rent_exempt_min: u64,
}

impl LedgerView {
    /// Every address has a state, and the supply is one that the platform can
    /// hold.
    pub open spec fn wf(self) -> bool {
        &&& self.accounts.dom() =~= Set::full()
        &&& self.supply <= u64::MAX
    }

    /// The balance at `key`.
    pub open spec fn balance(self, key: Identity) -> nat {
        self.accounts[key].lamports
    }

    /// The record at `key`.
    pub open spec fn data(self, key: Identity) -> AccountData {
        self.accounts[key].data
    }

    /// This ledger with `amount` more at `key`, the supply as it was.
    pub open spec fn credit(self, key: Identity, amount: nat) -> LedgerView {
        LedgerView {
            accounts: self.accounts.insert(
                key,
                AccountState { lamports: self.balance(key) + amount, data: self.data(key) },
            ),
            ..self
        }
    }

    /// This ledger with `amount` less at `key`, the supply as it was.
    pub open spec fn debit(self, key: Identity, amount: nat) -> LedgerView
        recommends
            amount <= self.balance(key),
    {
        LedgerView {
            accounts: self.accounts.insert(
                key,
                AccountState {
                    lamports: (self.balance(key) - amount) as nat,
                    data: self.data(key),
                },
            ),
            ..self
        }
    }

    /// This ledger after `amount` has moved from `from` to `to`. Where the
    /// two are one address, nothing changes.
    pub open spec fn transfer(self, from: Identity, to: Identity, amount: nat) -> LedgerView
        recommends
            amount <= self.balance(from),
    {
        self.debit(from, amount).credit(to, amount)
    }

    /// This ledger after `amount` has come to `key` from outside: the supply
    /// grows by as much.
    pub open spec fn fund(self, key: Identity, amount: nat) -> LedgerView {
        LedgerView { supply: self.supply + amount, ..self.credit(key, amount) }
    }

    /// This ledger with `data` as the record at `key`.
    pub open spec fn store(self, key: Identity, data: AccountData) -> LedgerView {
        LedgerView {
            accounts: self.accounts.insert(
                key,
                AccountState { lamports: self.balance(key), data },
            ),
            ..self
        }
    }

    /// The ledger in which nothing has happened yet.
    pub open spec fn empty(vault_program: Identity, rent_exempt_min: u64) -> LedgerView {
        LedgerView {
            accounts: Map::total(
                |key: Identity| AccountState { lamports: 0, data: AccountData::Uninitialized },
            ),
            supply: 0,
            vault_program,
            rent_exempt_min,
        }
    }
}

/// The sum of the balances of `accounts`.
spec fn total(accounts: Seq<Account>) -> nat
    decreases accounts.len(),
{
    if accounts.len() == 0 {
        0
    } else {
        total(accounts.drop_last()) + accounts.last().lamports as nat
    }
}

/// No address occurs twice in `accounts`.
spec fn distinct(accounts: Seq<Account>) -> bool {
    forall|i: int, j: int|
        0 <= i < j < accounts.len() ==> accounts[i].key != accounts[j].key
}

/// Whether `accounts` holds an account at `key`.
spec fn present(accounts: Seq<Account>, key: Identity) -> bool {
    exists|i: int| 0 <= i < accounts.len() && #[trigger] accounts[i].key == key
}

/// The state at `key` in `accounts`.
spec fn state_at(accounts: Seq<Account>, key: Identity) -> AccountState {
    if present(accounts, key) {
        let i = choose|i: int| 0 <= i < accounts.len() && #[trigger] accounts[i].key == key;
        AccountState { lamports: accounts[i].lamports as nat, data: accounts[i].data }
    } else {
        AccountState { lamports: 0, data: AccountData::Uninitialized }
    }
}

/// The state at `key` is that of the one account stored under it, or the
/// state of an untouched address where none is.
proof fn lemma_state_at(accounts: Seq<Account>, key: Identity)
    requires
        distinct(accounts),
    ensures
        forall|i: int|
            0 <= i < accounts.len() && #[trigger] accounts[i].key == key ==> state_at(
                accounts,
                key,
            ) == (AccountState { lamports: accounts[i].lamports as nat, data: accounts[i].data }),
        !present(accounts, key) ==> state_at(accounts, key) == (AccountState {
            lamports: 0,
            data: AccountData::Uninitialized,
        }),
{
}

/// Replacing one account changes the sum by the difference of the balances.
proof fn lemma_total_update(accounts: Seq<Account>, i: int, account: Account)
    requires
        0 <= i < accounts.len(),
    ensures
        total(accounts.update(i, account)) + accounts[i].lamports == total(accounts)
            + account.lamports,
    decreases accounts.len(),
{
    let updated = accounts.update(i, account);
    if i == accounts.len() - 1 {
        assert(updated.drop_last() =~= accounts.drop_last());
    } else {
        lemma_total_update(accounts.drop_last(), i, account);
        assert(updated.drop_last() =~= accounts.drop_last().update(i, account));
    }
}

/// One more account adds its balance to the sum.
proof fn lemma_total_push(accounts: Seq<Account>, account: Account)
    ensures
        total(accounts.push(account)) == total(accounts) + account.lamports,
{
    assert(accounts.push(account).drop_last() =~= accounts);
}

/// No balance is more than the sum.
proof fn lemma_total_bounds(accounts: Seq<Account>, i: int)
    requires
        0 <= i < accounts.len(),
    ensures
        accounts[i].lamports <= total(accounts),
    decreases accounts.len(),
{
    if i < accounts.len() - 1 {
        lemma_total_bounds(accounts.drop_last(), i);
    }
}

/// The platform's state: the accounts that were touched, the vault program's
/// identity, and the rent-exempt minimum for the vault's storage.
pub struct Ledger {
    accounts: Vec<Account>,
    supply: u64,
    vault_program: Identity,
    rent_exempt_min: u64,
}

impl View for Ledger {
    type V = LedgerView;

    closed spec fn view(&self) -> LedgerView {
        LedgerView {
            accounts: Map::total(|key: Identity| state_at(self.accounts@, key)),
            supply: self.supply as nat,
            vault_program: self.vault_program,
            rent_exempt_min: self.rent_exempt_min,
        }
    }
}

impl Ledger {
    /// No address is stored twice, and the supply is the sum of the
    /// balances.
    pub closed spec fn wf(&self) -> bool {
        &&& distinct(self.accounts@)
        &&& total(self.accounts@) == self.supply
    }

    /// A well-formed ledger has a well-formed view.
    pub proof fn lemma_view_wf(&self)
        requires
            self.wf(),
        ensures
            self@.wf(),
    {
    }

    /// A ledger on which nothing has happened: every balance is zero and no
    /// record exists.
    pub fn new(vault_program: Identity, rent_exempt_min: u64) -> (ledger: Ledger)
        ensures
            ledger.wf(),
            ledger@ == LedgerView::empty(vault_program, rent_exempt_min),
    {
        let ledger = Ledger { accounts: Vec::new(), supply: 0, vault_program, rent_exempt_min };
        proof {
            assert forall|key: Identity|
                state_at(ledger.accounts@, key) == (AccountState {
                    lamports: 0,
                    data: AccountData::Uninitialized,
                }) by {
                lemma_state_at(ledger.accounts@, key);
            }
            assert(ledger@.accounts =~= LedgerView::empty(
                vault_program,
                rent_exempt_min,
            ).accounts);
        }
        ledger
    }

    /// The identity under which the vault program is deployed.
    pub fn vault_program(&self) -> (id: Identity)
        ensures
            id == self@.vault_program,
    {
        self.vault_program
    }

    /// The least balance that an account of the vault's size must keep.
    pub fn rent_exempt_minimum(&self) -> (min: u64)
        ensures
            min == self@.rent_exempt_min,
    {
        self.rent_exempt_min
    }

    /// Where `key` is stored, if it is.
    fn find(&self, key: &Identity) -> (found: Option<usize>)
        ensures
            match found {
                Some(i) => i < self.accounts@.len() && self.accounts@[i as int].key == *key,
                None => !present(self.accounts@, *key),
            },
    {
        let mut i: usize = 0;
        while i < self.accounts.len()
            invariant
                i <= self.accounts@.len(),
                forall|j: int| 0 <= j < i ==> self.accounts@[j].key != *key,
            decreases self.accounts@.len() - i,
        {
            if self.accounts[i].key == *key {
                return Some(i);
            }
            i += 1;
        }
        None
    }

    /// The balance at `key`.
    pub fn get_balance(&self, key: &Identity) -> (balance: u64)
        requires
            self.wf(),
        ensures
            balance == self@.balance(*key),
    {
        proof {
            lemma_state_at(self.accounts@, *key);
        }
        match self.find(key) {
            Some(i) => self.accounts[i].lamports,
            None => 0,
        }
    }

    /// The record at `key`.
    pub fn get_data(&self, key: &Identity) -> (data: AccountData)
        requires
            self.wf(),
        ensures
            data == self@.data(*key),
    {
        proof {
            lemma_state_at(self.accounts@, *key);
        }
        match self.find(key) {
            Some(i) => self.accounts[i].data,
            None => AccountData::Uninitialized,
        }
    }

    /// No balance is more than the supply.
    pub proof fn lemma_balance_within_supply(&self, key: Identity)
        requires
            self.wf(),
        ensures
            self@.balance(key) <= self@.supply,
    {
        lemma_state_at(self.accounts@, key);
        if present(self.accounts@, key) {
            let i = choose|i: int|
                0 <= i < self.accounts@.len() && #[trigger] self.accounts@[i].key == key;
            lemma_total_bounds(self.accounts@, i);
        }
    }

    /// Sets the balance and the record at `key`, and the supply with them.
    fn put(&mut self, key: &Identity, lamports: u64, data: AccountData)
        requires
            old(self).wf(),
            old(self)@.supply - old(self)@.balance(*key) + lamports <= u64::MAX,
        ensures
            final(self).wf(),
            final(self)@ == (LedgerView {
                accounts: old(self)@.accounts.insert(
                    *key,
                    AccountState { lamports: lamports as nat, data },
                ),
                supply: (old(self)@.supply - old(self)@.balance(*key) + lamports) as nat,
                ..old(self)@
            }),
    {
        let account = Account { key: *key, lamports, data };
        let ghost before = self.accounts@;
        proof {
            lemma_state_at(before, *key);
            self.lemma_balance_within_supply(*key);
        }
        match self.find(key) {
            Some(i) => {
                let held = self.accounts[i].lamports;
                proof {
                    lemma_total_update(before, i as int, account);
                }
                self.accounts.set(i, account);
                self.supply = self.supply - held + lamports;
            },
            None => {
                proof {
                    lemma_total_push(before, account);
                }
                self.accounts.push(account);
                self.supply = self.supply + lamports;
            },
        }
        proof {
            let after = self.accounts@;
            assert(distinct(after));
            assert forall|other: Identity|
                state_at(after, other) == old(self)@.accounts.insert(
                    *key,
                    AccountState { lamports: lamports as nat, data },
                )[other] by {
                lemma_state_at(before, other);
                lemma_state_at(after, other);
                if other == *key {
                    if present(before, *key) {
                        let i = choose|i: int|
                            0 <= i < before.len() && #[trigger] before[i].key == *key;
                        assert(after[i].key == *key);
                    } else {
                        assert(after[after.len() - 1].key == *key);
                    }
                } else if present(before, other) {
                    let j = choose|j: int|
                        0 <= j < before.len() && #[trigger] before[j].key == other;
                    assert(after[j].key == other);
                    assert(after[j] == before[j]);
                } else {
                    assert forall|j: int| 0 <= j < after.len() implies #[trigger] after[j].key
                        != other by {
                        if j < before.len() {
                            assert(before[j].key != other);
                        }
                    }
                }
            }
            assert(self@.accounts =~= old(self)@.accounts.insert(
                *key,
                AccountState { lamports: lamports as nat, data },
            ));
        }
    }

    /// Brings `amount` to `key` from outside the ledger.
    ///
    /// Fails with `Aborted`, and changes nothing, exactly when the supply
    /// would no longer fit the platform's counter.
    pub fn fund(&mut self, key: &Identity, amount: u64) -> (res: Result<(), PlatformError>)
        requires
            old(self).wf(),
        ensures
            final(self).wf(),
            res is Ok <==> old(self)@.supply + amount <= u64::MAX,
            res is Ok ==> final(self)@ == old(self)@.fund(*key, amount as nat),
            res is Err ==> res == Err::<(), PlatformError>(PlatformError::Aborted) && final(self)@
                == old(self)@,
    {
        if amount > u64::MAX - self.supply {
            return Err(PlatformError::Aborted);
        }
        proof {
            self.lemma_balance_within_supply(*key);
        }
        let held = self.get_balance(key);
        let data = self.get_data(key);
        self.put(key, held + amount, data);
        Ok(())
    }

    /// Moves `amount` from `from` to `to`, all of it or none.
    ///
    /// Fails with `Aborted`, and changes nothing, exactly when `from` holds
    /// less than `amount`.
    pub fn transfer(&mut self, from: &Identity, to: &Identity, amount: u64) -> (res: Result<
        (),
        PlatformError,
    >)
        requires
            old(self).wf(),
        ensures
            final(self).wf(),
            res is Ok <==> amount <= old(self)@.balance(*from),
            res is Ok ==> final(self)@ == old(self)@.transfer(*from, *to, amount as nat),
            res is Err ==> res == Err::<(), PlatformError>(PlatformError::Aborted) && final(self)@
                == old(self)@,
    {
        let available = self.get_balance(from);
        if available < amount {
            return Err(PlatformError::Aborted);
        }
        let data = self.get_data(from);
        proof {
            self.lemma_balance_within_supply(*from);
        }
        self.put(from, available - amount, data);
        proof {
            self.lemma_balance_within_supply(*to);
        }
        let held = self.get_balance(to);
        let data = self.get_data(to);
        self.put(to, held + amount, data);
        Ok(())
    }

    /// Creates the record at `key`.
    ///
    /// Fails with `AccountAlreadyInitialized`, and changes nothing, exactly
    /// when a record exists at `key`.
    pub fn create(&mut self, key: &Identity, data: AccountData) -> (res: Result<
        (),
        PlatformError,
    >)
        requires
            old(self).wf(),
        ensures
            final(self).wf(),
            res is Ok <==> old(self)@.data(*key) is Uninitialized,
            res is Ok ==> final(self)@ == old(self)@.store(*key, data),
            res is Err ==> res == Err::<(), PlatformError>(
                PlatformError::AccountAlreadyInitialized,
            ) && final(self)@ == old(self)@,
    {
        match self.get_data(key) {
            AccountData::Uninitialized => {
                let held = self.get_balance(key);
                self.put(key, held, data);
                Ok(())
            },
            _ => Err(PlatformError::AccountAlreadyInitialized),
        }
    }
}

} // verus!
