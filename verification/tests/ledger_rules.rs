use smart_wallet::error::PlatformError;
use smart_wallet::identity::Identity;
use smart_wallet::ledger::{AccountData, Ledger};
use smart_wallet::smart_wallet::WalletAccount;
use smart_wallet::vault::VaultAccount;

fn lr_id(byte: u8) -> Identity {
    Identity { bytes: [byte; 32] }
}

#[test]
fn a_new_ledger_holds_nothing() {
    let ledger = Ledger::new(lr_id(60), 890_880);
    assert_eq!(ledger.get_balance(&lr_id(1)), 0);
    assert!(matches!(ledger.get_data(&lr_id(1)), AccountData::Uninitialized));
    assert_eq!(ledger.vault_program(), lr_id(60));
    assert_eq!(ledger.rent_exempt_minimum(), 890_880);
}

#[test]
fn funding_adds_to_a_balance_until_the_supply_is_full() {
    let mut ledger = Ledger::new(lr_id(60), 0);
    assert_eq!(ledger.fund(&lr_id(1), 10), Ok(()));
    assert_eq!(ledger.fund(&lr_id(1), 5), Ok(()));
    assert_eq!(ledger.get_balance(&lr_id(1)), 15);
    assert_eq!(ledger.fund(&lr_id(2), u64::MAX - 14), Err(PlatformError::Aborted));
    assert_eq!(ledger.get_balance(&lr_id(2)), 0);
    assert_eq!(ledger.fund(&lr_id(2), u64::MAX - 15), Ok(()));
    assert_eq!(ledger.get_balance(&lr_id(2)), u64::MAX - 15);
    assert_eq!(ledger.fund(&lr_id(3), 1), Err(PlatformError::Aborted));
    assert_eq!(ledger.fund(&lr_id(3), 0), Ok(()));
}

#[test]
fn a_transfer_moves_all_of_the_amount_or_none() {
    let mut ledger = Ledger::new(lr_id(60), 0);
    ledger.fund(&lr_id(1), 100).unwrap();
    assert_eq!(ledger.transfer(&lr_id(1), &lr_id(2), 101), Err(PlatformError::Aborted));
    assert_eq!(ledger.get_balance(&lr_id(1)), 100);
    assert_eq!(ledger.get_balance(&lr_id(2)), 0);
    assert_eq!(ledger.transfer(&lr_id(1), &lr_id(2), 100), Ok(()));
    assert_eq!(ledger.get_balance(&lr_id(1)), 0);
    assert_eq!(ledger.get_balance(&lr_id(2)), 100);
    assert_eq!(ledger.transfer(&lr_id(3), &lr_id(2), 0), Ok(()));
    assert_eq!(ledger.transfer(&lr_id(3), &lr_id(2), 1), Err(PlatformError::Aborted));
}

#[test]
fn a_transfer_to_oneself_changes_nothing() {
    let mut ledger = Ledger::new(lr_id(60), 0);
    ledger.fund(&lr_id(1), 100).unwrap();
    assert_eq!(ledger.transfer(&lr_id(1), &lr_id(1), 100), Ok(()));
    assert_eq!(ledger.get_balance(&lr_id(1)), 100);
    assert_eq!(ledger.transfer(&lr_id(1), &lr_id(1), 101), Err(PlatformError::Aborted));
}

#[test]
fn a_transfer_of_the_whole_supply_does_not_overflow() {
    let mut ledger = Ledger::new(lr_id(60), 0);
    ledger.fund(&lr_id(1), u64::MAX).unwrap();
    assert_eq!(ledger.transfer(&lr_id(1), &lr_id(2), u64::MAX), Ok(()));
    assert_eq!(ledger.get_balance(&lr_id(2)), u64::MAX);
    assert_eq!(ledger.transfer(&lr_id(2), &lr_id(1), 1), Ok(()));
    assert_eq!(ledger.get_balance(&lr_id(1)), 1);
    assert_eq!(ledger.get_balance(&lr_id(2)), u64::MAX - 1);
}

#[test]
fn a_record_is_created_once_and_keeps_the_balance() {
    let mut ledger = Ledger::new(lr_id(60), 0);
    ledger.fund(&lr_id(1), 7).unwrap();
    assert_eq!(ledger.create(&lr_id(1), AccountData::Vault(VaultAccount {})), Ok(()));
    assert_eq!(ledger.get_balance(&lr_id(1)), 7);
    let wallet = WalletAccount { owner: lr_id(2), vault_program: lr_id(60), vault_pda: lr_id(1) };
    assert_eq!(
        ledger.create(&lr_id(1), AccountData::Wallet(wallet)),
        Err(PlatformError::AccountAlreadyInitialized)
    );
    assert!(matches!(ledger.get_data(&lr_id(1)), AccountData::Vault(_)));
    assert_eq!(ledger.create(&lr_id(3), AccountData::Wallet(wallet)), Ok(()));
    match ledger.get_data(&lr_id(3)) {
        AccountData::Wallet(stored) => {
            assert_eq!(stored.owner, lr_id(2));
            assert_eq!(stored.vault_program, lr_id(60));
            assert_eq!(stored.vault_pda, lr_id(1));
        }
        other => panic!("no wallet record: {:?}", other),
    }
    ledger.transfer(&lr_id(1), &lr_id(3), 7).unwrap();
    assert!(matches!(ledger.get_data(&lr_id(1)), AccountData::Vault(_)));
    assert!(matches!(ledger.get_data(&lr_id(3)), AccountData::Wallet(_)));
}
