use anchor_lang::prelude::Pubkey;
use anchor_lang::solana_program::system_instruction;
use smart_wallet::context::AccountInfo;
use smart_wallet::derivation::{
    check_derived, copy_seeds, vault_seeds, wallet_account_seeds, wallet_seeds, SigningProof,
};
use smart_wallet::error::{Failure, PlatformError};
use smart_wallet::identity::Identity;
use smart_wallet::instruction::{decode_transfer, transfer, AccountMeta, Instruction};
use smart_wallet::invoke::{invoke, invoke_signed};
use smart_wallet::ledger::Ledger;
use smart_wallet::smart_wallet::WithdrawArgs;
use std::str::FromStr;

const VAULT_PROGRAM: &str = "GArNcH5X1sQka24mZvrGuA3QqDhvE9CBe35ZugwNevoH";
const WALLET_PROGRAM: &str = "9RS7omQopJpsW3uYiCfxoTboEBtxo6a6o5GB5GCvmzUi";

fn oc_id(byte: u8) -> Identity {
    Identity { bytes: [byte; 32] }
}

fn oc_key(id: &Identity) -> Pubkey {
    Pubkey::new_from_array(id.bytes)
}

#[test]
fn base58_text_decodes_to_the_bytes_it_stands_for() {
    assert_eq!(
        Identity::from_base58("11111111111111111111111111111111"),
        Some(Identity { bytes: [0u8; 32] })
    );
    assert_eq!(Identity::from_base58("11111111111111111111111111111111"), Some(Identity::system()));
    let decoded = Identity::from_base58(VAULT_PROGRAM).unwrap();
    assert_eq!(decoded.bytes, Pubkey::from_str(VAULT_PROGRAM).unwrap().to_bytes());
    assert_ne!(decoded, Identity::from_base58(WALLET_PROGRAM).unwrap());
    assert_eq!(smart_wallet::vault::program_id(), Some(decoded));
    assert_eq!(smart_wallet::smart_wallet::vault_program_id(), Some(decoded));
    assert_eq!(
        smart_wallet::smart_wallet::program_id().unwrap().bytes,
        Pubkey::from_str(WALLET_PROGRAM).unwrap().to_bytes()
    );
}

#[test]
fn text_that_is_no_address_decodes_to_nothing() {
    assert_eq!(Identity::from_base58(""), None);
    assert_eq!(Identity::from_base58("vault"), None);
    assert_eq!(Identity::from_base58("0OIl"), None);
    assert_eq!(Identity::from_base58("GArNcH5X1sQka24mZvrGuA3QqDhvE9CBe35ZugwNevoHGArNcH5X1sQk"), None);
}

#[test]
fn identities_are_equal_when_their_bytes_are() {
    let mut bytes = [7u8; 32];
    assert_eq!(Identity::new(bytes), oc_id(7));
    assert_eq!(Identity::new(bytes).to_bytes(), bytes);
    bytes[31] = 8;
    assert_ne!(Identity::new(bytes), oc_id(7));
    bytes[31] = 7;
    bytes[0] = 6;
    assert_ne!(Identity::new(bytes), oc_id(7));
    assert_eq!(oc_id(7).to_seed(), vec![7u8; 32]);
}

#[test]
fn the_seeds_are_the_fixed_words_and_the_owner() {
    let owner = oc_id(9);
    assert_eq!(vault_seeds(), vec![b"vault".to_vec()]);
    assert_eq!(wallet_account_seeds(&owner), vec![b"wallet_account".to_vec(), vec![9u8; 32]]);
    assert_eq!(wallet_seeds(&owner), vec![b"wallet".to_vec(), vec![9u8; 32]]);
    assert_eq!(copy_seeds(&wallet_seeds(&owner)), wallet_seeds(&owner));
}

#[test]
fn derive_gives_the_platforms_address_and_bump() {
    let program = Identity::from_base58(VAULT_PROGRAM).unwrap();
    let derived = smart_wallet::derivation::derive(vault_seeds(), &program).unwrap();
    let (address, bump) = Pubkey::find_program_address(&[b"vault"], &oc_key(&program));
    assert_eq!(derived.address.bytes, address.to_bytes());
    assert_eq!(derived.bump, bump);
    assert_eq!(derived.seeds, vec![b"vault".to_vec()]);
    assert!(!address.is_on_curve());

    let wallet_program = Identity::from_base58(WALLET_PROGRAM).unwrap();
    let owner = oc_id(10);
    let wallet = smart_wallet::derivation::derive(wallet_seeds(&owner), &wallet_program).unwrap();
    let (address, bump) =
        Pubkey::find_program_address(&[b"wallet", &owner.bytes], &oc_key(&wallet_program));
    assert_eq!(wallet.address.bytes, address.to_bytes());
    assert_eq!(wallet.bump, bump);
}

#[test]
fn derive_twice_gives_the_same_address_and_bump() {
    let program = Identity::from_base58(WALLET_PROGRAM).unwrap();
    for byte in [0u8, 1, 77, 255] {
        let owner = oc_id(byte);
        let first = smart_wallet::derivation::derive(wallet_seeds(&owner), &program).unwrap();
        let second = smart_wallet::derivation::derive(wallet_seeds(&owner), &program).unwrap();
        assert_eq!(first.address, second.address);
        assert_eq!(first.bump, second.bump);
        assert_eq!(first.seeds, second.seeds);
    }
}

#[test]
fn derive_depends_on_the_seeds_and_on_the_program() {
    let vault_program = Identity::from_base58(VAULT_PROGRAM).unwrap();
    let wallet_program = Identity::from_base58(WALLET_PROGRAM).unwrap();
    let owner = oc_id(10);
    let a = smart_wallet::derivation::derive(wallet_seeds(&owner), &wallet_program).unwrap();
    let b = smart_wallet::derivation::derive(wallet_seeds(&oc_id(11)), &wallet_program).unwrap();
    let c = smart_wallet::derivation::derive(wallet_seeds(&owner), &vault_program).unwrap();
    let d = smart_wallet::derivation::derive(wallet_account_seeds(&owner), &wallet_program).unwrap();
    assert_ne!(a.address, b.address);
    assert_ne!(a.address, c.address);
    assert_ne!(a.address, d.address);
}

#[test]
fn the_bump_is_the_highest_that_gives_an_address() {
    let program = Identity::from_base58(WALLET_PROGRAM).unwrap();
    for byte in 0u8..24 {
        let owner = oc_id(byte);
        let derived = smart_wallet::derivation::derive(wallet_seeds(&owner), &program).unwrap();
        let with = |bump: u8| {
            Pubkey::create_program_address(&[b"wallet", &owner.bytes, &[bump]], &oc_key(&program))
        };
        assert_eq!(with(derived.bump).unwrap().to_bytes(), derived.address.bytes);
        for higher in (derived.bump as u16 + 1)..=255 {
            assert!(with(higher as u8).is_err());
        }
    }
}

#[test]
fn seeds_that_are_too_long_or_too_many_exhaust_the_bumps() {
    let program = Identity::from_base58(VAULT_PROGRAM).unwrap();
    assert_eq!(
        smart_wallet::derivation::derive(vec![vec![1u8; 33]], &program).err(),
        Some(PlatformError::DerivationExhausted)
    );
    assert_eq!(
        smart_wallet::derivation::derive(vec![vec![1u8]; 16], &program).err(),
        Some(PlatformError::DerivationExhausted)
    );
    assert!(smart_wallet::derivation::derive(vec![vec![1u8; 32]; 15], &program).is_ok());
    assert!(smart_wallet::derivation::derive(Vec::new(), &program).is_ok());
}

#[test]
fn check_derived_tells_a_match_from_a_mismatch() {
    let program = Identity::from_base58(VAULT_PROGRAM).unwrap();
    let derived = smart_wallet::derivation::derive(vault_seeds(), &program).unwrap();
    let checked = check_derived(vault_seeds(), &program, &derived.address).unwrap();
    assert_eq!(checked.address, derived.address);
    assert_eq!(checked.bump, derived.bump);
    assert_eq!(
        check_derived(vault_seeds(), &program, &oc_id(5)).err(),
        Some(PlatformError::DerivationMismatch)
    );
    assert_eq!(
        check_derived(vec![vec![0u8; 40]], &program, &derived.address).err(),
        Some(PlatformError::DerivationExhausted)
    );
}

#[test]
fn a_signing_proof_signs_for_its_address_and_only_for_its_program() {
    let program = Identity::from_base58(WALLET_PROGRAM).unwrap();
    let owner = oc_id(10);
    let derived = smart_wallet::derivation::derive(wallet_seeds(&owner), &program).unwrap();
    let address = derived.address;
    let bump = derived.bump;
    let signing = derived.into_proof(program);
    assert_eq!(signing.signer(&program), Some(address));
    assert_eq!(signing.signer(&oc_id(1)), None);
    assert_eq!(
        address.bytes,
        Pubkey::create_program_address(&[b"wallet", &owner.bytes, &[bump]], &oc_key(&program))
            .unwrap()
            .to_bytes()
    );

    let elsewhere = SigningProof { seeds: wallet_seeds(&owner), bump, program: oc_id(1) };
    let under_other = elsewhere.signer(&oc_id(1));
    assert_ne!(under_other, Some(address));

    let mut on_curve = None;
    for candidate in 0u8..=255 {
        let tried = SigningProof { seeds: wallet_seeds(&owner), bump: candidate, program };
        if tried.signer(&program).is_none() {
            on_curve = Some(candidate);
            break;
        }
    }
    let candidate = on_curve.expect("some bump gives a point of the curve");
    assert!(Pubkey::create_program_address(
        &[b"wallet", &owner.bytes, &[candidate]],
        &oc_key(&program)
    )
    .is_err());
}

#[test]
fn the_native_transfer_is_what_the_platform_builds() {
    let from = oc_id(3);
    let to = oc_id(4);
    let built = transfer(&from, &to, 1_000_000);
    let theirs = system_instruction::transfer(&oc_key(&from), &oc_key(&to), 1_000_000);
    assert_eq!(built.program_id.bytes, theirs.program_id.to_bytes());
    assert_eq!(built.program_id, Identity::system());
    assert_eq!(built.data, theirs.data);
    assert_eq!(built.data, vec![2u8, 0, 0, 0, 0x40, 0x42, 0x0f, 0, 0, 0, 0, 0]);
    assert_eq!(built.accounts.len(), 2);
    assert_eq!(built.accounts[0].pubkey, from);
    assert!(built.accounts[0].is_signer);
    assert!(built.accounts[0].is_writable);
    assert_eq!(built.accounts[1].pubkey, to);
    assert!(!built.accounts[1].is_signer);
    assert!(built.accounts[1].is_writable);
    assert_eq!(decode_transfer(&built.data), Some(1_000_000));
    assert_eq!(decode_transfer(&transfer(&from, &to, u64::MAX).data), Some(u64::MAX));
    assert_eq!(decode_transfer(&transfer(&from, &to, 0).data), Some(0));
}

#[test]
fn a_payload_that_is_no_transfer_decodes_to_nothing() {
    assert_eq!(decode_transfer(&vec![]), None);
    assert_eq!(decode_transfer(&vec![2, 0, 0, 0, 1, 0, 0, 0, 0, 0, 0]), None);
    assert_eq!(decode_transfer(&vec![3, 0, 0, 0, 1, 0, 0, 0, 0, 0, 0, 0]), None);
    assert_eq!(decode_transfer(&vec![2, 0, 0, 1, 1, 0, 0, 0, 0, 0, 0, 0]), None);
    assert_eq!(decode_transfer(&vec![2, 0, 0, 0, 1, 2, 0, 0, 0, 0, 0, 0]), Some(513));
    assert_eq!(decode_transfer(&vec![2, 0, 0, 0, 1, 2, 0, 0, 0, 0, 0, 0, 9, 9]), Some(513));
}

#[test]
fn the_withdraw_payload_is_the_operation_and_the_amount_lowest_byte_first() {
    let args = WithdrawArgs { instruction: 2, amount: 500_000 };
    assert_eq!(args.to_bytes(), vec![2u8, 0x20, 0xa1, 0x07, 0, 0, 0, 0, 0]);
    assert_eq!(args.to_bytes(), anchor_lang::prelude::borsh::to_vec(&(2u8, 500_000u64)).unwrap());
    assert_eq!(WithdrawArgs::from_bytes(&args.to_bytes()), Some(args));
    let most = WithdrawArgs { instruction: 255, amount: u64::MAX };
    assert_eq!(most.to_bytes(), vec![255u8; 9]);
    assert_eq!(WithdrawArgs::from_bytes(&most.to_bytes()), Some(most));
    assert_eq!(WithdrawArgs::from_bytes(&vec![2u8; 8]), None);
    assert_eq!(WithdrawArgs::from_bytes(&vec![2u8; 10]), None);
    assert_eq!(WithdrawArgs::from_bytes(&vec![]), None);
}

#[test]
fn account_metas_say_what_may_change() {
    let meta = AccountMeta::new(oc_id(1), true);
    assert!(meta.is_writable && meta.is_signer && meta.pubkey == oc_id(1));
    let meta = AccountMeta::new_readonly(oc_id(2), false);
    assert!(!meta.is_writable && !meta.is_signer && meta.pubkey == oc_id(2));
    let theirs = anchor_lang::prelude::AccountMeta::new_readonly(oc_key(&oc_id(2)), false);
    assert_eq!(
        (meta.pubkey.bytes, meta.is_signer, meta.is_writable),
        (theirs.pubkey.to_bytes(), theirs.is_signer, theirs.is_writable)
    );
}

#[test]
fn a_call_needs_every_signature_that_its_instruction_asks_for() {
    let caller = oc_id(50);
    let from = oc_id(3);
    let to = oc_id(4);
    let mut ledger = Ledger::new(oc_id(60), 0);
    ledger.fund(&from, 100).unwrap();
    let ix = transfer(&from, &to, 40);

    let unsigned = vec![AccountInfo::unsigned(from), AccountInfo::unsigned(to)];
    assert_eq!(
        invoke(&mut ledger, &caller, &ix, &unsigned),
        Err(Failure::Platform(PlatformError::Aborted))
    );
    let wrong_signer = vec![AccountInfo::unsigned(from), AccountInfo::signer(to)];
    assert_eq!(
        invoke(&mut ledger, &caller, &ix, &wrong_signer),
        Err(Failure::Platform(PlatformError::Aborted))
    );
    assert_eq!(ledger.get_balance(&from), 100);

    let signed = vec![AccountInfo::signer(from), AccountInfo::unsigned(to)];
    assert_eq!(invoke(&mut ledger, &caller, &ix, &signed), Ok(()));
    assert_eq!(ledger.get_balance(&from), 60);
    assert_eq!(ledger.get_balance(&to), 40);
    assert_eq!(
        invoke(&mut ledger, &caller, &transfer(&from, &to, 61), &signed),
        Err(Failure::Platform(PlatformError::Aborted))
    );
}

#[test]
fn a_program_signs_for_the_address_it_derives_and_for_no_other() {
    let caller = Identity::from_base58(WALLET_PROGRAM).unwrap();
    let owner = oc_id(10);
    let derived = smart_wallet::derivation::derive(wallet_seeds(&owner), &caller).unwrap();
    let pda = derived.address;
    let bump = derived.bump;
    let signing = derived.into_proof(caller);
    let to = oc_id(4);
    let mut ledger = Ledger::new(oc_id(60), 0);
    ledger.fund(&pda, 100).unwrap();
    ledger.fund(&oc_id(5), 100).unwrap();
    let infos = vec![AccountInfo::unsigned(pda), AccountInfo::unsigned(to)];

    assert_eq!(
        invoke(&mut ledger, &caller, &transfer(&pda, &to, 10), &infos),
        Err(Failure::Platform(PlatformError::Aborted))
    );
    assert_eq!(invoke_signed(&mut ledger, &caller, &transfer(&pda, &to, 10), &infos, &signing), Ok(()));
    assert_eq!(ledger.get_balance(&pda), 90);
    assert_eq!(ledger.get_balance(&to), 10);

    assert_eq!(
        invoke_signed(&mut ledger, &caller, &transfer(&oc_id(5), &to, 10), &infos, &signing),
        Err(Failure::Platform(PlatformError::Aborted))
    );
    assert_eq!(
        invoke_signed(&mut ledger, &oc_id(51), &transfer(&pda, &to, 10), &infos, &signing),
        Err(Failure::Platform(PlatformError::DerivationMismatch))
    );
    let foreign = SigningProof { seeds: wallet_seeds(&owner), bump, program: oc_id(51) };
    assert_eq!(
        invoke_signed(&mut ledger, &caller, &transfer(&pda, &to, 10), &infos, &foreign),
        Err(Failure::Platform(PlatformError::DerivationMismatch))
    );
    assert_eq!(ledger.get_balance(&oc_id(5)), 100);
    assert_eq!(ledger.get_balance(&pda), 90);
}

#[test]
fn a_call_into_a_program_that_the_platform_does_not_know_is_given_up() {
    let mut ledger = Ledger::new(oc_id(60), 0);
    let ix = Instruction { program_id: oc_id(61), accounts: Vec::new(), data: Vec::new() };
    assert_eq!(
        invoke(&mut ledger, &oc_id(50), &ix, &Vec::new()),
        Err(Failure::Platform(PlatformError::Aborted))
    );
    let to_vault = Instruction { program_id: oc_id(60), accounts: Vec::new(), data: vec![2u8; 9] };
    assert_eq!(
        invoke(&mut ledger, &oc_id(50), &to_vault, &Vec::new()),
        Err(Failure::Platform(PlatformError::Aborted))
    );
    let native = Instruction { program_id: Identity::system(), accounts: Vec::new(), data: vec![2u8; 9] };
    assert_eq!(
        invoke(&mut ledger, &oc_id(50), &native, &Vec::new()),
        Err(Failure::Platform(PlatformError::Aborted))
    );
}

#[test]
fn the_vaults_address_under_the_deployed_program_is_the_known_one() {
    let program = smart_wallet::smart_wallet::vault_program_id().unwrap();
    let derived = smart_wallet::derivation::derive(vault_seeds(), &program).unwrap();
    assert_eq!(
        Some(derived.address),
        Identity::from_base58("93XAG4BtLd4d6WQtuAfTAyg85yoXHMZiBrF9Aw8PcXvK")
    );
    assert_eq!(smart_wallet::vault::VAULT_ACCOUNT_SPACE, 8);
    assert_eq!(smart_wallet::smart_wallet::WALLET_ACCOUNT_SPACE, 104);
    assert_eq!(smart_wallet::vault::WITHDRAW_OPCODE, 2);
}
