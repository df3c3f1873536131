use solana_sdk::pubkey::Pubkey;
use solana_sdk::signature::Keypair;
use spl_token_2022::extension::confidential_transfer::ConfidentialTransferAccount;
use spl_token_2022::extension::{BaseStateWithExtensionsMut, ExtensionType, StateWithExtensionsMut};
use spl_token_2022::solana_zk_sdk::encryption::auth_encryption::AeKey;
use spl_token_2022::solana_zk_sdk::encryption::elgamal::ElGamalKeypair;
use spl_token_2022::state::{Account, AccountState};
use stealth_launch::balance::{
    combine_pending, decrypt_balances, fetch_and_decrypt, PlaintextBalances,
};
use stealth_launch::crypto::ConfidentialKeys;
use stealth_launch::error::{ErrorKind, StealthLaunchError};
use stealth_launch::ledger::read_account;

fn signer(tag: u8) -> Keypair {
    Keypair::new_from_array([tag; 32])
}

fn keys_of(identity: &Keypair) -> ConfidentialKeys {
    ConfidentialKeys::derive_from_keypair(&identity.to_bytes()).unwrap()
}

fn pack(public: u64, extension: Option<ConfidentialTransferAccount>) -> Vec<u8> {
    let kinds = if extension.is_some() {
        vec![ExtensionType::ConfidentialTransferAccount]
    } else {
        Vec::new()
    };
    let len = ExtensionType::try_calculate_account_len::<Account>(&kinds).unwrap();
    let mut data = vec![0u8; len];
    let mut state = StateWithExtensionsMut::<Account>::unpack_uninitialized(&mut data).unwrap();
    if let Some(fields) = extension {
        *state.init_extension::<ConfidentialTransferAccount>(true).unwrap() = fields;
    }
    state.base = Account {
        mint: Pubkey::new_from_array([1; 32]),
        owner: Pubkey::new_from_array([2; 32]),
        amount: public,
        state: AccountState::Initialized,
        ..Account::default()
    };
    state.pack_base();
    if !kinds.is_empty() {
        state.init_account_type().unwrap();
    }
    data
}

fn confidential(owner: &Keypair, available: u64, lo: u64, hi: u64) -> ConfidentialTransferAccount {
    let elgamal = ElGamalKeypair::new_from_signer(owner, b"elgamal").unwrap();
    let aes = AeKey::new_from_signer(owner, b"aes").unwrap();
    ConfidentialTransferAccount {
        approved: true.into(),
        elgamal_pubkey: (*elgamal.pubkey()).into(),
        pending_balance_lo: elgamal.pubkey().encrypt(lo).into(),
        pending_balance_hi: elgamal.pubkey().encrypt(hi).into(),
        available_balance: elgamal.pubkey().encrypt(available).into(),
        decryptable_available_balance: aes.encrypt(available).into(),
        ..ConfidentialTransferAccount::default()
    }
}

#[test]
fn owner_reads_available_pending_and_public_balance() {
    let owner = signer(3);
    let data = pack(77, Some(confidential(&owner, 1000, 0x1234, 2)));
    let balances = fetch_and_decrypt(Some(&data), "wallet", &keys_of(&owner)).unwrap();
    assert_eq!(
        balances,
        PlaintextBalances { available: 1000, pending: Some(135_732), public: 77 }
    );
    assert!(balances.has_pending());
    assert!(balances.has_public_balance());
}

#[test]
fn encrypted_amounts_come_back_exactly() {
    let owner = signer(4);
    let keys = keys_of(&owner);
    for amount in [0u64, 1, 65_535, 65_536, 1 << 40, u64::MAX] {
        let data = pack(0, Some(confidential(&owner, amount, 0, 0)));
        let balances = fetch_and_decrypt(Some(&data), "wallet", &keys).unwrap();
        assert_eq!(balances.available, amount);
        assert_eq!(balances.pending, Some(0));
        assert!(!balances.has_pending());
        assert!(!balances.has_public_balance());
    }
}

#[test]
fn other_key_fails_to_decrypt() {
    let owner = signer(3);
    let stranger = signer(5);
    let data = pack(0, Some(confidential(&owner, 1000, 1, 1)));
    let err = fetch_and_decrypt(Some(&data), "wallet", &keys_of(&stranger)).unwrap_err();
    assert!(matches!(err, StealthLaunchError::DecryptionFailed(_)));
    assert_eq!(err.kind(), ErrorKind::DecryptionFailed);
}

#[test]
fn pending_limb_under_another_key_leaves_pending_absent() {
    let owner = signer(3);
    let stranger = signer(5);
    let mut fields = confidential(&owner, 1000, 7, 0);
    let foreign = ElGamalKeypair::new_from_signer(&stranger, b"elgamal").unwrap();
    fields.pending_balance_hi = foreign.pubkey().encrypt(1u64).into();
    let account = read_account(Some(&pack(0, Some(fields))), "wallet").unwrap();
    let balances = decrypt_balances(&account, &keys_of(&owner)).unwrap();
    assert_eq!(balances.available, 1000);
    assert_eq!(balances.pending, None);
    assert!(!balances.has_pending());
}

#[test]
fn account_without_the_extension_is_not_configured() {
    let owner = signer(3);
    let data = pack(5, None);
    let err = fetch_and_decrypt(Some(&data), "wallet", &keys_of(&owner)).unwrap_err();
    assert!(matches!(err, StealthLaunchError::ConfidentialTransferNotConfigured));
    assert_eq!(err.kind(), ErrorKind::ExtensionMissing);
}

#[test]
fn missing_account_is_reported_for_its_wallet() {
    let keys = keys_of(&signer(3));
    let err = fetch_and_decrypt(None, "9xQeWvG816bUx9EP", &keys).unwrap_err();
    match &err {
        StealthLaunchError::TokenAccountNotFound { wallet } => assert_eq!(wallet, "9xQeWvG816bUx9EP"),
        other => panic!("unexpected error: {:?}", other),
    }
    assert_eq!(err.kind(), ErrorKind::AccountNotFound);
    let garbage = fetch_and_decrypt(Some(&[0u8; 40]), "w", &keys).unwrap_err();
    assert!(matches!(garbage, StealthLaunchError::TokenAccountNotFound { .. }));
}

#[test]
fn pending_balance_is_hi_shifted_by_sixteen_bits_or_lo() {
    assert_eq!(combine_pending(Some(0x1234), Some(0x0002)), Some(0x0002_1234));
    assert_eq!(combine_pending(Some(0xffff), Some(0xffff)), Some(0xffff_ffff));
    assert_eq!(combine_pending(Some(0), Some(0)), Some(0));
    assert_eq!(combine_pending(Some(5), Some(0xffff_ffff)), Some(0xffff_ffff_0005));
    assert_eq!(combine_pending(None, Some(1)), None);
    assert_eq!(combine_pending(Some(1), None), None);
    assert_eq!(combine_pending(None, None), None);
}
