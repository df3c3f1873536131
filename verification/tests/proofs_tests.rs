use solana_sdk::pubkey::Pubkey;
use solana_sdk::signature::Keypair;
use spl_token_2022::extension::confidential_transfer::{
    ConfidentialTransferAccount, ConfidentialTransferMint,
};
use spl_token_2022::extension::{BaseStateWithExtensionsMut, ExtensionType, StateWithExtensionsMut};
use spl_token_2022::solana_zk_sdk::encryption::auth_encryption::AeKey;
use spl_token_2022::solana_zk_sdk::encryption::elgamal::{ElGamalCiphertext, ElGamalKeypair};
use spl_token_2022::state::{Account, AccountState, Mint};
use stealth_launch::crypto::ConfidentialKeys;
use stealth_launch::error::{ErrorKind, StealthLaunchError};
use stealth_launch::ledger::{read_account, read_mint, MintConfig, TokenAccount};
use stealth_launch::proofs::{check_auditor, generate, proof_request, same_key};

fn signer(tag: u8) -> Keypair {
    Keypair::new_from_array([tag; 32])
}

fn elgamal_of(identity: &Keypair) -> ElGamalKeypair {
    ElGamalKeypair::new_from_signer(identity, b"elgamal").unwrap()
}

fn account(owner: &Keypair, available: u64) -> TokenAccount {
    let elgamal = elgamal_of(owner);
    let aes = AeKey::new_from_signer(owner, b"aes").unwrap();
    let fields = ConfidentialTransferAccount {
        approved: true.into(),
        elgamal_pubkey: (*elgamal.pubkey()).into(),
        pending_balance_lo: elgamal.pubkey().encrypt(0u64).into(),
        pending_balance_hi: elgamal.pubkey().encrypt(0u64).into(),
        available_balance: elgamal.pubkey().encrypt(available).into(),
        decryptable_available_balance: aes.encrypt(available).into(),
        ..ConfidentialTransferAccount::default()
    };
    let kinds = [ExtensionType::ConfidentialTransferAccount];
    let len = ExtensionType::try_calculate_account_len::<Account>(&kinds).unwrap();
    let mut data = vec![0u8; len];
    let mut state = StateWithExtensionsMut::<Account>::unpack_uninitialized(&mut data).unwrap();
    *state.init_extension::<ConfidentialTransferAccount>(true).unwrap() = fields;
    state.base = Account {
        mint: Pubkey::new_from_array([1; 32]),
        owner: Pubkey::new_from_array([2; 32]),
        state: AccountState::Initialized,
        ..Account::default()
    };
    state.pack_base();
    state.init_account_type().unwrap();
    read_account(Some(&data), "wallet").unwrap()
}

fn mint_data(decimals: u8, auditor: Option<&ElGamalKeypair>) -> Vec<u8> {
    let kinds = [ExtensionType::ConfidentialTransferMint];
    let len = ExtensionType::try_calculate_account_len::<Mint>(&kinds).unwrap();
    let mut data = vec![0u8; len];
    let mut state = StateWithExtensionsMut::<Mint>::unpack_uninitialized(&mut data).unwrap();
    let extension = state.init_extension::<ConfidentialTransferMint>(true).unwrap();
    extension.auto_approve_new_accounts = true.into();
    extension.auditor_elgamal_pubkey = auditor.map(|a| (*a.pubkey()).into()).try_into().unwrap();
    state.base = Mint { decimals, is_initialized: true, ..Mint::default() };
    state.pack_base();
    state.init_account_type().unwrap();
    data
}

fn mint(decimals: u8, auditor: Option<&ElGamalKeypair>) -> MintConfig {
    read_mint(&mint_data(decimals, auditor)).unwrap()
}

#[test]
fn mint_configuration_is_read_from_the_ledger() {
    let auditor = elgamal_of(&signer(30));
    let with = mint(6, Some(&auditor));
    assert_eq!(with.decimals, 6);
    let public: [u8; 32] = (*auditor.pubkey()).into();
    assert_eq!(with.auditor_elgamal_pubkey, Some(public));
    let without = mint(9, None);
    assert_eq!(without.decimals, 9);
    assert_eq!(without.auditor_elgamal_pubkey, None);
    let err = read_mint(&[0u8; 10]).unwrap_err();
    assert!(matches!(err, StealthLaunchError::ConfidentialTransferNotConfigured));
}

#[test]
fn request_binds_the_fetched_ciphertexts_and_the_mint_auditor() {
    let source = account(&signer(10), 1000);
    let destination = account(&signer(20), 0);
    let auditor = elgamal_of(&signer(30));
    let config = mint(9, Some(&auditor));
    let request = proof_request(&source, &destination, &config, 300).unwrap();
    assert_eq!(Some(request.source_available), source.available_balance);
    assert_eq!(Some(request.source_decryptable), source.decryptable_available_balance);
    assert_eq!(Some(request.destination_pubkey), destination.elgamal_pubkey);
    assert_eq!(request.auditor_pubkey, config.auditor_elgamal_pubkey);
    assert_eq!(request.amount, 300);
}

#[test]
fn bundle_for_a_mint_with_auditor_lets_the_auditor_read_the_amount() {
    let owner = signer(10);
    let keys = ConfidentialKeys::derive_from_keypair(&owner.to_bytes()).unwrap();
    let source = account(&owner, 1_000_000);
    let destination = account(&signer(20), 0);
    let auditor = elgamal_of(&signer(30));
    let config = mint(9, Some(&auditor));
    let amount: u64 = 5 * 65_536 + 300;
    let request = proof_request(&source, &destination, &config, amount).unwrap();
    let bundle = generate(&request, &keys, &config).unwrap();
    assert_eq!(bundle.request.amount, amount);

    let with_ciphertext = &bundle.data.ciphertext_validity_proof_data_with_ciphertext;
    let lo = ElGamalCiphertext::try_from(with_ciphertext.ciphertext_lo).unwrap();
    let hi = ElGamalCiphertext::try_from(with_ciphertext.ciphertext_hi).unwrap();
    assert_eq!(auditor.secret().decrypt_u32(&lo), Some(300));
    assert_eq!(auditor.secret().decrypt_u32(&hi), Some(5));
}

#[test]
fn request_that_omits_the_mint_auditor_is_rejected() {
    let owner = signer(10);
    let keys = ConfidentialKeys::derive_from_keypair(&owner.to_bytes()).unwrap();
    let source = account(&owner, 1000);
    let destination = account(&signer(20), 0);
    let auditor = elgamal_of(&signer(30));
    let config = mint(9, Some(&auditor));
    let mut request = proof_request(&source, &destination, &config, 300).unwrap();
    request.auditor_pubkey = None;
    let err = generate(&request, &keys, &config).err().unwrap();
    assert!(matches!(err, StealthLaunchError::ProofGenerationFailed));
    assert_eq!(err.kind(), ErrorKind::ProofGenerationFailed);

    let other = elgamal_of(&signer(31));
    request.auditor_pubkey = Some((*other.pubkey()).into());
    assert!(generate(&request, &keys, &config).is_err());
}

#[test]
fn bundle_without_auditor_for_a_mint_without_one() {
    let owner = signer(10);
    let keys = ConfidentialKeys::derive_from_keypair(&owner.to_bytes()).unwrap();
    let source = account(&owner, 1000);
    let destination = account(&signer(20), 0);
    let config = mint(9, None);
    let request = proof_request(&source, &destination, &config, 1000).unwrap();
    assert_eq!(request.auditor_pubkey, None);
    assert!(generate(&request, &keys, &config).is_ok());
}

#[test]
fn amount_above_the_encrypted_balance_gives_no_proofs() {
    let owner = signer(10);
    let keys = ConfidentialKeys::derive_from_keypair(&owner.to_bytes()).unwrap();
    let source = account(&owner, 1000);
    let destination = account(&signer(20), 0);
    let config = mint(9, None);
    let request = proof_request(&source, &destination, &config, 1001).unwrap();
    let err = generate(&request, &keys, &config).err().unwrap();
    assert!(matches!(err, StealthLaunchError::ProofGenerationFailed));
}

#[test]
fn keys_of_another_identity_give_no_proofs() {
    let source = account(&signer(10), 1000);
    let destination = account(&signer(20), 0);
    let config = mint(9, None);
    let stranger = ConfidentialKeys::derive_from_keypair(&signer(11).to_bytes()).unwrap();
    let request = proof_request(&source, &destination, &config, 10).unwrap();
    assert!(generate(&request, &stranger, &config).is_err());
}

#[test]
fn auditor_rule_compares_keys_byte_by_byte() {
    let a = [1u8; 32];
    let mut b = [1u8; 32];
    assert!(same_key(&a, &b));
    assert!(check_auditor(&Some(a), &Some(b)));
    b[31] = 2;
    assert!(!same_key(&a, &b));
    assert!(!check_auditor(&Some(a), &Some(b)));
    assert!(check_auditor(&None, &None));
    assert!(!check_auditor(&Some(a), &None));
    assert!(!check_auditor(&None, &Some(a)));
}
