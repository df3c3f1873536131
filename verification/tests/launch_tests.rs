use solana_sdk::pubkey::Pubkey;
use solana_sdk::signature::Keypair;
use spl_token_2022::extension::ExtensionType;
use spl_token_2022::solana_zk_sdk::encryption::elgamal::ElGamalKeypair;
use spl_token_2022::state::Mint;
use stealth_launch::cli::{ConfigureArgs, CreateArgs};
use stealth_launch::config::load_keypair;
use stealth_launch::error::{ErrorKind, StealthLaunchError};
use stealth_launch::instructions::{
    create_mint_instructions, create_token_account_instruction, mint_account_space,
    reallocate_instruction, signers_for, AccountMeta, Instruction, Signers,
};
use stealth_launch::launch::{plan_create, Launch, Step};
use stealth_launch::ledger::{must_create_account, signer_address, token_account_address};

fn plain(ix: &solana_sdk::instruction::Instruction) -> Instruction {
    Instruction {
        program_id: ix.program_id.to_bytes(),
        accounts: ix
            .accounts
            .iter()
            .map(|m| AccountMeta {
                pubkey: m.pubkey.to_bytes(),
                is_signer: m.is_signer,
                is_writable: m.is_writable,
            })
            .collect(),
        data: ix.data.clone(),
    }
}

fn args(supply: u64, auditor: Option<String>) -> CreateArgs {
    CreateArgs {
        name: String::from("Token"),
        symbol: String::from("TKN"),
        supply,
        decimals: 9,
        auditor,
        keypair: String::from("~/.config/solana/id.json"),
        rpc: String::from("http://localhost:8899"),
    }
}

fn run(mut launch: Launch, outcomes: &[bool]) -> (Vec<Step>, Launch) {
    let mut asked = Vec::new();
    let mut next = launch.pending();
    for ok in outcomes {
        match next {
            Some(step) => asked.push(step),
            None => break,
        }
        next = launch.advance(*ok);
    }
    (asked, launch)
}

#[test]
fn token_with_supply_is_created_configured_minted_and_deposited() {
    let (asked, launch) = run(Launch::create(1_000), &[true; 10]);
    assert_eq!(
        asked,
        vec![
            Step::CreateMint,
            Step::CreateTokenAccount,
            Step::Reallocate,
            Step::ConfigureAccount,
            Step::MintTo,
            Step::Deposit,
            Step::ApplyPendingBalance,
        ]
    );
    assert!(launch.succeeded());
    assert_eq!(launch.pending(), None);
    assert_eq!(launch.failed_step(), None);
}

#[test]
fn token_without_supply_is_not_minted() {
    let (asked, launch) = run(Launch::create(0), &[true; 10]);
    assert_eq!(
        asked,
        vec![Step::CreateMint, Step::CreateTokenAccount, Step::Reallocate, Step::ConfigureAccount]
    );
    assert!(launch.succeeded());
}

#[test]
fn failed_step_ends_the_command() {
    let (asked, mut launch) = run(Launch::create(5), &[true, true, false, true, true]);
    assert_eq!(asked, vec![Step::CreateMint, Step::CreateTokenAccount, Step::Reallocate]);
    assert!(!launch.succeeded());
    assert_eq!(launch.failed_step(), Some(Step::Reallocate));
    assert_eq!(launch.pending(), None);
    assert_eq!(launch.advance(true), None);
    assert_eq!(launch.failed_step(), Some(Step::Reallocate));
}

#[test]
fn existing_account_is_not_created_again() {
    let (asked, _) = run(Launch::configure(true), &[true; 5]);
    assert_eq!(asked, vec![Step::Reallocate, Step::ConfigureAccount]);
    let (asked, launch) = run(Launch::configure(false), &[true; 5]);
    assert_eq!(asked, vec![Step::CreateTokenAccount, Step::Reallocate, Step::ConfigureAccount]);
    assert!(launch.succeeded());
    assert!(must_create_account(None));
    assert!(!must_create_account(Some(&[1u8, 2, 3])));
}

#[test]
fn plan_reads_the_auditor_and_the_supply() {
    let auditor = ElGamalKeypair::new_from_signer(&Keypair::new_from_array([8; 32]), b"elgamal")
        .unwrap();
    let public: [u8; 32] = (*auditor.pubkey()).into();
    let plan = plan_create(&args(10, Some(bs58::encode(public).into_string()))).unwrap();
    assert_eq!(plan.auditor, Some(public));
    assert_eq!(plan.launch.pending(), Some(Step::CreateMint));

    let plan = plan_create(&args(0, None)).unwrap();
    assert_eq!(plan.auditor, None);
    let (asked, _) = run(plan.launch, &[true; 10]);
    assert_eq!(asked.len(), 4);

    let err = plan_create(&args(10, Some(String::from("not a key")))).unwrap_err();
    assert!(matches!(err, StealthLaunchError::InvalidAuditorPubkey(_)));
    assert_eq!(err.kind(), ErrorKind::InvalidInput);
}

#[test]
fn mint_is_created_then_made_confidential_then_initialized() {
    let payer = [3u8; 32];
    let mint = [4u8; 32];
    let auditor = ElGamalKeypair::new_from_signer(&Keypair::new_from_array([8; 32]), b"elgamal")
        .unwrap();
    let public: [u8; 32] = (*auditor.pubkey()).into();
    let space = mint_account_space().unwrap();
    let expected_space =
        ExtensionType::try_calculate_account_len::<Mint>(&[ExtensionType::ConfidentialTransferMint])
            .unwrap();
    assert_eq!(space, expected_space as u64);
    assert_eq!(
        stealth_launch::instructions::CONFIDENTIAL_TRANSFER_MINT,
        u16::from(ExtensionType::ConfidentialTransferMint)
    );
    let plain_mint = ExtensionType::try_calculate_account_len::<Mint>(&[]).unwrap();
    assert!(space > plain_mint as u64);

    let list = create_mint_instructions(&payer, &mint, &Some(public), 6, 1_000_000, space).unwrap();
    let payer_key = Pubkey::new_from_array(payer);
    let mint_key = Pubkey::new_from_array(mint);
    let expected = vec![
        plain(&solana_system_interface::instruction::create_account(
            &payer_key,
            &mint_key,
            1_000_000,
            space,
            &spl_token_2022::id(),
        )),
        plain(
            &spl_token_2022::extension::confidential_transfer::instruction::initialize_mint(
                &spl_token_2022::id(),
                &mint_key,
                Some(payer_key),
                true,
                Some(public.into()),
            )
            .unwrap(),
        ),
        plain(
            &spl_token_2022::instruction::initialize_mint(
                &spl_token_2022::id(),
                &mint_key,
                &payer_key,
                None,
                6,
            )
            .unwrap(),
        ),
    ];
    assert_eq!(list, expected);
    assert_eq!(list[0].accounts[1].pubkey, mint);
    assert!(list[0].accounts[1].is_signer);
}

#[test]
fn mint_with_an_all_zero_authority_is_refused() {
    let err = create_mint_instructions(&[0u8; 32], &[4u8; 32], &None, 6, 1, 1).unwrap_err();
    assert!(matches!(err, StealthLaunchError::TransactionFailed(_)));
    assert_eq!(err.kind(), ErrorKind::TransferExecutionFailed);
}

#[test]
fn token_account_instructions_are_those_of_the_ledger_libraries() {
    let payer = [3u8; 32];
    let owner = [5u8; 32];
    let mint = [4u8; 32];
    let account = token_account_address(&owner, &mint);
    let expected_account =
        spl_associated_token_account::get_associated_token_address_with_program_id(
            &Pubkey::new_from_array(owner),
            &Pubkey::new_from_array(mint),
            &spl_token_2022::id(),
        );
    assert_eq!(account, expected_account.to_bytes());
    assert_ne!(account, owner);

    let create = create_token_account_instruction(&payer, &owner, &mint);
    let expected_create =
        spl_associated_token_account::instruction::create_associated_token_account(
            &Pubkey::new_from_array(payer),
            &Pubkey::new_from_array(owner),
            &Pubkey::new_from_array(mint),
            &spl_token_2022::id(),
        );
    assert_eq!(create, plain(&expected_create));

    let realloc = reallocate_instruction(&account, &payer, &owner).unwrap();
    let owner_key = Pubkey::new_from_array(owner);
    let expected_realloc = spl_token_2022::instruction::reallocate(
        &spl_token_2022::id(),
        &expected_account,
        &Pubkey::new_from_array(payer),
        &owner_key,
        &[&owner_key],
        &[ExtensionType::ConfidentialTransferAccount],
    )
    .unwrap();
    assert_eq!(realloc, plain(&expected_realloc));
}

#[test]
fn owner_signs_alone_when_the_owner_pays() {
    assert_eq!(signers_for(&[1; 32], &[1; 32]), Signers::Owner);
    assert_eq!(signers_for(&[1; 32], &[2; 32]), Signers::FeePayerAndOwner);
    let named = ConfigureArgs {
        mint: [0; 32],
        owner: String::from("owner.json"),
        fee_payer: Some(String::from("payer.json")),
        rpc: String::new(),
    };
    assert_eq!(named.fee_payer_path(), "payer.json");
    assert!(!named.owner_pays());
    let unnamed = ConfigureArgs { fee_payer: None, ..named };
    assert_eq!(unnamed.fee_payer_path(), "owner.json");
    assert!(unnamed.owner_pays());
}

#[test]
fn key_file_holds_a_json_array_of_the_keypair_bytes() {
    let identity = Keypair::new_from_array([7; 32]);
    let bytes = identity.to_bytes();
    let text = format!("{:?}", bytes.to_vec());
    let loaded = load_keypair(&text).unwrap();
    assert_eq!(loaded, bytes.to_vec());
    let address = signer_address(&loaded).unwrap();
    assert_eq!(address, solana_sdk::signer::Signer::pubkey(&identity).to_bytes());
    assert_eq!(signer_address(&[1u8; 63]), None);
}

#[test]
fn key_file_with_anything_else_is_an_invalid_keypair() {
    for text in ["", "not json", "[1,2,3]", "[256]", "{\"a\":1}"] {
        let err = load_keypair(text).unwrap_err();
        assert!(matches!(err, StealthLaunchError::InvalidKeypair));
    }
    let mut mismatched = Keypair::new_from_array([7; 32]).to_bytes().to_vec();
    mismatched[63] ^= 1;
    assert!(load_keypair(&format!("{:?}", mismatched)).is_err());
}
