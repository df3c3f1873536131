//! The ledger instructions that set up a confidential mint and a token
//! account, as plain values. They are built by the ledger's own libraries;
//! what is decided here is which are built, from what, and in which order.

use vstd::prelude::*;
use crate::error::StealthLaunchError;
use solana_sdk::pubkey::Pubkey;
use solana_system_interface::instruction::create_account;
use spl_associated_token_account::instruction::create_associated_token_account;
use spl_token_2022::extension::confidential_transfer::instruction::{
    initialize_mint as initialize_confidential_mint,
};
use spl_token_2022::extension::ExtensionType;
use spl_token_2022::instruction::{initialize_mint, reallocate};
use spl_token_2022::state::Mint;

verus! {

/// An account that an instruction touches.
#[derive(Clone, Copy, Debug, PartialEq, Eq)]
pub struct AccountMeta {
    /// Address of the account.
    pub pubkey: [u8; 32],
    /// Whether the transaction must be signed for this account.
    pub is_signer: bool,
    /// Whether the instruction may change the account.
    pub is_writable: bool,
}

/// One instruction of a transaction.
#[derive(Clone, Debug, PartialEq, Eq)]
pub struct Instruction {
    /// Address of the program that executes the instruction.
    pub program_id: [u8; 32],
    /// The accounts that it touches, in the program's order.
    pub accounts: Vec<AccountMeta>,
    /// The program's input.
    pub data: Vec<u8>,
}

/// The instruction of `solana_system_interface::instruction::create_account`
/// that makes `new_account`, owned by the token program, with `lamports`
/// and `space` bytes, paid by `payer`.
pub uninterp spec fn account_creation(
    payer: Seq<u8>,
    new_account: Seq<u8>,
    lamports: u64,
    space: u64,
) -> Instruction;

/// The instruction of the confidential-transfer `initialize_mint`, or
/// `None` where it reports an error.
pub uninterp spec fn confidential_mint_initialization(
    mint: Seq<u8>,
    authority: Seq<u8>,
    auto_approve: bool,
    auditor: Option<Seq<u8>>,
) -> Option<Instruction>;

/// The instruction of the token program's `initialize_mint` without a freeze
/// authority, or `None` where it reports an error.
pub uninterp spec fn mint_initialization(mint: Seq<u8>, authority: Seq<u8>, decimals: u8) -> Option<
    Instruction,
>;

/// The instruction of `create_associated_token_account` for a wallet and a
/// mint of the token program.
pub uninterp spec fn token_account_creation(
    funder: Seq<u8>,
    wallet: Seq<u8>,
    mint: Seq<u8>,
) -> Instruction;

/// The instruction of `reallocate` that makes room for the
/// confidential-transfer extension in a token account, or `None` where it
/// reports an error.
pub uninterp spec fn account_reallocation(
    account: Seq<u8>,
    payer: Seq<u8>,
    owner: Seq<u8>,
    signer: Seq<u8>,
) -> Option<Instruction>;

/// The size in bytes that `ExtensionType::try_calculate_account_len::<Mint>`
/// gives for the account of a mint with the extensions of these type codes;
/// `None` where a code is that of no extension or the size cannot be told.
pub uninterp spec fn mint_account_len(extension_types: Seq<u16>) -> Option<usize>;

/// `ExtensionType::try_calculate_account_len::<Mint>`, on the extension
/// types that `ExtensionType::try_from` reads from their codes: the size of
/// the mint's account follows from the extension types alone.
#[verifier::external_body]
fn mint_len(extension_types: &[u16]) -> (r: Option<usize>)
    ensures
        r == mint_account_len(extension_types@),
{
    let kinds = extension_types.iter().map(|code| ExtensionType::try_from(*code).ok());
    let kinds: Option<Vec<ExtensionType>> = kinds.collect();
    ExtensionType::try_calculate_account_len::<Mint>(&kinds?).ok()
}

/// `solana_system_interface::instruction::create_account` with the token
/// program of `spl_token_2022::id` as the owner of the new account.
#[verifier::external_body]
fn build_account_creation(
    payer: &[u8; 32],
    new_account: &[u8; 32],
    lamports: u64,
    space: u64,
) -> (r: Instruction)
    ensures
        r == account_creation(payer@, new_account@, lamports, space),
{
    let (payer, new_account) = (Pubkey::from(*payer), Pubkey::from(*new_account));
    let ix = create_account(&payer, &new_account, lamports, space, &spl_token_2022::id());
    let plain = |m: &solana_sdk::instruction::AccountMeta| AccountMeta {
        pubkey: m.pubkey.to_bytes(),
        is_signer: m.is_signer,
        is_writable: m.is_writable,
    };
    let accounts = ix.accounts.iter().map(plain).collect();
    Instruction { program_id: ix.program_id.to_bytes(), accounts, data: ix.data }
}

/// The confidential-transfer `initialize_mint` of the token program: it sets
/// the authority, the approval policy and the auditor key of a mint, and
/// fails on a key that is all zero.
#[verifier::external_body]
fn build_confidential_mint_initialization(
    mint: &[u8; 32],
    authority: &[u8; 32],
    auto_approve: bool,
    auditor: &Option<[u8; 32]>,
) -> (r: Option<Instruction>)
    ensures
        r == confidential_mint_initialization(
            mint@,
            authority@,
            auto_approve,
            match *auditor {
                Some(key) => Some(key@),
                None => None,
            },
        ),
{
    let (mint, authority) = (Pubkey::from(*mint), Some(Pubkey::from(*authority)));
    let auditor = auditor.map(|key| key.into());
    let token_program = spl_token_2022::id();
    let ix =
        initialize_confidential_mint(&token_program, &mint, authority, auto_approve, auditor).ok()?;
    let plain = |m: &solana_sdk::instruction::AccountMeta| AccountMeta {
        pubkey: m.pubkey.to_bytes(),
        is_signer: m.is_signer,
        is_writable: m.is_writable,
    };
    let accounts = ix.accounts.iter().map(plain).collect();
    Some(Instruction { program_id: ix.program_id.to_bytes(), accounts, data: ix.data })
}

/// The token program's `initialize_mint`, without a freeze authority.
#[verifier::external_body]
fn build_mint_initialization(mint: &[u8; 32], authority: &[u8; 32], decimals: u8) -> (r: Option<
    Instruction,
>)
    ensures
        r == mint_initialization(mint@, authority@, decimals),
{
    let (mint, authority) = (Pubkey::from(*mint), Pubkey::from(*authority));
    let ix = initialize_mint(&spl_token_2022::id(), &mint, &authority, None, decimals).ok()?;
    let plain = |m: &solana_sdk::instruction::AccountMeta| AccountMeta {
        pubkey: m.pubkey.to_bytes(),
        is_signer: m.is_signer,
        is_writable: m.is_writable,
    };
    let accounts = ix.accounts.iter().map(plain).collect();
    Some(Instruction { program_id: ix.program_id.to_bytes(), accounts, data: ix.data })
}

/// `create_associated_token_account` for the token program of
/// `spl_token_2022::id`.
#[verifier::external_body]
fn build_token_account_creation(funder: &[u8; 32], wallet: &[u8; 32], mint: &[u8; 32]) -> (r:
    Instruction)
    ensures
        r == token_account_creation(funder@, wallet@, mint@),
{
    let (funder, wallet) = (Pubkey::from(*funder), Pubkey::from(*wallet));
    let mint = Pubkey::from(*mint);
    let ix = create_associated_token_account(&funder, &wallet, &mint, &spl_token_2022::id());
    let plain = |m: &solana_sdk::instruction::AccountMeta| AccountMeta {
        pubkey: m.pubkey.to_bytes(),
        is_signer: m.is_signer,
        is_writable: m.is_writable,
    };
    let accounts = ix.accounts.iter().map(plain).collect();
    Instruction { program_id: ix.program_id.to_bytes(), accounts, data: ix.data }
}

/// The token program's `reallocate`, for the confidential-transfer account
/// extension and one signer.
#[verifier::external_body]
fn build_account_reallocation(
    account: &[u8; 32],
    payer: &[u8; 32],
    owner: &[u8; 32],
    signer: &[u8; 32],
) -> (r: Option<Instruction>)
    ensures
        r == account_reallocation(account@, payer@, owner@, signer@),
{
    let (account, payer) = (Pubkey::from(*account), Pubkey::from(*payer));
    let (owner, signer) = (Pubkey::from(*owner), Pubkey::from(*signer));
    let kinds = [ExtensionType::ConfidentialTransferAccount];
    let token_program = spl_token_2022::id();
    let ix = reallocate(&token_program, &account, &payer, &owner, &[&signer], &kinds).ok()?;
    let plain = |m: &solana_sdk::instruction::AccountMeta| AccountMeta {
        pubkey: m.pubkey.to_bytes(),
        is_signer: m.is_signer,
        is_writable: m.is_writable,
    };
    let accounts = ix.accounts.iter().map(plain).collect();
    Some(Instruction { program_id: ix.program_id.to_bytes(), accounts, data: ix.data })
}

/// View of an optional key.
pub open spec fn opt_key(key: Option<[u8; 32]>) -> Option<Seq<u8>> {
    match key {
        Some(k) => Some(k@),
        None => None,
    }
}

/// Type code of the confidential-transfer extension of a mint in the account
/// layout of the token program.
pub const CONFIDENTIAL_TRANSFER_MINT: u16 = 4;

/// The extensions of a confidential mint, by their type codes.
pub open spec fn mint_extensions() -> Seq<u16> {
    seq![CONFIDENTIAL_TRANSFER_MINT]
}

/// Size in bytes of the account of a confidential mint: what the token
/// program computes for a mint whose only extension is the
/// confidential-transfer one. It fails only where the token program gives no
/// size.
pub fn mint_account_space() -> (r: Result<u64, StealthLaunchError>)
    ensures
        r is Ok <==> mint_account_len(mint_extensions()) is Some,
        r matches Ok(space) ==> (mint_account_len(mint_extensions()) matches Some(len) && space
            == len),
        r matches Err(e) ==> e is TransactionFailed,
{
    let extensions: [u16; 1] = [CONFIDENTIAL_TRANSFER_MINT];
    assert(extensions@ =~= mint_extensions());
    match mint_len(extensions.as_slice()) {
        Some(len) => Ok(len as u64),
        None => Err(
            StealthLaunchError::TransactionFailed("Failed to size the mint account".to_owned()),
        ),
    }
}

/// The instructions that create a confidential mint, in the order in which
/// they must run: the account is created, then set up for confidential
/// transfers, with new accounts approved automatically, and only then
/// initialized as a mint. The payer becomes the authority of both.
pub open spec fn spec_create_mint_instructions(
    payer: Seq<u8>,
    mint: Seq<u8>,
    auditor: Option<Seq<u8>>,
    decimals: u8,
    rent: u64,
    space: u64,
) -> Option<Seq<Instruction>> {
    match (
        confidential_mint_initialization(mint, payer, true, auditor),
        mint_initialization(mint, payer, decimals),
    ) {
        (Some(confidential), Some(base)) => Some(
            seq![account_creation(payer, mint, rent, space), confidential, base],
        ),
        _ => None,
    }
}

/// Builds the instructions that create a confidential mint at `mint`, paid
/// by `payer`, with a deposit of `rent` for `space` bytes.
pub fn create_mint_instructions(
    payer: &[u8; 32],
    mint: &[u8; 32],
    auditor: &Option<[u8; 32]>,
    decimals: u8,
    rent: u64,
    space: u64,
) -> (r: Result<Vec<Instruction>, StealthLaunchError>)
    ensures
        r is Ok <==> spec_create_mint_instructions(
            payer@,
            mint@,
            opt_key(*auditor),
            decimals,
            rent,
            space,
        ) is Some,
        r matches Ok(list) ==> Some(list@) == spec_create_mint_instructions(
            payer@,
            mint@,
            opt_key(*auditor),
            decimals,
            rent,
            space,
        ),
        r matches Err(e) ==> e is TransactionFailed,
{
    let create = build_account_creation(payer, mint, rent, space);
    let confidential = match build_confidential_mint_initialization(mint, payer, true, auditor) {
        Some(ix) => ix,
        None => {
            return Err(
                StealthLaunchError::TransactionFailed(
                    "Failed to build the confidential mint instruction".to_owned(),
                ),
            );
        },
    };
    let base = match build_mint_initialization(mint, payer, decimals) {
        Some(ix) => ix,
        None => {
            return Err(
                StealthLaunchError::TransactionFailed(
                    "Failed to build the mint instruction".to_owned(),
                ),
            );
        },
    };
    let mut list: Vec<Instruction> = Vec::new();
    list.push(create);
    list.push(confidential);
    list.push(base);
    assert(list@ =~= seq![create, confidential, base]);
    Ok(list)
}

/// Builds the instruction that creates the token account of `owner` for
/// `mint`, paid by `fee_payer`.
pub fn create_token_account_instruction(
    fee_payer: &[u8; 32],
    owner: &[u8; 32],
    mint: &[u8; 32],
) -> (r: Instruction)
    ensures
        r == token_account_creation(fee_payer@, owner@, mint@),
{
    build_token_account_creation(fee_payer, owner, mint)
}

/// Builds the instruction that makes room for the confidential extension in
/// the token account `account` of `owner`, who signs for it; `fee_payer`
/// pays for the added space.
pub fn reallocate_instruction(account: &[u8; 32], fee_payer: &[u8; 32], owner: &[u8; 32]) -> (r:
    Result<Instruction, StealthLaunchError>)
    ensures
        r is Ok <==> account_reallocation(account@, fee_payer@, owner@, owner@) is Some,
        r matches Ok(ix) ==> Some(ix) == account_reallocation(account@, fee_payer@, owner@, owner@),
        r matches Err(e) ==> e is TransactionFailed,
{
    match build_account_reallocation(account, fee_payer, owner, owner) {
        Some(ix) => Ok(ix),
        None => Err(
            StealthLaunchError::TransactionFailed(
                "Failed to build the reallocate instruction".to_owned(),
            ),
        ),
    }
}

/// Who signs a transaction that `fee_payer` pays and `owner` authorizes.
#[derive(Clone, Copy, Debug, PartialEq, Eq, Structural)]
pub enum Signers {
    /// The owner pays and signs alone.
    Owner,
    /// The fee payer signs first, then the owner.
    FeePayerAndOwner,
}

/// The signers of such a transaction: one if payer and owner are the same
/// key, both otherwise.
pub fn signers_for(fee_payer: &[u8; 32], owner: &[u8; 32]) -> (s: Signers)
    ensures
        s == if fee_payer@ == owner@ {
            Signers::Owner
        } else {
            Signers::FeePayerAndOwner
        },
{
    if crate::proofs::same_key(fee_payer, owner) {
        Signers::Owner
    } else {
        Signers::FeePayerAndOwner
    }
}

} // verus!
