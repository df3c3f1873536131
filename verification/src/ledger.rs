//! What the ledger holds of a token account and of a mint, as far as the
//! protocol reads it. The layout of the raw bytes is that of the token
//! program and is read with its own code.

use vstd::prelude::*;
use crate::error::StealthLaunchError;
use spl_token_2022::extension::confidential_transfer::{
    ConfidentialTransferAccount, ConfidentialTransferMint,
};
use spl_token_2022::extension::{BaseStateWithExtensions, StateWithExtensions};
use spl_token_2022::solana_zk_sdk::encryption::auth_encryption::AeCiphertext;
use spl_token_2022::solana_zk_sdk::encryption::elgamal::{ElGamalCiphertext, ElGamalPubkey};
use spl_token_2022::solana_zk_sdk::encryption::pod::elgamal::PodElGamalPubkey;
use spl_token_2022::state::{Account, Mint};
use solana_sdk::pubkey::Pubkey;
use spl_associated_token_account::get_associated_token_address_with_program_id;

verus! {

/// Why raw account bytes give no confidential state.
#[derive(Clone, Copy, Debug, PartialEq, Eq, Structural)]
pub enum Unreadable {
    /// The bytes are not an initialized account, or mint, of the token program.
    NotInitialized,
    /// The account, or mint, has no confidential-transfer extension.
    ExtensionMissing,
}

/// A token account that is set up for confidential transfers. A ciphertext or
/// key that the ledger holds in a form that the encryption scheme rejects is
/// `None`.
#[derive(Clone, Copy, Debug)]
pub struct TokenAccount {
    /// Balance outside the confidential pool, in plain sight.
    pub amount: u64,
    /// ElGamal public key of the owner.
    pub elgamal_pubkey: Option<[u8; 32]>,
    /// Low 16 bits of the pending balance, under the owner's ElGamal key.
    pub pending_balance_lo: Option<[u8; 64]>,
    /// High bits of the pending balance, under the owner's ElGamal key.
    pub pending_balance_hi: Option<[u8; 64]>,
    /// Available balance, under the owner's ElGamal key.
    pub available_balance: Option<[u8; 64]>,
    /// Available balance again, under the owner's symmetric key.
    pub decryptable_available_balance: Option<[u8; 36]>,
}

/// A mint that is set up for confidential transfers.
#[derive(Clone, Copy, Debug)]
pub struct MintConfig {
    /// Number of decimal digits of the token.
    pub decimals: u8,
    /// ElGamal public key of the auditor, if the mint has one.
    pub auditor_elgamal_pubkey: Option<[u8; 32]>,
}

/// What the token program's code reads from the raw bytes of a token account.
pub uninterp spec fn unpacked_account(data: Seq<u8>) -> Result<TokenAccount, Unreadable>;

/// What the token program's code reads from the raw bytes of a mint.
pub uninterp spec fn unpacked_mint(data: Seq<u8>) -> Result<MintConfig, Unreadable>;

/// `StateWithExtensions::<Account>::unpack` and, on its result,
/// `get_extension::<ConfidentialTransferAccount>`: the base amount and the
/// fields of the extension, each ciphertext and key converted as the
/// encryption scheme converts it.
#[verifier::external_body]
fn unpack_account(data: &[u8]) -> (r: Result<TokenAccount, Unreadable>)
    ensures
        r == unpacked_account(data@),
{
    let state = StateWithExtensions::<Account>::unpack(data).or(Err(Unreadable::NotInitialized))?;
    let ext = state.get_extension::<ConfidentialTransferAccount>();
    let ext = ext.or(Err(Unreadable::ExtensionMissing))?;
    let ciphertext = |pod| ElGamalCiphertext::try_from(pod).ok().map(|c| c.to_bytes());
    let decryptable = AeCiphertext::try_from(ext.decryptable_available_balance).ok();
    Ok(TokenAccount {
        amount: state.base.amount,
        elgamal_pubkey: ElGamalPubkey::try_from(ext.elgamal_pubkey).ok().map(|k| k.into()),
        pending_balance_lo: ciphertext(ext.pending_balance_lo),
        pending_balance_hi: ciphertext(ext.pending_balance_hi),
        available_balance: ciphertext(ext.available_balance),
        decryptable_available_balance: decryptable.map(|c| c.to_bytes()),
    })
}

/// `StateWithExtensions::<Mint>::unpack` and, on its result,
/// `get_extension::<ConfidentialTransferMint>`: the decimals and the auditor
/// key, which is `None` when the mint has none or holds no valid key.
#[verifier::external_body]
fn unpack_mint(data: &[u8]) -> (r: Result<MintConfig, Unreadable>)
    ensures
        r == unpacked_mint(data@),
{
    let state = StateWithExtensions::<Mint>::unpack(data).or(Err(Unreadable::NotInitialized))?;
    let ext = state.get_extension::<ConfidentialTransferMint>();
    let ext = ext.or(Err(Unreadable::ExtensionMissing))?;
    let auditor = Option::<PodElGamalPubkey>::from(ext.auditor_elgamal_pubkey);
    let auditor = auditor.and_then(|p| ElGamalPubkey::try_from(p).ok());
    Ok(MintConfig {
        decimals: state.base.decimals,
        auditor_elgamal_pubkey: auditor.map(|k| k.into()),
    })
}

/// The address that `Pubkey::from_str` reads from a base-58 text; `None`
/// where it reports an error.
pub uninterp spec fn address_of_text(text: Seq<char>) -> Option<Seq<u8>>;

/// The address of the token account that belongs to a wallet and a mint
/// under the token program, as `get_associated_token_address_with_program_id`
/// derives it.
pub uninterp spec fn associated_token_address(wallet: Seq<u8>, mint: Seq<u8>) -> Seq<u8>;

/// `Pubkey::from_str`: the 32 bytes that a base-58 text of at most 44
/// characters stands for.
#[verifier::external_body]
pub(crate) fn parse_address(text: &str) -> (r: Option<[u8; 32]>)
    ensures
        r is Some == address_of_text(text@) is Some,
        r matches Some(address) ==> address_of_text(text@) == Some(address@),
{
    text.parse::<Pubkey>().ok().map(|address| address.to_bytes())
}

/// `get_associated_token_address_with_program_id`, with the id of the token
/// program that `spl_token_2022::id` gives: the address is derived from the
/// three keys alone. The search behind it panics if none of 256 candidate
/// addresses lies off the curve, of which about half do.
#[verifier::external_body]
fn derive_token_account_address(wallet: &[u8; 32], mint: &[u8; 32]) -> (r: [u8; 32])
    ensures
        r@ == associated_token_address(wallet@, mint@),
{
    let wallet = Pubkey::from(*wallet);
    let mint = Pubkey::from(*mint);
    get_associated_token_address_with_program_id(&wallet, &mint, &spl_token_2022::id()).to_bytes()
}

/// The address of the token account of `wallet` for `mint`.
pub fn token_account_address(wallet: &[u8; 32], mint: &[u8; 32]) -> (r: [u8; 32])
    ensures
        r@ == associated_token_address(wallet@, mint@),
{
    derive_token_account_address(wallet, mint)
}

/// The public half of a signing keypair: its last 32 bytes.
pub open spec fn spec_signer_address(keypair: Seq<u8>) -> Seq<u8> {
    keypair.subrange(32, 64)
}

/// The address under which a signing keypair signs; none for bytes that are
/// not 64 long.
pub fn signer_address(keypair: &[u8]) -> (r: Option<[u8; 32]>)
    ensures
        r is Some <==> keypair@.len() == 64,
        r matches Some(address) ==> address@ == spec_signer_address(keypair@),
{
    if keypair.len() != 64 {
        return None;
    }
    let mut address: [u8; 32] = [0u8; 32];
    let mut i: usize = 0;
    while i < 32
        invariant
            i <= 32,
            keypair@.len() == 64,
            forall|j: int| 0 <= j < i ==> address@[j] == keypair@[32 + j],
        decreases 32 - i,
    {
        address[i] = keypair[32 + i];
        i = i + 1;
    }
    assert(address@ =~= spec_signer_address(keypair@));
    Some(address)
}

/// Whether the token account of a recipient has to be created before the
/// transfer: it has, when the ledger returned nothing for its address.
pub fn must_create_account(fetched: Option<&[u8]>) -> (create: bool)
    ensures
        create == fetched is None,
{
    fetched.is_none()
}

/// What reading a fetched account owes: `TokenAccountNotFound` for the
/// wallet when the ledger has no initialized token account there,
/// `ConfidentialTransferNotConfigured` when it lacks the extension.
pub open spec fn spec_read_account(
    fetched: Option<Seq<u8>>,
    r: Result<TokenAccount, StealthLaunchError>,
) -> bool {
    match fetched {
        None => r matches Err(e) && e is TokenAccountNotFound,
        Some(data) => match unpacked_account(data) {
            Err(Unreadable::NotInitialized) => r matches Err(e) && e is TokenAccountNotFound,
            Err(Unreadable::ExtensionMissing) => r matches Err(e)
                && e is ConfidentialTransferNotConfigured,
            Ok(account) => r == Ok::<TokenAccount, StealthLaunchError>(account),
        },
    }
}

/// Reads the confidential state of the token account of `wallet` from the
/// raw data that the ledger returned, `None` if it returned nothing.
pub fn read_account(fetched: Option<&[u8]>, wallet: &str) -> (r: Result<
    TokenAccount,
    StealthLaunchError,
>)
    ensures
        spec_read_account(
            match fetched {
                Some(d) => Some(d@),
                None => None,
            },
            r,
        ),
        r matches Err(StealthLaunchError::TokenAccountNotFound { wallet: w }) ==> w@
            == wallet@,
{
    let data = match fetched {
        Some(data) => data,
        None => {
            return Err(
                StealthLaunchError::TokenAccountNotFound { wallet: wallet.to_owned() },
            );
        },
    };
    match unpack_account(data) {
        Err(Unreadable::NotInitialized) => Err(
            StealthLaunchError::TokenAccountNotFound { wallet: wallet.to_owned() },
        ),
        Err(Unreadable::ExtensionMissing) => Err(
            StealthLaunchError::ConfidentialTransferNotConfigured,
        ),
        Ok(account) => Ok(account),
    }
}

/// Reads the confidential configuration of a mint from the raw data that the
/// ledger returned for it.
pub fn read_mint(data: &[u8]) -> (r: Result<MintConfig, StealthLaunchError>)
    ensures
        r is Ok <==> unpacked_mint(data@) is Ok,
        r matches Ok(mint) ==> unpacked_mint(data@) == Ok::<MintConfig, Unreadable>(mint),
        r matches Err(e) ==> e is ConfidentialTransferNotConfigured,
{
    match unpack_mint(data) {
        Ok(mint) => Ok(mint),
        Err(_) => Err(StealthLaunchError::ConfidentialTransferNotConfigured),
    }
}

} // verus!
