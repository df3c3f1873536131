//! Reading an account's confidential balances: the ciphertexts come from the
//! ledger and are opened locally with the owner's keys.

use vstd::prelude::*;
use crate::crypto::ConfidentialKeys;
use crate::error::StealthLaunchError;
use crate::ledger::{read_account, unpacked_account, TokenAccount, Unreadable};
use spl_token_2022::solana_zk_sdk::encryption::auth_encryption::{AeCiphertext, AeKey};
use spl_token_2022::solana_zk_sdk::encryption::elgamal::{ElGamalCiphertext, ElGamalKeypair};

verus! {

/// The amount that `AeKey::decrypt` finds in an authenticated ciphertext
/// under a key; `None` where the ciphertext does not open under that key.
pub uninterp spec fn ae_opened(key: Seq<u8>, ciphertext: Seq<u8>) -> Option<u64>;

/// The amount that `ElGamalSecretKey::decrypt_u32` finds in an ElGamal
/// ciphertext under the secret half of a keypair; `None` where it finds no
/// 32-bit amount.
pub uninterp spec fn elgamal_opened_u32(keypair: Seq<u8>, ciphertext: Seq<u8>) -> Option<u64>;

/// `AeKey::decrypt`, on the key and the ciphertext rebuilt from their bytes:
/// the amount under the ciphertext, or `None` when authentication fails.
#[verifier::external_body]
fn ae_decrypt(key: &[u8; 16], ciphertext: &[u8; 36]) -> (r: Option<u64>)
    ensures
        r == ae_opened(key@, ciphertext@),
{
    let ciphertext = AeCiphertext::from_bytes(ciphertext)?;
    AeKey::from(*key).decrypt(&ciphertext)
}

/// `ElGamalSecretKey::decrypt_u32`, on the keypair and the ciphertext rebuilt
/// from their bytes: the amount if it is a 32-bit number, else `None`.
#[verifier::external_body]
fn elgamal_decrypt_u32(keypair: &[u8; 64], ciphertext: &[u8; 64]) -> (r: Option<u64>)
    ensures
        r == elgamal_opened_u32(keypair@, ciphertext@),
{
    let keypair = ElGamalKeypair::try_from(keypair.as_slice()).ok()?;
    let ciphertext = ElGamalCiphertext::from_bytes(ciphertext)?;
    keypair.secret().decrypt_u32(&ciphertext)
}

/// Number of bits that the low limb of a pending balance holds.
pub const PENDING_LO_BITS: u64 = 16;

/// The balances of one account, in the clear.
#[derive(Clone, Copy, Debug, PartialEq, Eq, Structural)]
pub struct PlaintextBalances {
    /// Balance that can be spent confidentially.
    pub available: u64,
    /// Balance received and not yet applied; absent when a limb did not open.
    pub pending: Option<u64>,
    /// Balance outside the confidential pool.
    pub public: u64,
}

/// The pending balance that two limbs stand for: `(hi << 16) | lo` when both
/// limbs opened, none when either did not.
pub open spec fn spec_combine_pending(lo: Option<u64>, hi: Option<u64>) -> Option<u64> {
    match (lo, hi) {
        (Some(lo), Some(hi)) => Some((hi << PENDING_LO_BITS) | lo),
        _ => None,
    }
}

/// Puts the two limbs of a pending balance together.
pub fn combine_pending(lo: Option<u64>, hi: Option<u64>) -> (pending: Option<u64>)
    ensures
        pending == spec_combine_pending(lo, hi),
{
    match (lo, hi) {
        (Some(lo), Some(hi)) => Some((hi << 16) | lo),
        _ => None,
    }
}

/// For limbs of 16 bits the pending balance is `hi * 2^16 + lo`, and each
/// limb can be read back from it.
pub proof fn lemma_pending_of_limbs(lo: u64, hi: u64)
    requires
        lo < 0x1_0000,
        hi < 0x1_0000,
    ensures
        spec_combine_pending(Some(lo), Some(hi)) == Some(((hi << 16u64) | lo)),
        ((hi << 16u64) | lo) == hi * 0x1_0000 + lo,
        ((hi << 16u64) | lo) & 0xffff == lo,
        ((hi << 16u64) | lo) >> 16u64 == hi,
{
    assert(((hi << 16u64) | lo) == hi * 0x1_0000 + lo) by (bit_vector)
        requires
            lo < 0x1_0000,
            hi < 0x1_0000,
    ;
    assert(((hi << 16u64) | lo) & 0xffff == lo) by (bit_vector)
        requires
            lo < 0x1_0000,
            hi < 0x1_0000,
    ;
    assert(((hi << 16u64) | lo) >> 16u64 == hi) by (bit_vector)
        requires
            lo < 0x1_0000,
            hi < 0x1_0000,
    ;
}

/// A limb that did not open leaves the pending balance absent, whatever the
/// other limb holds: it is never taken for zero.
pub proof fn lemma_pending_absent(lo: Option<u64>, hi: Option<u64>)
    ensures
        spec_combine_pending(lo, hi) is Some <==> lo is Some && hi is Some,
{
}

/// The amount under an optional ciphertext: none if there is no ciphertext.
pub open spec fn limb_opened(keypair: Seq<u8>, ciphertext: Option<[u8; 64]>) -> Option<u64> {
    match ciphertext {
        Some(c) => elgamal_opened_u32(keypair, c@),
        None => None,
    }
}

/// What opening the balances of `account` with `keys` owes.
pub open spec fn spec_decrypt_balances(account: TokenAccount, keys: ConfidentialKeys) -> Option<
    PlaintextBalances,
> {
    if account.decryptable_available_balance is None || account.pending_balance_lo is None
        || account.pending_balance_hi is None {
        None
    } else {
        match ae_opened(keys.aes_key@, account.decryptable_available_balance->0@) {
            Some(available) => Some(
                PlaintextBalances {
                    available,
                    pending: spec_combine_pending(
                        limb_opened(keys.elgamal_keypair@, account.pending_balance_lo),
                        limb_opened(keys.elgamal_keypair@, account.pending_balance_hi),
                    ),
                    public: account.amount,
                },
            ),
            None => None,
        }
    }
}

/// Opens the balances of `account` with `keys`. The available balance must
/// open under the symmetric key, which it does only for the owner; the
/// pending balance is reported only if both of its limbs open.
pub fn decrypt_balances(account: &TokenAccount, keys: &ConfidentialKeys) -> (r: Result<
    PlaintextBalances,
    StealthLaunchError,
>)
    ensures
        r is Ok <==> spec_decrypt_balances(*account, *keys) is Some,
        r matches Ok(b) ==> spec_decrypt_balances(*account, *keys) == Some(b),
        r matches Err(e) ==> e is DecryptionFailed,
{
    let decryptable = match &account.decryptable_available_balance {
        Some(c) => c,
        None => {
            return Err(
                StealthLaunchError::DecryptionFailed(
                    "Invalid decryptable balance ciphertext".to_owned(),
                ),
            );
        },
    };
    let available = match ae_decrypt(&keys.aes_key, decryptable) {
        Some(amount) => amount,
        None => {
            return Err(
                StealthLaunchError::DecryptionFailed(
                    "Failed to decrypt balance - you may not be the owner".to_owned(),
                ),
            );
        },
    };
    let pending_lo = match &account.pending_balance_lo {
        Some(c) => c,
        None => {
            return Err(
                StealthLaunchError::DecryptionFailed(
                    "Invalid pending balance lo ciphertext".to_owned(),
                ),
            );
        },
    };
    let pending_hi = match &account.pending_balance_hi {
        Some(c) => c,
        None => {
            return Err(
                StealthLaunchError::DecryptionFailed(
                    "Invalid pending balance hi ciphertext".to_owned(),
                ),
            );
        },
    };
    let lo = elgamal_decrypt_u32(&keys.elgamal_keypair, pending_lo);
    let hi = elgamal_decrypt_u32(&keys.elgamal_keypair, pending_hi);
    Ok(PlaintextBalances { available, pending: combine_pending(lo, hi), public: account.amount })
}

/// View of optional raw bytes.
pub open spec fn opt_bytes(data: Option<&[u8]>) -> Option<Seq<u8>> {
    match data {
        Some(d) => Some(d@),
        None => None,
    }
}

/// What reading the balances owes for the raw account data that was fetched,
/// `None` standing for an account that the ledger does not have.
pub open spec fn spec_fetch_and_decrypt(
    fetched: Option<Seq<u8>>,
    keys: ConfidentialKeys,
    r: Result<PlaintextBalances, StealthLaunchError>,
) -> bool {
    match fetched {
        None => r matches Err(e) && e is TokenAccountNotFound,
        Some(data) => match unpacked_account(data) {
            Err(Unreadable::NotInitialized) => r matches Err(e) && e is TokenAccountNotFound,
            Err(Unreadable::ExtensionMissing) => r matches Err(e)
                && e is ConfidentialTransferNotConfigured,
            Ok(account) => match spec_decrypt_balances(account, keys) {
                Some(b) => r == Ok::<PlaintextBalances, StealthLaunchError>(b),
                None => r matches Err(e) && e is DecryptionFailed,
            },
        },
    }
}

/// Reads the balances of the token account of `wallet` from the raw data
/// that the ledger returned for it.
pub fn fetch_and_decrypt(fetched: Option<&[u8]>, wallet: &str, keys: &ConfidentialKeys) -> (r:
    Result<PlaintextBalances, StealthLaunchError>)
    ensures
        spec_fetch_and_decrypt(opt_bytes(fetched), *keys, r),
        r matches Err(StealthLaunchError::TokenAccountNotFound { wallet: w }) ==> w@ == wallet@,
{
    match read_account(fetched, wallet) {
        Ok(account) => decrypt_balances(&account, keys),
        Err(e) => Err(e),
    }
}

impl PlaintextBalances {
    /// Whether there is a pending balance to tell the owner of.
    pub fn has_pending(&self) -> (b: bool)
        ensures
            b == (self.pending matches Some(p) && p > 0),
    {
        match self.pending {
            Some(p) => p > 0,
            None => false,
        }
    }

    /// Whether tokens lie outside the confidential pool, which calls for a
    /// warning of its own.
    pub fn has_public_balance(&self) -> (b: bool)
        ensures
            b == (self.public > 0),
    {
        self.public > 0
    }
}

} // verus!
