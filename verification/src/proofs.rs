//! The proof bundle of one transfer: what goes into it, and when it may be
//! produced. The proofs themselves are the work of the proof library.

use vstd::prelude::*;
use crate::balance::ae_opened;
use crate::crypto::ConfidentialKeys;
use crate::error::StealthLaunchError;
use crate::ledger::{MintConfig, TokenAccount};
use spl_token_2022::solana_zk_sdk::encryption::auth_encryption::{AeCiphertext, AeKey};
use spl_token_2022::solana_zk_sdk::encryption::elgamal::{
    ElGamalCiphertext, ElGamalKeypair, ElGamalPubkey,
};
use spl_token_confidential_transfer_proof_generation::transfer::{
    transfer_split_proof_data, TransferProofData,
};

verus! {

/// The three proofs of a transfer and the ciphertexts that go with them, as
/// the proof library hands them out.
#[verifier::external_type_specification]
#[verifier::external_body]
pub struct ExTransferProofData(TransferProofData);

/// What a proof bundle is computed from.
#[derive(Clone, Copy, Debug)]
pub struct ProofRequest {
    /// Available balance of the source as the ledger holds it now.
    pub source_available: [u8; 64],
    /// The same balance under the source's symmetric key.
    pub source_decryptable: [u8; 36],
    /// Amount to move.
    pub amount: u64,
    /// ElGamal public key of the destination account.
    pub destination_pubkey: [u8; 32],
    /// ElGamal public key of the auditor, if the mint has one.
    pub auditor_pubkey: Option<[u8; 32]>,
}

/// A proof bundle with the request that it answers. It is made for one
/// transfer and handed on whole.
pub struct ProofBundle {
    /// Equality, validity and range proof, with the new ciphertexts.
    pub data: TransferProofData,
    /// The request that the proofs were computed from.
    pub request: ProofRequest,
}

/// `transfer_split_proof_data`, on the ciphertexts and keys rebuilt from
/// their bytes. The proofs are randomized, so no two calls need agree. The
/// call succeeds only if the decryptable balance opens under the symmetric
/// key and covers the amount.
#[verifier::external_body]
fn split_proof_data(request: &ProofRequest, keys: &ConfidentialKeys) -> (r: Option<
    TransferProofData,
>)
    ensures
        r is Some ==> (ae_opened(keys.aes_key@, request.source_decryptable@) matches Some(balance)
            && request.amount <= balance),
{
    let available = ElGamalCiphertext::from_bytes(&request.source_available)?;
    let decryptable = AeCiphertext::from_bytes(&request.source_decryptable)?;
    let keypair = ElGamalKeypair::try_from(keys.elgamal_keypair.as_slice()).ok()?;
    let ae_key = AeKey::from(keys.aes_key);
    let destination = ElGamalPubkey::try_from(request.destination_pubkey.as_slice()).ok()?;
    let auditor = match &request.auditor_pubkey {
        Some(key) => Some(ElGamalPubkey::try_from(key.as_slice()).ok()?),
        None => None,
    };
    let (amount, auditor) = (request.amount, auditor.as_ref());
    let data = transfer_split_proof_data(
        &available, &decryptable, amount, &keypair, &ae_key, &destination, auditor,
    );
    data.ok()
}

/// Whether two keys are the same bytes.
pub fn same_key(a: &[u8; 32], b: &[u8; 32]) -> (same: bool)
    ensures
        same == (a@ == b@),
{
    let mut i: usize = 0;
    while i < 32
        invariant
            i <= 32,
            forall|j: int| 0 <= j < i ==> a@[j] == b@[j],
        decreases 32 - i,
    {
        if a[i] != b[i] {
            return false;
        }
        i = i + 1;
    }
    assert(a@ =~= b@);
    true
}

/// Whether a request names the auditor that the mint is configured with:
/// the same key, or none on both sides.
pub open spec fn auditor_matches(request: Option<[u8; 32]>, mint: Option<[u8; 32]>) -> bool {
    match (request, mint) {
        (Some(a), Some(b)) => a@ == b@,
        (None, None) => true,
        _ => false,
    }
}

/// Executable form of [`auditor_matches`].
pub fn check_auditor(request: &Option<[u8; 32]>, mint: &Option<[u8; 32]>) -> (ok: bool)
    ensures
        ok == auditor_matches(*request, *mint),
{
    match (request, mint) {
        (Some(a), Some(b)) => same_key(a, b),
        (None, None) => true,
        _ => false,
    }
}

/// The request for a transfer of `amount` from `source` to `destination`
/// under `mint`, all three as the ledger holds them.
pub open spec fn spec_proof_request(
    source: TokenAccount,
    destination: TokenAccount,
    mint: MintConfig,
    amount: u64,
) -> Option<ProofRequest> {
    if destination.elgamal_pubkey is None || source.available_balance is None
        || source.decryptable_available_balance is None {
        None
    } else {
        Some(
            ProofRequest {
                source_available: source.available_balance->0,
                source_decryptable: source.decryptable_available_balance->0,
                amount,
                destination_pubkey: destination.elgamal_pubkey->0,
                auditor_pubkey: mint.auditor_elgamal_pubkey,
            },
        )
    }
}

/// Builds the request for a transfer from the state that was fetched for it.
/// The ciphertexts are those of `source`, so a request built from a fresh
/// fetch is bound to the balance that the ledger holds, and the auditor is
/// that of the mint.
pub fn proof_request(
    source: &TokenAccount,
    destination: &TokenAccount,
    mint: &MintConfig,
    amount: u64,
) -> (r: Result<ProofRequest, StealthLaunchError>)
    ensures
        r is Ok <==> spec_proof_request(*source, *destination, *mint, amount) is Some,
        r matches Ok(request) ==> spec_proof_request(*source, *destination, *mint, amount) == Some(
            request,
        ),
        r matches Err(e) ==> e is ProofGenerationFailed,
{
    match (
        &destination.elgamal_pubkey,
        &source.available_balance,
        &source.decryptable_available_balance,
    ) {
        (Some(destination_pubkey), Some(source_available), Some(source_decryptable)) => Ok(
            ProofRequest {
                source_available: *source_available,
                source_decryptable: *source_decryptable,
                amount,
                destination_pubkey: *destination_pubkey,
                auditor_pubkey: mint.auditor_elgamal_pubkey,
            },
        ),
        _ => Err(StealthLaunchError::ProofGenerationFailed),
    }
}

/// Decides what becomes of a request once the proof library has answered:
/// the bundle, if the auditor is that of the mint and the library gave
/// proofs; `ProofGenerationFailed` otherwise.
pub fn bundle_from(
    request: ProofRequest,
    mint: &MintConfig,
    generated: Option<TransferProofData>,
) -> (r: Result<ProofBundle, StealthLaunchError>)
    ensures
        r is Ok <==> generated is Some && auditor_matches(
            request.auditor_pubkey,
            mint.auditor_elgamal_pubkey,
        ),
        r matches Ok(bundle) ==> bundle.request == request && Some(bundle.data) == generated,
        r matches Err(e) ==> e is ProofGenerationFailed,
{
    if !check_auditor(&request.auditor_pubkey, &mint.auditor_elgamal_pubkey) {
        return Err(StealthLaunchError::ProofGenerationFailed);
    }
    match generated {
        Some(data) => Ok(ProofBundle { data, request }),
        None => Err(StealthLaunchError::ProofGenerationFailed),
    }
}

/// Produces the proof bundle for `request`. A request whose auditor is not
/// the one that the mint is configured with is refused before any proof is
/// computed; so is, by the proof library, a balance that does not open under
/// the keys or does not cover the amount.
pub fn generate(request: &ProofRequest, keys: &ConfidentialKeys, mint: &MintConfig) -> (r: Result<
    ProofBundle,
    StealthLaunchError,
>)
    ensures
        r matches Ok(bundle) ==> {
            &&& bundle.request == *request
            &&& auditor_matches(request.auditor_pubkey, mint.auditor_elgamal_pubkey)
            &&& ae_opened(keys.aes_key@, request.source_decryptable@) matches Some(balance)
                && request.amount <= balance
        },
        r matches Err(e) ==> e is ProofGenerationFailed,
        !auditor_matches(request.auditor_pubkey, mint.auditor_elgamal_pubkey) ==> r is Err,
{
    if !check_auditor(&request.auditor_pubkey, &mint.auditor_elgamal_pubkey) {
        return Err(StealthLaunchError::ProofGenerationFailed);
    }
    let generated = split_proof_data(request, keys);
    bundle_from(*request, mint, generated)
}

} // verus!
