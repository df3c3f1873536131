//! Confidential keys of a signing identity. They are derived from the signing
//! key whenever they are needed and stored nowhere.

use vstd::prelude::*;
use crate::error::StealthLaunchError;
use solana_sdk::signature::Keypair;
use spl_token_2022::solana_zk_sdk::encryption::auth_encryption::AeKey;
use spl_token_2022::solana_zk_sdk::encryption::elgamal::{ElGamalKeypair, ElGamalPubkey};

verus! {

/// Length of a signing keypair: the secret half and the public half.
pub const SIGNING_KEYPAIR_LEN: usize = 64;

/// Length of an ElGamal public key.
pub const ELGAMAL_PUBKEY_LEN: usize = 32;

/// Whether the bytes are an ed25519 keypair whose public half belongs to its
/// secret half, as `solana_sdk::signature::Keypair::try_from` decides it.
pub uninterp spec fn is_signing_keypair(bytes: Seq<u8>) -> bool;

/// The ElGamal keypair that `ElGamalKeypair::new_from_signer` derives for the
/// signer with these keypair bytes and this public seed, as bytes; `None`
/// where it reports an error.
pub uninterp spec fn elgamal_keypair_of_signer(keypair: Seq<u8>, seed: Seq<u8>) -> Option<Seq<u8>>;

/// The key that `AeKey::new_from_signer` derives for the signer with these
/// keypair bytes and this public seed, as bytes; `None` where it reports an
/// error.
pub uninterp spec fn ae_key_of_signer(keypair: Seq<u8>, seed: Seq<u8>) -> Option<Seq<u8>>;

/// What `bs58::decode` makes of a text in the default alphabet; `None` where
/// it reports an error.
pub uninterp spec fn base58_decoded(text: Seq<char>) -> Option<Seq<u8>>;

/// Whether the bytes are the encoding of an ElGamal public key, as
/// `ElGamalPubkey::try_from` decides it.
pub uninterp spec fn is_elgamal_pubkey(bytes: Seq<u8>) -> bool;

/// `Keypair::try_from` on a byte slice: it succeeds only on 64 bytes that
/// hold a secret key followed by the public key that belongs to it.
#[verifier::external_body]
pub(crate) fn check_signing_keypair(bytes: &[u8]) -> (ok: bool)
    ensures
        ok == is_signing_keypair(bytes@),
        ok ==> bytes@.len() == SIGNING_KEYPAIR_LEN,
{
    Keypair::try_from(bytes).is_ok()
}

/// `ElGamalKeypair::new_from_signer`: the signer signs a message made of the
/// public seed and the signature is hashed into the secret key, so the result
/// is a function of the keypair and the seed. The keypair comes back as its
/// 64 bytes, public key first. The call would panic on a
/// derived secret key of zero, that is on a hash that is a multiple of the
/// group order.
#[verifier::external_body]
fn derive_elgamal_keypair(keypair: &[u8], seed: &[u8]) -> (r: Option<[u8; 64]>)
    requires
        is_signing_keypair(keypair@),
    ensures
        r is Some == elgamal_keypair_of_signer(keypair@, seed@) is Some,
        r matches Some(k) ==> elgamal_keypair_of_signer(keypair@, seed@) == Some(k@),
{
    let signer = Keypair::try_from(keypair).ok()?;
    let derived = ElGamalKeypair::new_from_signer(&signer, seed);
    derived.ok().map(|pair| pair.into())
}

/// `AeKey::new_from_signer`: derived like the ElGamal keypair, from a
/// signature over a message made of the public seed. The key comes back as
/// its 16 bytes.
#[verifier::external_body]
fn derive_ae_key(keypair: &[u8], seed: &[u8]) -> (r: Option<[u8; 16]>)
    requires
        is_signing_keypair(keypair@),
    ensures
        r is Some == ae_key_of_signer(keypair@, seed@) is Some,
        r matches Some(k) ==> ae_key_of_signer(keypair@, seed@) == Some(k@),
{
    let signer = Keypair::try_from(keypair).ok()?;
    let derived = AeKey::new_from_signer(&signer, seed);
    derived.ok().map(|key| key.into())
}

/// `bs58::decode(..).into_vec()`: the bytes that a base-58 text stands for.
#[verifier::external_body]
fn decode_base58(text: &str) -> (r: Option<Vec<u8>>)
    ensures
        r is Some == base58_decoded(text@) is Some,
        r matches Some(bytes) ==> base58_decoded(text@) == Some(bytes@),
{
    bs58::decode(text).into_vec().ok()
}

/// `ElGamalPubkey::try_from` on a byte slice: it succeeds only on 32 bytes
/// that decompress to a point of the group.
#[verifier::external_body]
fn check_elgamal_pubkey(bytes: &[u8]) -> (ok: bool)
    ensures
        ok == is_elgamal_pubkey(bytes@),
        ok ==> bytes@.len() == ELGAMAL_PUBKEY_LEN,
{
    ElGamalPubkey::try_from(bytes).is_ok()
}

/// Public seed under which the ElGamal keypair is derived: the text `elgamal`.
pub open spec fn elgamal_seed() -> Seq<u8> {
    seq![101u8, 108u8, 103u8, 97u8, 109u8, 97u8, 108u8]
}

/// Public seed under which the symmetric key is derived: the text `aes`.
pub open spec fn ae_seed() -> Seq<u8> {
    seq![97u8, 101u8, 115u8]
}

/// The keys with which an owner reads and moves a confidential balance.
#[derive(Clone, Debug)]
pub struct ConfidentialKeys {
    /// ElGamal keypair: 32 bytes of public key, then 32 bytes of secret key.
    pub elgamal_keypair: [u8; 64],
    /// Key of the authenticated encryption of the available balance.
    pub aes_key: [u8; 16],
}

/// What the derivation owes for the signing keypair `keypair`: the two keys
/// under their two seeds, `InvalidKeypair` for bytes that are no signing
/// keypair, and `KeyDerivationFailed` where a key cannot be derived.
pub open spec fn derivation_of(
    keypair: Seq<u8>,
    r: Result<ConfidentialKeys, StealthLaunchError>,
) -> bool {
    match r {
        Ok(keys) => {
            &&& is_signing_keypair(keypair)
            &&& elgamal_keypair_of_signer(keypair, elgamal_seed()) == Some(keys.elgamal_keypair@)
            &&& ae_key_of_signer(keypair, ae_seed()) == Some(keys.aes_key@)
        },
        Err(e) => if is_signing_keypair(keypair) {
            &&& e is KeyDerivationFailed
            &&& (elgamal_keypair_of_signer(keypair, elgamal_seed()) is None || ae_key_of_signer(
                keypair,
                ae_seed(),
            ) is None)
        } else {
            e is InvalidKeypair
        },
    }
}

impl ConfidentialKeys {
    /// Derives the confidential keys of the signing keypair `keypair`.
    pub fn derive_from_keypair(keypair: &[u8]) -> (r: Result<ConfidentialKeys, StealthLaunchError>)
        ensures
            derivation_of(keypair@, r),
    {
        if !check_signing_keypair(keypair) {
            return Err(StealthLaunchError::InvalidKeypair);
        }
        let elgamal_label: [u8; 7] = [101, 108, 103, 97, 109, 97, 108];
        let ae_label: [u8; 3] = [97, 101, 115];
        assert(elgamal_label@ =~= elgamal_seed());
        assert(ae_label@ =~= ae_seed());
        let elgamal_keypair = match derive_elgamal_keypair(keypair, elgamal_label.as_slice()) {
            Some(pair) => pair,
            None => {
                return Err(StealthLaunchError::KeyDerivationFailed);
            },
        };
        let aes_key = match derive_ae_key(keypair, ae_label.as_slice()) {
            Some(key) => key,
            None => {
                return Err(StealthLaunchError::KeyDerivationFailed);
            },
        };
        Ok(ConfidentialKeys { elgamal_keypair, aes_key })
    }

    /// The public half of the ElGamal keypair.
    pub fn elgamal_pubkey(&self) -> (public: [u8; 32])
        ensures
            public@ == self.elgamal_keypair@.subrange(0, ELGAMAL_PUBKEY_LEN as int),
    {
        let mut public: [u8; 32] = [0u8; 32];
        let mut i: usize = 0;
        while i < 32
            invariant
                i <= 32,
                forall|j: int| 0 <= j < i ==> public@[j] == self.elgamal_keypair@[j],
            decreases 32 - i,
        {
            public[i] = self.elgamal_keypair[i];
            i = i + 1;
        }
        assert(public@ =~= self.elgamal_keypair@.subrange(0, ELGAMAL_PUBKEY_LEN as int));
        public
    }
}

/// Deriving twice from one signing keypair gives the same answer: both
/// succeed or both fail, and on success the keys agree byte for byte.
pub proof fn lemma_derivation_is_deterministic(
    keypair: Seq<u8>,
    first: Result<ConfidentialKeys, StealthLaunchError>,
    second: Result<ConfidentialKeys, StealthLaunchError>,
)
    requires
        derivation_of(keypair, first),
        derivation_of(keypair, second),
    ensures
        first is Ok <==> second is Ok,
        first is Ok ==> first->Ok_0 == second->Ok_0,
{
    if first is Ok && second is Ok {
        let a = first->Ok_0;
        let b = second->Ok_0;
        assert(a.elgamal_keypair@ == b.elgamal_keypair@);
        assert(a.aes_key@ == b.aes_key@);
        assert(a.elgamal_keypair =~= b.elgamal_keypair);
        assert(a.aes_key =~= b.aes_key);
    }
}

/// The two keys are derived under different seeds.
pub proof fn lemma_seeds_differ()
    ensures
        elgamal_seed() != ae_seed(),
{
    assert(elgamal_seed().len() == 7);
    assert(ae_seed().len() == 3);
}

/// What parsing owes for the text `text`: the 32 bytes that it stands for in
/// base 58 if they are an ElGamal public key, and `InvalidAuditorPubkey` for
/// every other text.
pub open spec fn elgamal_pubkey_of(
    text: Seq<char>,
    r: Result<[u8; 32], StealthLaunchError>,
) -> bool {
    match r {
        Ok(key) => base58_decoded(text) == Some(key@) && is_elgamal_pubkey(key@),
        Err(e) => {
            &&& e is InvalidAuditorPubkey
            &&& base58_decoded(text) matches Some(bytes) ==> bytes.len() != ELGAMAL_PUBKEY_LEN
                || !is_elgamal_pubkey(bytes)
        },
    }
}

/// Checks decoded bytes as an ElGamal public key: exactly 32 bytes that the
/// encryption scheme accepts.
pub fn elgamal_pubkey_from_bytes(bytes: &[u8]) -> (r: Result<[u8; 32], StealthLaunchError>)
    ensures
        r matches Ok(key) ==> key@ == bytes@ && is_elgamal_pubkey(bytes@),
        r matches Err(e) ==> e is InvalidAuditorPubkey,
        r is Ok <==> bytes@.len() == ELGAMAL_PUBKEY_LEN && is_elgamal_pubkey(bytes@),
{
    if bytes.len() != 32 {
        return Err(
            StealthLaunchError::InvalidAuditorPubkey("ElGamal pubkey must be 32 bytes".to_owned()),
        );
    }
    if !check_elgamal_pubkey(bytes) {
        return Err(
            StealthLaunchError::InvalidAuditorPubkey("Invalid ElGamal pubkey bytes".to_owned()),
        );
    }
    let mut key: [u8; 32] = [0u8; 32];
    let mut i: usize = 0;
    while i < 32
        invariant
            i <= 32,
            bytes@.len() == 32,
            forall|j: int| 0 <= j < i ==> key@[j] == bytes@[j],
        decreases 32 - i,
    {
        key[i] = bytes[i];
        i = i + 1;
    }
    assert(key@ =~= bytes@);
    Ok(key)
}

/// Reads an ElGamal public key from its base-58 text.
pub fn parse_elgamal_pubkey(s: &str) -> (r: Result<[u8; 32], StealthLaunchError>)
    ensures
        elgamal_pubkey_of(s@, r),
        r is Ok <==> (base58_decoded(s@) matches Some(bytes) && bytes.len() == ELGAMAL_PUBKEY_LEN
            && is_elgamal_pubkey(bytes)),
{
    match decode_base58(s) {
        Some(bytes) => elgamal_pubkey_from_bytes(bytes.as_slice()),
        None => Err(
            StealthLaunchError::InvalidAuditorPubkey(
                "Invalid base58 encoding for ElGamal pubkey".to_owned(),
            ),
        ),
    }
}

} // verus!
