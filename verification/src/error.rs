//! Failures of the tool and of the transfer protocol.

use vstd::prelude::*;

verus! {

/// `std::io::Error`, carried through unread.
#[verifier::external_type_specification]
#[verifier::external_body]
pub struct ExIoError(std::io::Error);

/// Why an operation of the tool failed.
#[derive(Debug)]
pub enum StealthLaunchError {
    /// The signing key file could not be read.
    KeypairLoad { path: String, source: std::io::Error },
    /// The signing key file does not hold a signing key.
    InvalidKeypair,
    /// The ledger client reported a failure.
    Rpc(String),
    /// The wallet has no token account for the mint.
    TokenAccountNotFound { wallet: String },
    /// The account was never set up for confidential transfers.
    ConfidentialTransferNotConfigured,
    /// A balance ciphertext did not open under the caller's key.
    DecryptionFailed(String),
    /// The recipient list is empty or holds a malformed row.
    InvalidRecipientCsv(String),
    /// A submitted transaction was not confirmed.
    TransactionFailed(String),
    /// The auditor key is not a base-58 text of a 32-byte ElGamal public key.
    InvalidAuditorPubkey(String),
    /// The source balance does not cover the amount of a recipient.
    InsufficientBalance { need: u64, have: u64 },
    /// The confidential keys could not be derived from the signing key.
    KeyDerivationFailed,
    /// The proof bundle of a transfer could not be produced.
    ProofGenerationFailed,
    /// A context record could not be created.
    ContextAccountCreationFailed,
    /// A context record could not be closed.
    ContextAccountCloseFailed,
}

/// The classes of failure that the transfer protocol tells apart.
#[derive(Clone, Copy, Debug, PartialEq, Eq, Structural)]
pub enum ErrorKind {
    AccountNotFound,
    ExtensionMissing,
    DecryptionFailed,
    InsufficientBalance,
    KeyDerivationFailed,
    ProofGenerationFailed,
    ContextAccountCreationFailed,
    ContextAccountCloseFailed,
    TransferExecutionFailed,
    InvalidInput,
}

impl StealthLaunchError {
    /// The class that the failure belongs to.
    pub open spec fn spec_kind(&self) -> ErrorKind {
        match self {
            StealthLaunchError::KeypairLoad { .. } => ErrorKind::InvalidInput,
            StealthLaunchError::InvalidKeypair => ErrorKind::InvalidInput,
            StealthLaunchError::Rpc(_) => ErrorKind::AccountNotFound,
            StealthLaunchError::TokenAccountNotFound { .. } => ErrorKind::AccountNotFound,
            StealthLaunchError::ConfidentialTransferNotConfigured => ErrorKind::ExtensionMissing,
            StealthLaunchError::DecryptionFailed(_) => ErrorKind::DecryptionFailed,
            StealthLaunchError::InvalidRecipientCsv(_) => ErrorKind::InvalidInput,
            StealthLaunchError::TransactionFailed(_) => ErrorKind::TransferExecutionFailed,
            StealthLaunchError::InvalidAuditorPubkey(_) => ErrorKind::InvalidInput,
            StealthLaunchError::InsufficientBalance { .. } => ErrorKind::InsufficientBalance,
            StealthLaunchError::KeyDerivationFailed => ErrorKind::KeyDerivationFailed,
            StealthLaunchError::ProofGenerationFailed => ErrorKind::ProofGenerationFailed,
            StealthLaunchError::ContextAccountCreationFailed => ErrorKind::ContextAccountCreationFailed,
            StealthLaunchError::ContextAccountCloseFailed => ErrorKind::ContextAccountCloseFailed,
        }
    }

    /// Executable form of [`StealthLaunchError::spec_kind`].
    pub fn kind(&self) -> (k: ErrorKind)
        ensures
            k == self.spec_kind(),
    {
        match self {
            StealthLaunchError::KeypairLoad { .. } => ErrorKind::InvalidInput,
            StealthLaunchError::InvalidKeypair => ErrorKind::InvalidInput,
            StealthLaunchError::Rpc(_) => ErrorKind::AccountNotFound,
            StealthLaunchError::TokenAccountNotFound { .. } => ErrorKind::AccountNotFound,
            StealthLaunchError::ConfidentialTransferNotConfigured => ErrorKind::ExtensionMissing,
            StealthLaunchError::DecryptionFailed(_) => ErrorKind::DecryptionFailed,
            StealthLaunchError::InvalidRecipientCsv(_) => ErrorKind::InvalidInput,
            StealthLaunchError::TransactionFailed(_) => ErrorKind::TransferExecutionFailed,
            StealthLaunchError::InvalidAuditorPubkey(_) => ErrorKind::InvalidInput,
            StealthLaunchError::InsufficientBalance { .. } => ErrorKind::InsufficientBalance,
            StealthLaunchError::KeyDerivationFailed => ErrorKind::KeyDerivationFailed,
            StealthLaunchError::ProofGenerationFailed => ErrorKind::ProofGenerationFailed,
            StealthLaunchError::ContextAccountCreationFailed => ErrorKind::ContextAccountCreationFailed,
            StealthLaunchError::ContextAccountCloseFailed => ErrorKind::ContextAccountCloseFailed,
        }
    }
}

} // verus!
