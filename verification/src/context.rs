//! Short-lived ledger records that hold the proofs of one transfer.

use vstd::prelude::*;

verus! {

/// The proof that a context record holds.
#[derive(Clone, Copy, Debug, PartialEq, Eq, Structural)]
pub enum ContextKind {
    /// Ciphertext-commitment equality proof.
    Equality,
    /// Ciphertext validity proof, which comes with the new ciphertexts.
    Validity,
    /// Batched range proof.
    Range,
}

/// Number of context records that one transfer stages.
pub const CONTEXT_RECORDS: u8 = 3;

impl ContextKind {
    /// Position of the kind in the order in which records are created and closed.
    pub open spec fn ordinal(self) -> nat {
        match self {
            ContextKind::Equality => 0,
            ContextKind::Validity => 1,
            ContextKind::Range => 2,
        }
    }

    /// The kind at a position; positions past the last give the last kind.
    pub open spec fn at(i: nat) -> ContextKind {
        if i == 0 {
            ContextKind::Equality
        } else if i == 1 {
            ContextKind::Validity
        } else {
            ContextKind::Range
        }
    }

    /// Whether the record is allocated in one transaction and filled in a second.
    /// Only the equality proof is small enough to go in a single transaction.
    pub open spec fn spec_two_phase(self) -> bool {
        self != ContextKind::Equality
    }

    /// Executable form of [`ContextKind::ordinal`].
    pub fn index(self) -> (i: u8)
        ensures
            i == self.ordinal(),
            i < CONTEXT_RECORDS,
            ContextKind::at(i as nat) == self,
    {
        match self {
            ContextKind::Equality => 0,
            ContextKind::Validity => 1,
            ContextKind::Range => 2,
        }
    }

    /// Executable form of [`ContextKind::at`].
    pub fn from_index(i: u8) -> (k: ContextKind)
        ensures
            k == ContextKind::at(i as nat),
            i < CONTEXT_RECORDS ==> k.ordinal() == i,
    {
        if i == 0 {
            ContextKind::Equality
        } else if i == 1 {
            ContextKind::Validity
        } else {
            ContextKind::Range
        }
    }

    /// Creation mode of the record that holds this proof.
    pub fn two_phase(self) -> (split: bool)
        ensures
            split == self.spec_two_phase(),
    {
        match self {
            ContextKind::Equality => false,
            _ => true,
        }
    }
}

/// A context record on the ledger.
#[derive(Clone, Copy, Debug)]
pub struct ContextRecord {
    /// Address of the record.
    pub address: [u8; 32],
    /// The proof that it holds.
    pub kind: ContextKind,
    /// Who paid its deposit.
    pub funded_by: [u8; 32],
    /// Who may close it.
    pub owner: [u8; 32],
}

/// What closing a context record takes.
#[derive(Clone, Copy, Debug)]
pub struct CloseRequest {
    /// Address of the record to close.
    pub record: [u8; 32],
    /// Where its deposit goes.
    pub refund_destination: [u8; 32],
    /// Who authorizes the close.
    pub authority: [u8; 32],
}

impl ContextRecord {
    /// The record of `kind` at `address` that `authority` creates: the
    /// authority pays the deposit and owns the record.
    pub fn new(kind: ContextKind, address: [u8; 32], authority: [u8; 32]) -> (record: ContextRecord)
        ensures
            record.kind == kind,
            record.address == address,
            record.funded_by == authority,
            record.owner == authority,
    {
        ContextRecord { address, kind, funded_by: authority, owner: authority }
    }

    /// Whether the record is created in two transactions.
    pub fn two_phase(&self) -> (split: bool)
        ensures
            split == self.kind.spec_two_phase(),
    {
        self.kind.two_phase()
    }

    /// The request that closes the record and sends its deposit to
    /// `refund_destination`. Only the owner can authorize it.
    pub fn close_request(&self, refund_destination: [u8; 32]) -> (request: CloseRequest)
        ensures
            request.record == self.address,
            request.refund_destination == refund_destination,
            request.authority == self.owner,
    {
        CloseRequest { record: self.address, refund_destination, authority: self.owner }
    }
}

} // verus!
