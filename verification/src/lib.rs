//! Issuing and distributing tokens whose balances stay encrypted.
//!
//! The library holds the decisions of the tool: how confidential keys follow
//! from a signing key, how a balance is read, when a proof bundle may be
//! produced and from what, in which order the transfer of one recipient
//! stages, executes and cleans up, and how a batch keeps its books. Reading
//! files and talking to the ledger is left to the caller, who performs the
//! actions that the library asks for and reports how they went.
//!
//! The cryptography and the byte layouts are those of the ledger's own
//! libraries. Calls into them are marked in each module, together with what
//! is taken for granted about them.

pub mod balance;
pub mod batch;
pub mod cli;
pub mod config;
pub mod context;
pub mod crypto;
pub mod error;
pub mod instructions;
pub mod launch;
pub mod ledger;
pub mod proofs;
pub mod sequencer;
