//! Arguments of the tool's commands, as plain values.

use vstd::prelude::*;

verus! {

/// Arguments of the command that creates a confidential mint.
#[derive(Debug)]
pub struct CreateArgs {
    /// Token name.
    pub name: String,
    /// Token symbol.
    pub symbol: String,
    /// Initial supply, in base units.
    pub supply: u64,
    /// Token decimals.
    pub decimals: u8,
    /// Auditor ElGamal public key in base 58, if the mint has an auditor.
    pub auditor: Option<String>,
    /// Path of the payer's signing key file.
    pub keypair: String,
    /// Ledger endpoint.
    pub rpc: String,
}

/// Arguments of the command that configures a wallet's token account.
#[derive(Debug)]
pub struct ConfigureArgs {
    /// Mint address.
    pub mint: [u8; 32],
    /// Path of the signing key file of the wallet that owns the account.
    pub owner: String,
    /// Path of the fee payer's signing key file; the owner pays if absent.
    pub fee_payer: Option<String>,
    /// Ledger endpoint.
    pub rpc: String,
}

/// Arguments of the command that distributes tokens to a list of recipients.
#[derive(Debug)]
pub struct DistributeArgs {
    /// Mint address.
    pub mint: [u8; 32],
    /// Path of the CSV file with one `wallet,amount` row for each recipient.
    pub recipients: String,
    /// Path of the signing key file of the payer and authority.
    pub keypair: String,
    /// Ledger endpoint.
    pub rpc: String,
}

/// Arguments of the command that shows the confidential balance of a wallet.
#[derive(Debug)]
pub struct BalanceArgs {
    /// Mint address.
    pub mint: [u8; 32],
    /// Wallet to check.
    pub wallet: [u8; 32],
    /// Path of the owner's signing key file, needed to decrypt.
    pub keypair: String,
    /// Ledger endpoint.
    pub rpc: String,
}

/// The commands of the tool.
#[derive(Debug)]
pub enum Commands {
    /// Create a new token with confidential transfer extensions.
    Create(CreateArgs),
    /// Configure a wallet's token account for confidential transfers.
    Configure(ConfigureArgs),
    /// Distribute tokens via confidential transfers.
    Distribute(DistributeArgs),
    /// Check the confidential balance of a wallet.
    Balance(BalanceArgs),
}

/// A parsed command line.
#[derive(Debug)]
pub struct Cli {
    /// The command to run.
    pub command: Commands,
}

impl ConfigureArgs {
    /// Path of the key file of whoever pays the fees: the fee payer if one
    /// is named, the owner if not.
    pub fn fee_payer_path(&self) -> (path: &String)
        ensures
            *path == match self.fee_payer {
                Some(p) => p,
                None => self.owner,
            },
    {
        match &self.fee_payer {
            Some(p) => p,
            None => &self.owner,
        }
    }

    /// Whether the owner pays the fees.
    pub fn owner_pays(&self) -> (b: bool)
        ensures
            b == self.fee_payer is None,
    {
        self.fee_payer.is_none()
    }
}

} // verus!
