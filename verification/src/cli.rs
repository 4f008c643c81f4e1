//! The command model: which asset kind to mint, with its metadata and the
//! destination blinded UTXO. The binary parses process arguments into this
//! model; everything past parsing works on these plain values.

use vstd::prelude::*;

verus! {

/// A parsed invocation of the tool.
#[derive(Debug, Clone, PartialEq, Eq)]
pub struct Cli {
    pub command: Commands,
}

/// The asset kinds the tool can mint. Each variant carries the asset
/// metadata and the recipient-chosen blinded UTXO the issued asset is
/// transferred to.
#[derive(Debug, Clone, PartialEq, Eq)]
pub enum Commands {
    /// Mint an NFT-style (RGB121) asset carrying an attached media file.
    MintRGB121 {
        name: String,
        description: String,
        amount: u64,
        file_path: String,
        blinded_utxo: String,
    },
    /// Mint a fungible (RGB20) asset with a ticker.
    MintRGB20 {
        name: String,
        ticker: String,
        amount: u64,
        blinded_utxo: String,
    },
}

impl Commands {
    /// The amount of the asset to issue and transfer.
    pub fn amount(&self) -> (r: u64)
        ensures
            r == self.spec_amount(),
    {
        match self {
            Commands::MintRGB121 { amount, .. } => *amount,
            Commands::MintRGB20 { amount, .. } => *amount,
        }
    }

    /// The blinded UTXO the issued asset is sent to.
    pub fn blinded_utxo(&self) -> (r: &String)
        ensures
            r == self.spec_blinded_utxo(),
    {
        match self {
            Commands::MintRGB121 { blinded_utxo, .. } => blinded_utxo,
            Commands::MintRGB20 { blinded_utxo, .. } => blinded_utxo,
        }
    }

    pub open spec fn spec_amount(&self) -> u64 {
        match self {
            Commands::MintRGB121 { amount, .. } => *amount,
            Commands::MintRGB20 { amount, .. } => *amount,
        }
    }

    pub open spec fn spec_blinded_utxo(&self) -> String {
        match self {
            Commands::MintRGB121 { blinded_utxo, .. } => *blinded_utxo,
            Commands::MintRGB20 { blinded_utxo, .. } => *blinded_utxo,
        }
    }
}

} // verus!
