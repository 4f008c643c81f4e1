//! A verified orchestration library for minting RGB assets on a Bitcoin
//! regtest network and transferring them to a blinded UTXO.
//!
//! The library holds the decision logic of the tool: the command model, the
//! mint-and-transfer state machine, the construction of the recipient map,
//! and the argument lists handed to the external service tooling. All I/O
//! (subprocess calls, wallet and network operations) is performed by the
//! binary around the library, which drives the state machine one event at a
//! time.

pub mod cli;
pub mod config;
pub mod orchestrator;
pub mod setup;
pub mod trace;
pub mod transfer;

use vstd::prelude::*;

verus! {

/// Number of single-use UTXOs requested before issuance; RGB issuance and
/// transfer each consume dedicated UTXOs.
pub const UTXO_SET_SIZE: u8 = 5;

} // verus!
