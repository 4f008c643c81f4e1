//! The recipient map of a transfer.
//!
//! A transfer request maps the issued asset's identifier to its recipients.
//! This tool always builds a single-entry map: one asset identifier, one
//! recipient, one consignment endpoint. [`build_recipient_map`] constructs
//! it and its contract pins that shape; the binary converts the result into
//! the wallet library's own map type before submitting the transfer.

use vstd::prelude::*;
use vstd::string::StringExecFns;

use crate::config;

verus! {

/// One recipient of a transfer: the amount sent, the recipient-chosen
/// blinded UTXO, and the consignment endpoints the proof bundle is
/// announced on.
#[derive(Debug, Clone, PartialEq, Eq)]
pub struct Recipient {
    pub amount: u64,
    pub blinded_utxo: String,
    pub consignment_endpoints: Vec<String>,
}

/// A transfer's recipient map. The tool only ever sends one freshly issued
/// asset, so the map holds exactly one key: `asset_id`, mapped to
/// `recipients`.
#[derive(Debug, Clone, PartialEq, Eq)]
pub struct RecipientMap {
    pub asset_id: String,
    pub recipients: Vec<Recipient>,
}

impl RecipientMap {
    /// The mapping this value stands for: from asset identifier to
    /// recipient list.
    pub open spec fn entries(self) -> Map<Seq<char>, Seq<Recipient>> {
        Map::empty().insert(self.asset_id@, self.recipients@)
    }
}

/// Builds the recipient map of the one transfer the tool performs: the
/// issued asset's identifier mapped to a single recipient carrying the
/// requested amount, the caller-supplied blinded UTXO, and the fixed local
/// consignment-relay endpoint as its only consignment endpoint.
pub fn build_recipient_map(asset_id: String, amount: u64, blinded_utxo: String) -> (r:
    RecipientMap)
    ensures
        r.asset_id == asset_id,
        r.entries().dom() =~= set![asset_id@],
        r.recipients@.len() == 1,
        r.recipients@[0].amount == amount,
        r.recipients@[0].blinded_utxo == blinded_utxo,
        r.recipients@[0].consignment_endpoints.deep_view() =~= seq![
            config::consignment_endpoint_words(),
        ],
{
    let mut consignment_endpoints: Vec<String> = Vec::new();
    consignment_endpoints.push(String::from_str(config::consignment_endpoint()));
    let mut recipients: Vec<Recipient> = Vec::new();
    recipients.push(Recipient { amount, blinded_utxo, consignment_endpoints });
    RecipientMap { asset_id, recipients }
}

} // verus!
