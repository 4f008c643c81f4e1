//! The fixed configuration of the orchestration: local data directory,
//! indexer address, consignment-relay endpoint, funding amount and fee
//! rate. Each value is pinned by its contract so the binary and the
//! recipient-map construction use exactly the words stated here.

use vstd::prelude::*;

verus! {

/// Fee rate, in tenths of satoshi per virtual byte, used for UTXO creation
/// and for the transfer (fifteen tenths, i.e. one and a half).
pub const FEE_RATE_TENTHS: u64 = 15;

/// The local directory the wallet stores its state under.
pub fn data_dir() -> (r: &'static str)
    ensures
        r@ == "./data"@,
{
    "./data"
}

/// The address of the local indexing service the wallet goes online
/// against.
pub fn electrum_url() -> (r: &'static str)
    ensures
        r@ == "tcp://localhost:50001"@,
{
    "tcp://localhost:50001"
}

/// The words of the fixed local consignment-relay endpoint.
pub open spec fn consignment_endpoint_words() -> Seq<char> {
    "rgbhttpjsonrpc:http://localhost:3000/json-rpc"@
}

/// The fixed local consignment-relay endpoint every transfer is announced
/// on.
pub fn consignment_endpoint() -> (r: &'static str)
    ensures
        r@ == consignment_endpoint_words(),
{
    "rgbhttpjsonrpc:http://localhost:3000/json-rpc"
}

/// The bitcoin amount, as the word handed to `sendtoaddress`, the wallet is
/// funded with.
pub fn funding_amount() -> (r: &'static str)
    ensures
        r@ == "0.001"@,
{
    "0.001"
}

} // verus!
