//! Argument lists for the external service tooling.
//!
//! The tool manages its auxiliary infrastructure by running a shell script
//! (start/stop) and by running a regtest `bitcoin-cli` through a
//! container-orchestration CLI (funding the wallet, mining blocks). The
//! functions here build those argument lists and pin every word of them; the
//! binary only spawns the processes.

use vstd::prelude::*;
use vstd::string::StringExecFns;

verus! {

/// The fixed words that reach the regtest `bitcoin-cli` inside the
/// `bitcoind` service of the container setup.
pub open spec fn bitcoin_cli_words() -> Seq<Seq<char>> {
    seq![
        "exec"@,
        "-T"@,
        "-u"@,
        "blits"@,
        "bitcoind"@,
        "bitcoin-cli"@,
        "-regtest"@,
    ]
}

/// Arguments of the shell script that starts or stops the auxiliary
/// services (regtest node, indexer, consignment relay).
pub open spec fn service_script_words(start: bool) -> Seq<Seq<char>> {
    seq!["./services.sh"@, if start { "start"@ } else { "stop"@ }]
}

/// Arguments of the funding call: a `sendtoaddress` against the miner
/// wallet, for the given address and bitcoin amount.
pub open spec fn fund_wallet_words(address: Seq<char>, amount: Seq<char>) -> Seq<Seq<char>> {
    bitcoin_cli_words() + seq!["-rpcwallet=miner"@, "sendtoaddress"@, address, amount]
}

/// Arguments of the mining call: generate exactly one block from the miner
/// wallet.
pub open spec fn mine_words() -> Seq<Seq<char>> {
    bitcoin_cli_words() + seq!["-rpcwallet=miner"@, "-generate"@, "1"@]
}

/// The fixed leading arguments handed to the container-orchestration CLI to
/// reach the regtest `bitcoin-cli`.
pub fn _bitcoin_cli() -> (r: [String; 7])
    ensures
        r.deep_view() == bitcoin_cli_words(),
{
    let r = [
        String::from_str("exec"),
        String::from_str("-T"),
        String::from_str("-u"),
        String::from_str("blits"),
        String::from_str("bitcoind"),
        String::from_str("bitcoin-cli"),
        String::from_str("-regtest"),
    ];
    proof {
        assert(r.deep_view() =~= bitcoin_cli_words());
    }
    r
}

/// Pushes the words of `_bitcoin_cli` onto an argument list.
fn push_bitcoin_cli(v: &mut Vec<String>)
    ensures
        final(v).deep_view() == old(v).deep_view() + bitcoin_cli_words(),
{
    let ghost v0 = *old(v);
    v.push(String::from_str("exec"));
    v.push(String::from_str("-T"));
    v.push(String::from_str("-u"));
    v.push(String::from_str("blits"));
    v.push(String::from_str("bitcoind"));
    v.push(String::from_str("bitcoin-cli"));
    v.push(String::from_str("-regtest"));
    proof {
        assert(v.deep_view() =~= v0.deep_view() + bitcoin_cli_words());
    }
}

/// Arguments of the service-management script invocation, started or
/// stopped according to `start`.
pub fn service_script_args(start: bool) -> (r: Vec<String>)
    ensures
        r.deep_view() == service_script_words(start),
{
    let mut v: Vec<String> = Vec::new();
    v.push(String::from_str("./services.sh"));
    if start {
        v.push(String::from_str("start"));
    } else {
        v.push(String::from_str("stop"));
    }
    proof {
        assert(v.deep_view() =~= service_script_words(start));
    }
    v
}

/// Arguments of the container-orchestration call that funds `address` with
/// `amount` bitcoin from the miner wallet.
pub fn fund_wallet_args(address: &str, amount: &str) -> (r: Vec<String>)
    ensures
        r.deep_view() == fund_wallet_words(address@, amount@),
{
    let mut v: Vec<String> = Vec::new();
    push_bitcoin_cli(&mut v);
    v.push(String::from_str("-rpcwallet=miner"));
    v.push(String::from_str("sendtoaddress"));
    v.push(String::from_str(address));
    v.push(String::from_str(amount));
    proof {
        assert(v.deep_view() =~= fund_wallet_words(address@, amount@));
    }
    v
}

/// Arguments of the container-orchestration call that mines one block from
/// the miner wallet.
pub fn mine_args() -> (r: Vec<String>)
    ensures
        r.deep_view() == mine_words(),
{
    let mut v: Vec<String> = Vec::new();
    push_bitcoin_cli(&mut v);
    v.push(String::from_str("-rpcwallet=miner"));
    v.push(String::from_str("-generate"));
    v.push(String::from_str("1"));
    proof {
        assert(v.deep_view() =~= mine_words());
    }
    v
}

} // verus!
