use rgb_minter::setup::{_bitcoin_cli, fund_wallet_args, mine_args, service_script_args};

#[test]
fn bitcoin_cli_words_are_fixed() {
    let words = _bitcoin_cli();
    assert_eq!(
        words.to_vec(),
        vec![
            "exec".to_string(),
            "-T".to_string(),
            "-u".to_string(),
            "blits".to_string(),
            "bitcoind".to_string(),
            "bitcoin-cli".to_string(),
            "-regtest".to_string(),
        ]
    );
}

#[test]
fn service_script_start_and_stop() {
    assert_eq!(
        service_script_args(true),
        vec!["./services.sh".to_string(), "start".to_string()]
    );
    assert_eq!(
        service_script_args(false),
        vec!["./services.sh".to_string(), "stop".to_string()]
    );
}

#[test]
fn fund_wallet_args_target_the_miner_wallet() {
    let args = fund_wallet_args("bcrt1qsomeaddress", "0.001");
    assert_eq!(
        args,
        vec![
            "exec".to_string(),
            "-T".to_string(),
            "-u".to_string(),
            "blits".to_string(),
            "bitcoind".to_string(),
            "bitcoin-cli".to_string(),
            "-regtest".to_string(),
            "-rpcwallet=miner".to_string(),
            "sendtoaddress".to_string(),
            "bcrt1qsomeaddress".to_string(),
            "0.001".to_string(),
        ]
    );
}

#[test]
fn mine_args_generate_exactly_one_block() {
    let args = mine_args();
    assert_eq!(
        args,
        vec![
            "exec".to_string(),
            "-T".to_string(),
            "-u".to_string(),
            "blits".to_string(),
            "bitcoind".to_string(),
            "bitcoin-cli".to_string(),
            "-regtest".to_string(),
            "-rpcwallet=miner".to_string(),
            "-generate".to_string(),
            "1".to_string(),
        ]
    );
}
