use rgb_minter::config::{
    consignment_endpoint, data_dir, electrum_url, funding_amount, FEE_RATE_TENTHS,
};
use rgb_minter::transfer::build_recipient_map;
use rgb_minter::UTXO_SET_SIZE;

#[test]
fn recipient_map_has_one_key_and_one_recipient() {
    let map = build_recipient_map(
        "rgb20Asset".to_string(),
        100,
        "txob1y3w8h9n4v4tkn37uj55dvqyuhvftrr2cxecp4pzkhjxjc4zcfxtsmdt2vf".to_string(),
    );
    assert_eq!(map.asset_id, "rgb20Asset".to_string());
    assert_eq!(map.recipients.len(), 1);
    let recipient = &map.recipients[0];
    assert_eq!(recipient.amount, 100);
    assert_eq!(
        recipient.blinded_utxo,
        "txob1y3w8h9n4v4tkn37uj55dvqyuhvftrr2cxecp4pzkhjxjc4zcfxtsmdt2vf".to_string()
    );
    assert_eq!(
        recipient.consignment_endpoints,
        vec!["rgbhttpjsonrpc:http://localhost:3000/json-rpc".to_string()]
    );
}

#[test]
fn recipient_map_keeps_the_given_amount() {
    let map = build_recipient_map("asset".to_string(), 1, "txob1other".to_string());
    assert_eq!(map.recipients.len(), 1);
    assert_eq!(map.recipients[0].amount, 1);
    assert_eq!(map.recipients[0].blinded_utxo, "txob1other".to_string());
}

#[test]
fn fixed_configuration_values() {
    assert_eq!(data_dir(), "./data");
    assert_eq!(electrum_url(), "tcp://localhost:50001");
    assert_eq!(
        consignment_endpoint(),
        "rgbhttpjsonrpc:http://localhost:3000/json-rpc"
    );
    assert_eq!(funding_amount(), "0.001");
    assert_eq!(FEE_RATE_TENTHS, 15);
    assert_eq!(UTXO_SET_SIZE, 5);
}
