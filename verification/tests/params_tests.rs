use btcflow::params::json_safe_str;
use btcflow::params::send_params;
use btcflow::txid::valid_txid;

#[test]
fn params_shape() {
    let p = send_params("bcrt1qw508d6qejxtdg4y5r3zarvary0c5xw7kygt080", 20);
    assert_eq!(
        p,
        "[[{\"bcrt1qw508d6qejxtdg4y5r3zarvary0c5xw7kygt080\":20}],null,null,null,null]"
    );
}

#[test]
fn params_parse_as_json() {
    let p = send_params("mzBc4XEFSdzCDcTxAgf6EZXgsZWpztRhef", 20);
    let v: serde_json::Value = serde_json::from_str(&p).unwrap();
    let args = v.as_array().unwrap();
    assert_eq!(args.len(), 5);
    let recipients = args[0].as_array().unwrap();
    assert_eq!(recipients.len(), 1);
    let entry = recipients[0].as_object().unwrap();
    assert_eq!(
        entry.get("mzBc4XEFSdzCDcTxAgf6EZXgsZWpztRhef").unwrap().as_u64(),
        Some(20)
    );
    for arg in &args[1..] {
        assert!(arg.is_null());
    }
}

#[test]
fn safe_address_accepted() {
    assert!(json_safe_str("bcrt1qw508d6qejxtdg4y5r3zarvary0c5xw7kygt080"));
}

#[test]
fn quote_rejected() {
    assert!(!json_safe_str("addr\"ess"));
}

#[test]
fn backslash_rejected() {
    assert!(!json_safe_str("addr\\ess"));
}

#[test]
fn control_character_rejected() {
    assert!(!json_safe_str("addr\ness"));
}

#[test]
fn non_ascii_rejected() {
    assert!(!json_safe_str("adresse-à-paris"));
}

#[test]
fn well_formed_txid_accepted() {
    assert!(valid_txid(
        "4a5e1e4baab89f3a32518a88c31bc87f618f76673e2cc77ab2127b7afdeda33b"
    ));
}

#[test]
fn upper_case_txid_accepted() {
    assert!(valid_txid(
        "4A5E1E4BAAB89F3A32518A88C31BC87F618F76673E2CC77AB2127B7AFDEDA33B"
    ));
}

#[test]
fn short_txid_rejected() {
    assert!(!valid_txid(
        "4a5e1e4baab89f3a32518a88c31bc87f618f76673e2cc77ab2127b7afdeda33"
    ));
}

#[test]
fn non_hex_txid_rejected() {
    assert!(!valid_txid(
        "4a5e1e4baab89f3a32518a88c31bc87f618f76673e2cc77ab2127b7afdeda33g"
    ));
}

#[test]
fn empty_txid_rejected() {
    assert!(!valid_txid(""));
}
