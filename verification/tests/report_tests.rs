use btcflow::report::TxDetail;
use btcflow::report::TxReport;

fn full_report() -> TxReport {
    TxReport {
        txid: "4a5e1e4baab89f3a32518a88c31bc87f618f76673e2cc77ab2127b7afdeda33b".to_string(),
        miner_address: "bcrt1qminer".to_string(),
        miner_balance_sats: 5_000_000_000,
        trader_address: "bcrt1qtrader".to_string(),
        sent_btc: 20,
        first_detail: Some(TxDetail {
            address: Some("bcrt1qchange".to_string()),
            amount_sats: -2_000_000_000,
        }),
        fee_sats: Some(-1_410),
        block_height: Some(102),
        block_hash: Some("000000000019d6689c085ae165831e934ff763ae46a2a6c172b3f1b60a8ce26f".to_string()),
    }
}

#[test]
fn renders_all_fields() {
    let lines = full_report().render();
    assert_eq!(
        lines,
        vec![
            "4a5e1e4baab89f3a32518a88c31bc87f618f76673e2cc77ab2127b7afdeda33b",
            "bcrt1qminer",
            "50 BTC",
            "bcrt1qtrader",
            "20",
            "bcrt1qchange",
            "20 BTC",
            "0.0000141",
            "102",
            "000000000019d6689c085ae165831e934ff763ae46a2a6c172b3f1b60a8ce26f",
        ]
    );
}

#[test]
fn renders_missing_fields() {
    let mut report = full_report();
    report.first_detail = None;
    report.fee_sats = None;
    report.block_height = None;
    report.block_hash = None;
    let lines = report.render();
    assert_eq!(lines[5], "N/A");
    assert_eq!(lines[6], "0");
    assert_eq!(lines[7], "0");
    assert_eq!(lines[8], "4294967295");
    assert_eq!(lines[9], "N/A");
}

#[test]
fn renders_detail_without_address() {
    let mut report = full_report();
    report.first_detail = Some(TxDetail { address: None, amount_sats: 123 });
    let lines = report.render();
    assert_eq!(lines[5], "N/A");
    assert_eq!(lines[6], "0.00000123 BTC");
}
