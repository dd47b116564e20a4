use btcflow::amount::btc_amount_string;
use btcflow::amount::btc_value_string;
use btcflow::amount::sats_abs;
use btcflow::amount::u64_to_dec;

#[test]
fn decimal_of_zero() {
    assert_eq!(u64_to_dec(0), "0");
}

#[test]
fn decimal_of_many_digits() {
    assert_eq!(u64_to_dec(1234567890), "1234567890");
}

#[test]
fn decimal_of_largest() {
    assert_eq!(u64_to_dec(u64::MAX), "18446744073709551615");
}

#[test]
fn amount_whole_bitcoin() {
    assert_eq!(btc_amount_string(5_000_000_000), "50 BTC");
}

#[test]
fn amount_twenty_bitcoin() {
    assert_eq!(btc_amount_string(2_000_000_000), "20 BTC");
}

#[test]
fn amount_zero() {
    assert_eq!(btc_amount_string(0), "0 BTC");
}

#[test]
fn amount_fraction_is_zero_padded() {
    assert_eq!(btc_amount_string(2_000), "0.00002000 BTC");
}

#[test]
fn amount_just_over_one_bitcoin() {
    assert_eq!(btc_amount_string(100_000_001), "1.00000001 BTC");
}

#[test]
fn value_whole_bitcoin() {
    assert_eq!(btc_value_string(5_000_000_000), "50");
}

#[test]
fn value_zero() {
    assert_eq!(btc_value_string(0), "0");
}

#[test]
fn value_trims_trailing_zeros() {
    assert_eq!(btc_value_string(1_410), "0.0000141");
}

#[test]
fn value_keeps_inner_zeros() {
    assert_eq!(btc_value_string(100_000_001), "1.00000001");
}

#[test]
fn value_single_satoshi() {
    assert_eq!(btc_value_string(1), "0.00000001");
}

#[test]
fn abs_of_positive() {
    assert_eq!(sats_abs(42), 42);
}

#[test]
fn abs_of_negative() {
    assert_eq!(sats_abs(-1410), 1410);
}

#[test]
fn abs_of_smallest_signed() {
    assert_eq!(sats_abs(i64::MIN), 9_223_372_036_854_775_808);
}
