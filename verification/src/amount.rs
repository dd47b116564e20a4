//! Decimal rendering of bitcoin amounts held as satoshi counts.
//!
//! An amount of bitcoin is kept as a number of satoshis (one bitcoin is
//! 100 000 000 satoshis). Two renderings are provided: the denominated
//! form, `"<whole>.<8 fractional digits> BTC"` with the fractional part
//! omitted when it is zero, and the bare numeric form used for fees,
//! where trailing zeros of the fractional part are dropped.

use vstd::prelude::*;

verus! {

/// Number of satoshis in one bitcoin.
pub const SATS_PER_BTC: u64 = 100_000_000;

/// Number of fractional decimal digits of a bitcoin amount.
pub const BTC_DECIMALS: u64 = 8;

/// The decimal digit character for a value below ten.
pub open spec fn digit_char(d: nat) -> char
    recommends
        d < 10,
{
    if d == 0 {
        '0'
    } else if d == 1 {
        '1'
    } else if d == 2 {
        '2'
    } else if d == 3 {
        '3'
    } else if d == 4 {
        '4'
    } else if d == 5 {
        '5'
    } else if d == 6 {
        '6'
    } else if d == 7 {
        '7'
    } else if d == 8 {
        '8'
    } else {
        '9'
    }
}

/// The ordinary base-ten rendering of a natural number, without leading
/// zeros (except that zero itself is rendered as "0").
pub open spec fn dec_digits(n: nat) -> Seq<char>
    decreases n,
{
    if n < 10 {
        seq![digit_char(n)]
    } else {
        dec_digits(n / 10) + seq![digit_char(n % 10)]
    }
}

/// The lowest `width` base-ten digits of `n`, zero padded on the left:
/// the fixed-width rendering of `n` whenever `n < 10^width`.
pub open spec fn fixed_digits(n: nat, width: nat) -> Seq<char>
    decreases width,
{
    if width == 0 {
        Seq::empty()
    } else {
        fixed_digits(n / 10, (width - 1) as nat) + seq![digit_char(n % 10)]
    }
}

/// `s` with every trailing '0' character removed.
pub open spec fn trim_trailing_zeros(s: Seq<char>) -> Seq<char>
    decreases s.len(),
{
    if s.len() > 0 && s.last() == '0' {
        trim_trailing_zeros(s.drop_last())
    } else {
        s
    }
}

/// Ten to the power `w`.
pub open spec fn pow10(w: nat) -> nat
    decreases w,
{
    if w == 0 {
        1
    } else {
        10 * pow10((w - 1) as nat)
    }
}

/// The denomination suffix of the amount rendering.
pub open spec fn btc_suffix() -> Seq<char> {
    seq![' ', 'B', 'T', 'C']
}

/// Denominated rendering of an amount of `sats` satoshis: the whole
/// number of bitcoin, then, unless the amount is a whole number of
/// bitcoin, a point and exactly eight fractional digits, then " BTC".
pub open spec fn btc_amount_chars(sats: nat) -> Seq<char> {
    let whole = sats / (SATS_PER_BTC as nat);
    let frac = sats % (SATS_PER_BTC as nat);
    if frac == 0 {
        dec_digits(whole) + btc_suffix()
    } else {
        dec_digits(whole) + seq!['.'] + fixed_digits(frac, BTC_DECIMALS as nat) + btc_suffix()
    }
}

/// Bare numeric rendering of an amount of `sats` satoshis in bitcoin:
/// as `btc_amount_chars` but without the suffix, and with the trailing
/// zeros of the fractional part dropped.
pub open spec fn btc_value_chars(sats: nat) -> Seq<char> {
    let whole = sats / (SATS_PER_BTC as nat);
    let frac = sats % (SATS_PER_BTC as nat);
    if frac == 0 {
        dec_digits(whole)
    } else {
        dec_digits(whole) + seq!['.'] + trim_trailing_zeros(
            fixed_digits(frac, BTC_DECIMALS as nat),
        )
    }
}

/// The absolute value.
pub open spec fn abs_of(v: int) -> nat {
    if v >= 0 {
        v as nat
    } else {
        (-v) as nat
    }
}

/// A one-character string slice holding the digit character of `d`.
fn digit_str(d: u64) -> (s: &'static str)
    requires
        d < 10,
    ensures
        s@ =~= seq![digit_char(d as nat)],
{
    proof {
        reveal_strlit("0");
        reveal_strlit("1");
        reveal_strlit("2");
        reveal_strlit("3");
        reveal_strlit("4");
        reveal_strlit("5");
        reveal_strlit("6");
        reveal_strlit("7");
        reveal_strlit("8");
        reveal_strlit("9");
    }
    match d {
        0 => "0",
        1 => "1",
        2 => "2",
        3 => "3",
        4 => "4",
        5 => "5",
        6 => "6",
        7 => "7",
        8 => "8",
        _ => "9",
    }
}

/// Renders `n` in base ten.
pub fn u64_to_dec(n: u64) -> (s: String)
    ensures
        s@ == dec_digits(n as nat),
    decreases n,
{
    if n < 10 {
        String::from_str(digit_str(n))
    } else {
        let prefix = u64_to_dec(n / 10);
        let s = prefix.concat(digit_str(n % 10));
        assert(s@ =~= dec_digits(n as nat));
        s
    }
}

/// Renders the lowest `width` digits of `n`, zero padded.
pub fn u64_to_fixed(n: u64, width: u64) -> (s: String)
    ensures
        s@ == fixed_digits(n as nat, width as nat),
    decreases width,
{
    if width == 0 {
        let s = String::new();
        assert(s@ =~= fixed_digits(n as nat, 0));
        s
    } else {
        let prefix = u64_to_fixed(n / 10, width - 1);
        let s = prefix.concat(digit_str(n % 10));
        assert(s@ =~= fixed_digits(n as nat, width as nat));
        s
    }
}

/// Dropping a trailing zero digit commutes with trimming.
proof fn lemma_trim_shift(n: nat, width: nat)
    requires
        width > 0,
        n % 10 == 0,
    ensures
        trim_trailing_zeros(fixed_digits(n, width)) == trim_trailing_zeros(
            fixed_digits(n / 10, (width - 1) as nat),
        ),
{
    let s = fixed_digits(n, width);
    assert(s.last() == digit_char(n % 10));
    assert(s.drop_last() =~= fixed_digits(n / 10, (width - 1) as nat));
}

/// A rendering whose last digit is not zero is already trimmed.
proof fn lemma_trim_fixed_point(n: nat, width: nat)
    requires
        width > 0,
        n % 10 != 0,
    ensures
        trim_trailing_zeros(fixed_digits(n, width)) == fixed_digits(n, width),
{
    let s = fixed_digits(n, width);
    assert(s.last() == digit_char(n % 10));
    assert(s.last() != '0');
}

/// Renders `sats` satoshis in the denominated form, e.g. "50 BTC" or
/// "0.00002000 BTC".
pub fn btc_amount_string(sats: u64) -> (s: String)
    ensures
        s@ == btc_amount_chars(sats as nat),
{
    let whole = sats / SATS_PER_BTC;
    let frac = sats % SATS_PER_BTC;
    let mut s = u64_to_dec(whole);
    if frac != 0 {
        s = s.concat(".");
        let frac_digits = u64_to_fixed(frac, BTC_DECIMALS);
        s = s.concat(frac_digits.as_str());
    }
    s = s.concat(" BTC");
    proof {
        reveal_strlit(".");
        reveal_strlit(" BTC");
        assert(s@ =~= btc_amount_chars(sats as nat));
    }
    s
}

/// There are as many satoshis in a bitcoin as the amount rendering has
/// fractional digits.
proof fn lemma_pow10_btc_decimals()
    ensures
        pow10(BTC_DECIMALS as nat) == SATS_PER_BTC,
{
    assert(pow10(0) == 1);
    assert(pow10(1) == 10);
    assert(pow10(2) == 100);
    assert(pow10(3) == 1000);
    assert(pow10(4) == 10000);
    assert(pow10(5) == 100000);
    assert(pow10(6) == 1000000);
    assert(pow10(7) == 10000000);
    assert(pow10(8) == 100000000);
}

/// Renders `sats` satoshis in the bare numeric form, e.g. "50" or
/// "0.0000141".
pub fn btc_value_string(sats: u64) -> (s: String)
    ensures
        s@ == btc_value_chars(sats as nat),
{
    let whole = sats / SATS_PER_BTC;
    let mut frac = sats % SATS_PER_BTC;
    let mut s = u64_to_dec(whole);
    if frac != 0 {
        let ghost frac0 = frac as nat;
        let mut width: u64 = BTC_DECIMALS;
        proof {
            lemma_pow10_btc_decimals();
        }
        while frac % 10 == 0
            invariant
                0 < frac,
                1 <= width <= BTC_DECIMALS,
                (frac as nat) < pow10(width as nat),
                trim_trailing_zeros(fixed_digits(frac0, BTC_DECIMALS as nat))
                    == trim_trailing_zeros(fixed_digits(frac as nat, width as nat)),
            decreases width,
        {
            proof {
                if width <= 1 {
                    assert(width == 1);
                    assert(pow10(1) == 10 * pow10(0));
                    assert(pow10(width as nat) <= 10);
                    assert(false);
                }
                lemma_trim_shift(frac as nat, width as nat);
            }
            frac = frac / 10;
            width = width - 1;
        }
        proof {
            lemma_trim_fixed_point(frac as nat, width as nat);
        }
        s = s.concat(".");
        let frac_digits = u64_to_fixed(frac, width);
        s = s.concat(frac_digits.as_str());
    }
    proof {
        reveal_strlit(".");
        assert(s@ =~= btc_value_chars(sats as nat));
    }
    s
}

/// The magnitude of a signed satoshi count, total also at the smallest
/// signed value.
pub fn sats_abs(v: i64) -> (r: u64)
    ensures
        r as nat == abs_of(v as int),
{
    if v >= 0 {
        v as u64
    } else if v == i64::MIN {
        9_223_372_036_854_775_808u64
    } else {
        (-v) as u64
    }
}

} // verus!
