//! Validation of transaction ids.
//!
//! A transaction id travels over the RPC interface as a string of 64
//! hexadecimal digits. Anything else is rejected before it is used in
//! further calls.

use vstd::prelude::*;

verus! {

/// The length, in characters, of a transaction id.
pub const TXID_LEN: usize = 64;

/// Whether `c` is a hexadecimal digit, in either case.
pub open spec fn is_hex_digit(c: char) -> bool {
    ('0' <= c && c <= '9') || ('a' <= c && c <= 'f') || ('A' <= c && c <= 'F')
}

/// Whether `s` is a well-formed transaction id: exactly 64 hexadecimal
/// digits.
pub open spec fn is_valid_txid(s: Seq<char>) -> bool {
    s.len() == TXID_LEN && forall|i: int| 0 <= i < s.len() ==> is_hex_digit(#[trigger] s[i])
}

/// Whether `c` is a hexadecimal digit, in either case.
pub fn hex_digit(c: char) -> (b: bool)
    ensures
        b == is_hex_digit(c),
{
    ('0' <= c && c <= '9') || ('a' <= c && c <= 'f') || ('A' <= c && c <= 'F')
}

/// Whether `s` is a well-formed transaction id.
pub fn valid_txid(s: &str) -> (b: bool)
    ensures
        b == is_valid_txid(s@),
{
    let len = s.unicode_len();
    if len != TXID_LEN {
        return false;
    }
    let mut i: usize = 0;
    while i < len
        invariant
            len == s@.len(),
            0 <= i <= len,
            forall|j: int| 0 <= j < i ==> is_hex_digit(#[trigger] s@[j]),
        decreases len - i,
    {
        if !hex_digit(s.get_char(i)) {
            return false;
        }
        i = i + 1;
    }
    true
}

} // verus!
