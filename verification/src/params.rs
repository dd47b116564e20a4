//! The JSON parameter text of the `sendtoaddress` RPC call.
//!
//! The call takes five positional parameters: the recipients (a single
//! address paired with a whole number of bitcoin), then four unset
//! options. The parameter list is built here as JSON text; the shell
//! parses it into its transport's value type without reshaping it.

use vstd::prelude::*;

use crate::amount::dec_digits;
use crate::amount::u64_to_dec;

verus! {

/// Whether `c` may stand inside a JSON string without escaping:
/// printable ASCII, and neither the quote nor the backslash.
pub open spec fn json_safe_char(c: char) -> bool {
    ' ' <= c && c <= '~' && c != '"' && c != '\\'
}

/// Whether every character of `s` may stand inside a JSON string
/// without escaping.
pub open spec fn json_safe(s: Seq<char>) -> bool {
    forall|i: int| 0 <= i < s.len() ==> json_safe_char(#[trigger] s[i])
}

/// The parameter list of a `sendtoaddress` call paying `btc` whole
/// bitcoin to `addr`: one recipient entry and four unset options.
pub open spec fn send_params_chars(addr: Seq<char>, btc: nat) -> Seq<char> {
    seq!['[', '[', '{', '"'] + addr + seq!['"', ':'] + dec_digits(btc) + seq![
        '}',
        ']',
        ',',
        'n',
        'u',
        'l',
        'l',
        ',',
        'n',
        'u',
        'l',
        'l',
        ',',
        'n',
        'u',
        'l',
        'l',
        ',',
        'n',
        'u',
        'l',
        'l',
        ']',
    ]
}

/// Whether every character of `s` may stand inside a JSON string
/// without escaping.
pub fn json_safe_str(s: &str) -> (b: bool)
    ensures
        b == json_safe(s@),
{
    let len = s.unicode_len();
    let mut i: usize = 0;
    while i < len
        invariant
            len == s@.len(),
            0 <= i <= len,
            forall|j: int| 0 <= j < i ==> json_safe_char(#[trigger] s@[j]),
        decreases len - i,
    {
        let c = s.get_char(i);
        if !(' ' <= c && c <= '~' && c != '"' && c != '\\') {
            return false;
        }
        i = i + 1;
    }
    true
}

/// Builds the `sendtoaddress` parameter text for paying `btc` whole
/// bitcoin to `addr`.
pub fn send_params(addr: &str, btc: u64) -> (s: String)
    requires
        json_safe(addr@),
    ensures
        s@ == send_params_chars(addr@, btc as nat),
{
    let mut s = String::from_str("[[{\"");
    s.append(addr);
    s.append("\":");
    let amount_digits = u64_to_dec(btc);
    s.append(amount_digits.as_str());
    s.append("}],null,null,null,null]");
    proof {
        reveal_strlit("[[{\"");
        reveal_strlit("\":");
        reveal_strlit("}],null,null,null,null]");
        assert(s@ =~= send_params_chars(addr@, btc as nat));
    }
    s
}

} // verus!
