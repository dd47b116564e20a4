//! The report written at the end of the walkthrough.
//!
//! The report is ten lines, one field each: the confirmed transaction
//! id, the miner's address, the miner's balance, the trader's address,
//! the amount sent, the counterparty address and amount of the
//! transaction's first detail entry, the fee, and the block height and
//! hash of the confirming block. Fields the node did not report are
//! rendered as "N/A" (or zero, for the detail amount).

use vstd::prelude::*;

use crate::amount::abs_of;
use crate::amount::btc_amount_chars;
use crate::amount::btc_amount_string;
use crate::amount::btc_value_chars;
use crate::amount::btc_value_string;
use crate::amount::dec_digits;
use crate::amount::sats_abs;
use crate::amount::u64_to_dec;

verus! {

/// The rendering of a field the node did not report.
pub open spec fn na_chars() -> Seq<char> {
    seq!['N', '/', 'A']
}

/// One entry of the fetched transaction's detail list: the counterparty
/// address, if the node reported one, and the signed amount in satoshis.
pub struct TxDetail {
    /// The counterparty address, if the node reported one.
    pub address: Option<String>,
    /// The signed amount of the detail entry, in satoshis.
    pub amount_sats: i64,
}

/// The fields of the final report.
pub struct TxReport {
    /// The id of the confirmed transaction.
    pub txid: String,
    /// The address mined to.
    pub miner_address: String,
    /// The miner wallet's balance after mining, in satoshis.
    pub miner_balance_sats: u64,
    /// The address the payment went to.
    pub trader_address: String,
    /// The amount sent, in whole bitcoin.
    pub sent_btc: u64,
    /// The first entry of the transaction's detail list, if any.
    pub first_detail: Option<TxDetail>,
    /// The transaction fee in satoshis, if the node reported one.
    pub fee_sats: Option<i64>,
    /// The height of the confirming block, if the node reported one.
    pub block_height: Option<u32>,
    /// The hash of the confirming block, if the node reported one.
    pub block_hash: Option<String>,
}

impl TxReport {
    /// Renders the ten lines of the report, in order: transaction id,
    /// miner address, miner balance, trader address, amount sent,
    /// counterparty address (or "N/A"), detail amount magnitude (or
    /// "0"), fee magnitude, block height (or the largest 32-bit value),
    /// block hash (or "N/A").
    pub fn render(&self) -> (lines: Vec<String>)
        ensures
            lines@.len() == 10,
            lines@[0]@ == self.txid@,
            lines@[1]@ == self.miner_address@,
            lines@[2]@ == btc_amount_chars(self.miner_balance_sats as nat),
            lines@[3]@ == self.trader_address@,
            lines@[4]@ == dec_digits(self.sent_btc as nat),
            lines@[5]@ == match self.first_detail {
                Some(d) => match d.address {
                    Some(a) => a@,
                    None => na_chars(),
                },
                None => na_chars(),
            },
            lines@[6]@ == match self.first_detail {
                Some(d) => btc_amount_chars(abs_of(d.amount_sats as int)),
                None => seq!['0'],
            },
            lines@[7]@ == btc_value_chars(
                abs_of(
                    match self.fee_sats {
                        Some(f) => f as int,
                        None => 0,
                    },
                ),
            ),
            lines@[8]@ == dec_digits(
                match self.block_height {
                    Some(h) => h as nat,
                    None => u32::MAX as nat,
                },
            ),
            lines@[9]@ == match self.block_hash {
                Some(h) => h@,
                None => na_chars(),
            },
    {
        let mut lines: Vec<String> = Vec::new();
        lines.push(self.txid.clone());
        lines.push(self.miner_address.clone());
        lines.push(btc_amount_string(self.miner_balance_sats));
        lines.push(self.trader_address.clone());
        lines.push(u64_to_dec(self.sent_btc));
        let counterparty = match &self.first_detail {
            Some(d) => match &d.address {
                Some(a) => a.clone(),
                None => na_string(),
            },
            None => na_string(),
        };
        lines.push(counterparty);
        let detail_amount = match &self.first_detail {
            Some(d) => btc_amount_string(sats_abs(d.amount_sats)),
            None => zero_string(),
        };
        lines.push(detail_amount);
        let fee = match self.fee_sats {
            Some(f) => f,
            None => 0,
        };
        lines.push(btc_value_string(sats_abs(fee)));
        let height = match self.block_height {
            Some(h) => h,
            None => u32::MAX,
        };
        lines.push(u64_to_dec(height as u64));
        let hash = match &self.block_hash {
            Some(h) => h.clone(),
            None => na_string(),
        };
        lines.push(hash);
        lines
    }
}

/// The "N/A" placeholder as an owned string.
fn na_string() -> (s: String)
    ensures
        s@ == na_chars(),
{
    proof {
        reveal_strlit("N/A");
    }
    let s = String::from_str("N/A");
    proof {
        assert(s@ =~= na_chars());
    }
    s
}

/// The single digit zero as an owned string.
fn zero_string() -> (s: String)
    ensures
        s@ == seq!['0'],
{
    proof {
        reveal_strlit("0");
    }
    let s = String::from_str("0");
    proof {
        assert(s@ =~= seq!['0']);
    }
    s
}

} // verus!
