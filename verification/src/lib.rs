//! Verified core of a Bitcoin regtest funding walkthrough.
//!
//! The library computes everything that can be computed locally: decimal
//! rendering of satoshi amounts, validation of transaction ids, the JSON
//! parameters of the `sendtoaddress` RPC call, the lines of the final
//! report file, and the order of the RPC conversation itself. A thin
//! unverified shell performs the actual RPC calls and file writes and
//! feeds the results back in as plain values.

pub mod amount;
pub mod flow;
pub mod params;
pub mod report;
pub mod txid;
