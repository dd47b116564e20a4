//! The order of the RPC conversation with the node.
//!
//! The walkthrough is a fixed sequence: create the two wallets, get a
//! mining address, mine one block to it, read the miner's balance, get
//! a receiving address, pay twenty bitcoin to it, look the payment up
//! in the mempool, mine one block to confirm it, and fetch the
//! confirmed transaction. `Flow` keeps the position in that sequence
//! and the values collected so far; `request` says which call to make
//! next, and `handle` takes the call's outcome and advances. The shell
//! around the library only performs the calls it is told to make.

use vstd::prelude::*;

use crate::params::json_safe;
use crate::params::json_safe_str;
use crate::params::send_params;
use crate::params::send_params_chars;
use crate::report::TxDetail;
use crate::report::TxReport;
use crate::txid::is_valid_txid;
use crate::txid::valid_txid;

verus! {

/// The amount paid to the trader, in whole bitcoin.
pub const SEND_BTC: u64 = 20;

/// The number of blocks mined at each mining step.
pub const BLOCKS_PER_MINE: u64 = 1;

/// The position in the walkthrough: each variant names the call to be
/// made next.
#[derive(PartialEq, Eq, Structural, Clone, Copy, Debug)]
pub enum Step {
    /// Create the miner's wallet.
    CreateMinerWallet,
    /// Create the trader's wallet.
    CreateTraderWallet,
    /// Get an address to mine to.
    GetMinerAddress,
    /// Mine one block to the miner's address.
    MineInitialBlock,
    /// Read the miner wallet's balance.
    ReadMinerBalance,
    /// Get an address for the trader to receive at.
    GetTraderAddress,
    /// Pay the trader.
    SendToTrader,
    /// Look the payment up in the mempool.
    CheckMempool,
    /// Mine one block to confirm the payment.
    MineConfirmBlock,
    /// Fetch the confirmed transaction.
    FetchTransaction,
    /// Nothing is left to do.
    Complete,
}

/// One RPC call for the shell to make, with its arguments as plain
/// values.
pub enum RpcAction {
    /// Create a wallet of the given name; `avoid_reuse` is the one
    /// option that is set.
    CreateWallet { name: String, avoid_reuse: bool },
    /// Ask the current wallet for a new address under the given label.
    GetNewAddress { label: String },
    /// Mine `nblocks` blocks paying out to `address`.
    GenerateToAddress { nblocks: u64, address: String },
    /// Read the current wallet's balance.
    GetBalance,
    /// Call `sendtoaddress` with the given JSON parameter text.
    SendToAddress { params_json: String },
    /// Look a transaction up in the mempool.
    GetMempoolEntry { txid: String },
    /// Fetch a wallet transaction with its details.
    GetTransaction { txid: String },
}

/// The outcome of one RPC call, as plain values.
pub enum RpcEvent {
    /// A wallet was created.
    WalletCreated,
    /// A new address was handed out.
    NewAddress { address: String },
    /// Blocks were mined; `count` is how many block hashes came back.
    BlocksMined { count: u64 },
    /// The wallet's balance, in satoshis.
    Balance { sats: u64 },
    /// The outcome of `sendtoaddress`.
    SendResult { complete: bool, txid: String },
    /// The transaction was found in the mempool.
    MempoolEntryFound,
    /// The confirmed transaction, reduced to the fields the report
    /// needs.
    TransactionFetched {
        txid: String,
        first_detail: Option<TxDetail>,
        fee_sats: Option<i64>,
        block_height: Option<u32>,
        block_hash: Option<String>,
    },
}

/// Why the walkthrough refused an outcome.
#[derive(PartialEq, Eq, Structural, Clone, Copy, Debug)]
pub enum FlowError {
    /// The outcome does not belong to the call that was requested.
    UnexpectedEvent,
    /// The trader's address cannot stand in a JSON string unescaped.
    UnsafeAddress,
    /// The node did not complete the payment.
    SendIncomplete,
    /// The returned transaction id is not 64 hexadecimal digits.
    InvalidTxid,
}

/// The position in the walkthrough together with the values collected
/// so far.
pub struct Flow {
    /// The call to make next.
    pub step: Step,
    /// The miner's address, once handed out.
    pub miner_address: Option<String>,
    /// The trader's address, once handed out.
    pub trader_address: Option<String>,
    /// The miner wallet's balance in satoshis, once read.
    pub miner_balance_sats: Option<u64>,
    /// The payment's transaction id, once accepted.
    pub txid: Option<String>,
    /// The finished report, once the transaction is fetched.
    pub report: Option<TxReport>,
}

impl Flow {
    /// Each step has on hand what its request needs.
    pub open spec fn wf(self) -> bool {
        match self.step {
            Step::CreateMinerWallet => true,
            Step::CreateTraderWallet => true,
            Step::GetMinerAddress => true,
            Step::MineInitialBlock => self.miner_address is Some,
            Step::ReadMinerBalance => self.miner_address is Some,
            Step::GetTraderAddress => self.miner_address is Some && self.miner_balance_sats
                is Some,
            Step::SendToTrader => self.miner_address is Some && self.miner_balance_sats is Some
                && (self.trader_address matches Some(t) && json_safe(t@)),
            Step::CheckMempool => self.miner_address is Some && self.miner_balance_sats is Some
                && self.trader_address is Some && self.txid is Some,
            Step::MineConfirmBlock => self.miner_address is Some && self.miner_balance_sats
                is Some && self.trader_address is Some && self.txid is Some,
            Step::FetchTransaction => self.miner_address is Some && self.miner_balance_sats
                is Some && self.trader_address is Some && self.txid is Some,
            Step::Complete => self.report is Some,
        }
    }

    /// A fresh walkthrough, about to create the miner's wallet.
    pub fn new() -> (f: Flow)
        ensures
            f.wf(),
            f.step == Step::CreateMinerWallet,
            f.miner_address is None,
            f.trader_address is None,
            f.miner_balance_sats is None,
            f.txid is None,
            f.report is None,
    {
        Flow {
            step: Step::CreateMinerWallet,
            miner_address: None,
            trader_address: None,
            miner_balance_sats: None,
            txid: None,
            report: None,
        }
    }

    /// The call the shell is to make next, or nothing once the
    /// walkthrough is complete.
    pub fn request(&self) -> (a: Option<RpcAction>)
        requires
            self.wf(),
        ensures
            match self.step {
                Step::CreateMinerWallet => a matches Some(
                    RpcAction::CreateWallet { name, avoid_reuse },
                ) && name@ == "Miner"@ && !avoid_reuse,
                Step::CreateTraderWallet => a matches Some(
                    RpcAction::CreateWallet { name, avoid_reuse },
                ) && name@ == "Trader"@ && !avoid_reuse,
                Step::GetMinerAddress => a matches Some(RpcAction::GetNewAddress { label })
                    && label@ == "Mining Reward"@,
                Step::MineInitialBlock => a matches Some(
                    RpcAction::GenerateToAddress { nblocks, address },
                ) && nblocks == BLOCKS_PER_MINE && (self.miner_address matches Some(m) && address
                    == m),
                Step::ReadMinerBalance => a matches Some(RpcAction::GetBalance),
                Step::GetTraderAddress => a matches Some(RpcAction::GetNewAddress { label })
                    && label@ == "Received"@,
                Step::SendToTrader => a matches Some(RpcAction::SendToAddress { params_json })
                    && self.trader_address matches Some(t) && params_json@ == send_params_chars(
                    t@,
                    SEND_BTC as nat,
                ),
                Step::CheckMempool => a matches Some(RpcAction::GetMempoolEntry { txid })
                    && self.txid matches Some(t) && txid == t,
                Step::MineConfirmBlock => a matches Some(
                    RpcAction::GenerateToAddress { nblocks, address },
                ) && nblocks == BLOCKS_PER_MINE && (self.miner_address matches Some(m) && address
                    == m),
                Step::FetchTransaction => a matches Some(RpcAction::GetTransaction { txid })
                    && self.txid matches Some(t) && txid == t,
                Step::Complete => a is None,
            },
    {
        match self.step {
            Step::CreateMinerWallet => Some(
                RpcAction::CreateWallet { name: String::from_str("Miner"), avoid_reuse: false },
            ),
            Step::CreateTraderWallet => Some(
                RpcAction::CreateWallet { name: String::from_str("Trader"), avoid_reuse: false },
            ),
            Step::GetMinerAddress => Some(
                RpcAction::GetNewAddress { label: String::from_str("Mining Reward") },
            ),
            Step::MineInitialBlock => {
                let address = match &self.miner_address {
                    Some(m) => m.clone(),
                    None => String::new(),
                };
                Some(RpcAction::GenerateToAddress { nblocks: BLOCKS_PER_MINE, address })
            },
            Step::ReadMinerBalance => Some(RpcAction::GetBalance),
            Step::GetTraderAddress => Some(
                RpcAction::GetNewAddress { label: String::from_str("Received") },
            ),
            Step::SendToTrader => {
                let params_json = match &self.trader_address {
                    Some(t) => send_params(t.as_str(), SEND_BTC),
                    None => String::new(),
                };
                Some(RpcAction::SendToAddress { params_json })
            },
            Step::CheckMempool => {
                let txid = match &self.txid {
                    Some(t) => t.clone(),
                    None => String::new(),
                };
                Some(RpcAction::GetMempoolEntry { txid })
            },
            Step::MineConfirmBlock => {
                let address = match &self.miner_address {
                    Some(m) => m.clone(),
                    None => String::new(),
                };
                Some(RpcAction::GenerateToAddress { nblocks: BLOCKS_PER_MINE, address })
            },
            Step::FetchTransaction => {
                let txid = match &self.txid {
                    Some(t) => t.clone(),
                    None => String::new(),
                };
                Some(RpcAction::GetTransaction { txid })
            },
            Step::Complete => None,
        }
    }

    /// What `handle` does: on the outcome that belongs to the current
    /// step it advances and stores what the outcome carried, and on any
    /// other it changes nothing and says why.
    pub open spec fn transition(pre: Flow, event: RpcEvent, post: Flow, r: Result<
        (),
        FlowError,
    >) -> bool {
        match (pre.step, event) {
            (Step::CreateMinerWallet, RpcEvent::WalletCreated) => r is Ok && post == (Flow {
                step: Step::CreateTraderWallet,
                ..pre
            }),
            (Step::CreateTraderWallet, RpcEvent::WalletCreated) => r is Ok && post == (Flow {
                step: Step::GetMinerAddress,
                ..pre
            }),
            (Step::GetMinerAddress, RpcEvent::NewAddress { address }) => r is Ok && post == (Flow {
                step: Step::MineInitialBlock,
                miner_address: Some(address),
                ..pre
            }),
            (Step::MineInitialBlock, RpcEvent::BlocksMined { count }) => r is Ok && post == (Flow {
                step: Step::ReadMinerBalance,
                ..pre
            }),
            (Step::ReadMinerBalance, RpcEvent::Balance { sats }) => r is Ok && post == (Flow {
                step: Step::GetTraderAddress,
                miner_balance_sats: Some(sats),
                ..pre
            }),
            (Step::GetTraderAddress, RpcEvent::NewAddress { address }) => if json_safe(address@) {
                r is Ok && post == (Flow {
                    step: Step::SendToTrader,
                    trader_address: Some(address),
                    ..pre
                })
            } else {
                r == Result::<(), FlowError>::Err(FlowError::UnsafeAddress) && post == pre
            },
            (Step::SendToTrader, RpcEvent::SendResult { complete, txid }) => if !complete {
                r == Result::<(), FlowError>::Err(FlowError::SendIncomplete) && post == pre
            } else if !is_valid_txid(txid@) {
                r == Result::<(), FlowError>::Err(FlowError::InvalidTxid) && post == pre
            } else {
                r is Ok && post == (Flow { step: Step::CheckMempool, txid: Some(txid), ..pre })
            },
            (Step::CheckMempool, RpcEvent::MempoolEntryFound) => r is Ok && post == (Flow {
                step: Step::MineConfirmBlock,
                ..pre
            }),
            (Step::MineConfirmBlock, RpcEvent::BlocksMined { count }) => r is Ok && post == (Flow {
                step: Step::FetchTransaction,
                ..pre
            }),
            (
                Step::FetchTransaction,
                RpcEvent::TransactionFetched { txid, first_detail, fee_sats, block_height, block_hash },
            ) => r is Ok && (pre.miner_address matches Some(m) && (pre.trader_address matches Some(
                t,
            ) && (pre.miner_balance_sats matches Some(b) && post == (Flow {
                step: Step::Complete,
                report: Some(
                    TxReport {
                        txid,
                        miner_address: m,
                        miner_balance_sats: b,
                        trader_address: t,
                        sent_btc: SEND_BTC,
                        first_detail,
                        fee_sats,
                        block_height,
                        block_hash,
                    },
                ),
                ..pre
            })))),
            _ => r == Result::<(), FlowError>::Err(FlowError::UnexpectedEvent) && post == pre,
        }
    }

    /// Takes the outcome of the call made for the current step and
    /// advances the walkthrough as `transition` says.
    pub fn handle(&mut self, event: RpcEvent) -> (r: Result<(), FlowError>)
        requires
            old(self).wf(),
        ensures
            final(self).wf(),
            Flow::transition(*old(self), event, *final(self), r),
    {
        match (self.step, event) {
            (Step::CreateMinerWallet, RpcEvent::WalletCreated) => {
                self.step = Step::CreateTraderWallet;
                Ok(())
            },
            (Step::CreateTraderWallet, RpcEvent::WalletCreated) => {
                self.step = Step::GetMinerAddress;
                Ok(())
            },
            (Step::GetMinerAddress, RpcEvent::NewAddress { address }) => {
                self.miner_address = Some(address);
                self.step = Step::MineInitialBlock;
                Ok(())
            },
            (Step::MineInitialBlock, RpcEvent::BlocksMined { count: _ }) => {
                self.step = Step::ReadMinerBalance;
                Ok(())
            },
            (Step::ReadMinerBalance, RpcEvent::Balance { sats }) => {
                self.miner_balance_sats = Some(sats);
                self.step = Step::GetTraderAddress;
                Ok(())
            },
            (Step::GetTraderAddress, RpcEvent::NewAddress { address }) => {
                if json_safe_str(address.as_str()) {
                    self.trader_address = Some(address);
                    self.step = Step::SendToTrader;
                    Ok(())
                } else {
                    Err(FlowError::UnsafeAddress)
                }
            },
            (Step::SendToTrader, RpcEvent::SendResult { complete, txid }) => {
                if !complete {
                    Err(FlowError::SendIncomplete)
                } else if !valid_txid(txid.as_str()) {
                    Err(FlowError::InvalidTxid)
                } else {
                    self.txid = Some(txid);
                    self.step = Step::CheckMempool;
                    Ok(())
                }
            },
            (Step::CheckMempool, RpcEvent::MempoolEntryFound) => {
                self.step = Step::MineConfirmBlock;
                Ok(())
            },
            (Step::MineConfirmBlock, RpcEvent::BlocksMined { count: _ }) => {
                self.step = Step::FetchTransaction;
                Ok(())
            },
            (
                Step::FetchTransaction,
                RpcEvent::TransactionFetched { txid, first_detail, fee_sats, block_height, block_hash },
            ) => {
                let miner_address = match &self.miner_address {
                    Some(m) => m.clone(),
                    None => String::new(),
                };
                let trader_address = match &self.trader_address {
                    Some(t) => t.clone(),
                    None => String::new(),
                };
                let miner_balance_sats = match self.miner_balance_sats {
                    Some(b) => b,
                    None => 0,
                };
                self.report = Some(
                    TxReport {
                        txid,
                        miner_address,
                        miner_balance_sats,
                        trader_address,
                        sent_btc: SEND_BTC,
                        first_detail,
                        fee_sats,
                        block_height,
                        block_hash,
                    },
                );
                self.step = Step::Complete;
                Ok(())
            },
            (_, _) => Err(FlowError::UnexpectedEvent),
        }
    }

    /// The finished report, once the walkthrough is complete.
    pub fn report(&self) -> (rep: &Option<TxReport>)
        ensures
            rep == self.report,
            self.step == Step::Complete && self.wf() ==> rep is Some,
    {
        &self.report
    }
}

} // verus!
