//! The account- and transaction-level JSON-RPC methods, over what the ledger holds.

use vstd::prelude::*;
use crate::rpc_types::{is_zero_address, is_zero_hash, Address, Bytes, Error, H256, RPCLog, RPCReceipt, RPCTransaction, U256};

verus! {

/// What the ledger holds of an executed transaction, as plain values.
#[derive(Clone, Debug)]
pub struct ReceiptRecord {
    /// The sender recovered from the signature; `None` where it cannot be recovered.
    pub caller: Option<Address>,
    /// The address the transaction concerns (its target, or the contract it creates);
    /// `None` where it cannot be worked out.
    pub address: Option<Address>,
    pub gas_limit: U256,
    pub gas_price: U256,
    pub value: U256,
    pub nonce: U256,
    pub input: Vec<u8>,
    /// The gas the execution used.
    pub used_gas: u64,
    /// Whether the execution ended in success.
    pub succeeded: bool,
}

/// What an EVM call is run with.
#[derive(Clone, Debug)]
pub struct CallParameters {
    pub caller: Address,
    pub address: Address,
    pub value: U256,
    pub input: Vec<u8>,
    pub gas_limit: u64,
}

/// The gas limit of a call that names none.
pub const DEFAULT_CALL_GAS: u64 = 300000;

/// Whether `t` reports the transaction of receipt `r` under hash `tx_hash`: its fields,
/// with index zero, block hash zero and block number zero.
pub open spec fn reports_transaction(t: RPCTransaction, r: ReceiptRecord, tx_hash: H256) -> bool {
    &&& t.transaction_index == Some(0usize)
    &&& (t.block_hash matches Some(h) && is_zero_hash(h))
    &&& (t.block_number matches Some(n) && n@ == 0)
    &&& (t.from matches Some(a) && r.caller matches Some(c) && a == c)
    &&& (t.to matches Some(a) && r.address matches Some(c) && a == c)
    &&& t.gas == Some(r.gas_limit)
    &&& t.gas_price == Some(r.gas_price)
    &&& t.value == Some(r.value)
    &&& (t.data matches Some(d) && d@ == r.input@)
    &&& t.nonce == Some(r.nonce)
    &&& t.hash == Some(tx_hash)
}

/// Whether `rc` is the receipt reported for receipt record `r` under hash `tx_hash`:
/// index, block hash, block number and root zero, no logs, both gas amounts the gas
/// used, the record's address as the contract address, and status 1 for success, else 0.
pub open spec fn reports_receipt(rc: RPCReceipt, r: ReceiptRecord, tx_hash: H256) -> bool {
    &&& rc.transaction_index == 0
    &&& is_zero_hash(rc.block_hash)
    &&& rc.block_number@ == 0
    &&& rc.cumulative_gas_used@ == r.used_gas
    &&& rc.gas_used@ == r.used_gas
    &&& rc.transaction_hash == tx_hash
    &&& rc.logs@.len() == 0
    &&& (rc.contract_address matches Some(a) && r.address matches Some(c) && a == c)
    &&& is_zero_hash(rc.root)
    &&& rc.status == (if r.succeeded {
        1usize
    } else {
        0usize
    })
}

/// The methods that read accounts and transactions from the ledger.
pub struct BasicERPCImpl;

impl BasicERPCImpl {
    /// The current block number: the slot of the most recent bank.
    pub fn block_number(&self, slot: u64) -> (res: Result<usize, Error>)
        ensures
            res == Ok::<usize, Error>(slot as usize),
    {
        Ok(slot as usize)
    }

    /// The value of a storage slot: what the account stores there, zero where it stores nothing.
    pub fn storage_at(&self, stored: Option<H256>) -> (res: Result<H256, Error>)
        ensures
            stored matches Some(h) ==> res == Ok::<H256, Error>(h),
            stored is None ==> (res matches Ok(h) && is_zero_hash(h)),
    {
        match stored {
            Some(h) => Ok(h),
            None => Ok(H256::zero()),
        }
    }

    /// A transaction looked up by hash: none where the ledger holds no receipt for it;
    /// an invalid-parameters error where its sender or its address cannot be worked out;
    /// otherwise the transaction as `reports_transaction` describes it.
    pub fn transaction_by_hash(&self, receipt: Option<ReceiptRecord>, tx_hash: H256) -> (res: Result<
        Option<RPCTransaction>,
        Error,
    >)
        ensures
            res matches Ok(None) <==> receipt is None,
            receipt matches Some(r) ==> (res matches Err(e) <==> (r.caller is None
                || r.address is None)),
            receipt matches Some(r) ==> (res matches Ok(Some(_)) <==> (r.caller is Some
                && r.address is Some)),
            res matches Err(e) ==> e == Error::InvalidParams,
            res matches Ok(Some(t)) ==> receipt matches Some(r) && reports_transaction(
                t,
                r,
                tx_hash,
            ),
    {
        match receipt {
            None => Ok(None),
            Some(r) => {
                let from = match r.caller {
                    Some(a) => a,
                    None => {
                        return Err(Error::InvalidParams);
                    },
                };
                let to = match r.address {
                    Some(a) => a,
                    None => {
                        return Err(Error::InvalidParams);
                    },
                };
                Ok(
                    Some(
                        RPCTransaction {
                            transaction_index: Some(0),
                            block_hash: Some(H256::zero()),
                            block_number: Some(U256::zero()),
                            from: Some(from),
                            to: Some(to),
                            gas: Some(r.gas_limit),
                            gas_price: Some(r.gas_price),
                            value: Some(r.value),
                            data: Some(Bytes { data: r.input }),
                            nonce: Some(r.nonce),
                            hash: Some(tx_hash),
                        },
                    ),
                )
            },
        }
    }

    /// The receipt of a transaction looked up by hash: none where the ledger holds no
    /// receipt; an invalid-parameters error where the transaction's address cannot be
    /// worked out; otherwise the receipt as `reports_receipt` describes it.
    pub fn transaction_receipt(&self, receipt: Option<ReceiptRecord>, tx_hash: H256) -> (res: Result<
        Option<RPCReceipt>,
        Error,
    >)
        ensures
            res matches Ok(None) <==> receipt is None,
            receipt matches Some(r) ==> (res matches Err(e) <==> r.address is None),
            receipt matches Some(r) ==> (res matches Ok(Some(_)) <==> r.address is Some),
            res matches Err(e) ==> e == Error::InvalidParams,
            res matches Ok(Some(rc)) ==> receipt matches Some(r) && reports_receipt(
                rc,
                r,
                tx_hash,
            ),
    {
        match receipt {
            None => Ok(None),
            Some(r) => {
                let contract = match r.address {
                    Some(a) => a,
                    None => {
                        return Err(Error::InvalidParams);
                    },
                };
                let logs: Vec<RPCLog> = Vec::new();
                Ok(
                    Some(
                        RPCReceipt {
                            transaction_index: 0,
                            block_hash: H256::zero(),
                            block_number: U256::zero(),
                            cumulative_gas_used: U256::from_u64(r.used_gas),
                            gas_used: U256::from_u64(r.used_gas),
                            transaction_hash: tx_hash,
                            logs,
                            contract_address: Some(contract),
                            root: H256::zero(),
                            status: if r.succeeded {
                                1
                            } else {
                                0
                            },
                        },
                    ),
                )
            },
        }
    }
}

/// Whether `p` is what a call request `tx` runs with, given a gas limit that fits in
/// 64 bits: the sender, target and value it names, zero where it names none; its data,
/// empty where it has none; its gas limit, 300000 where it names none.
pub open spec fn call_parameters_of(p: CallParameters, tx: RPCTransaction) -> bool {
    &&& (match tx.from {
        Some(a) => p.caller == a,
        None => is_zero_address(p.caller),
    })
    &&& (match tx.to {
        Some(a) => p.address == a,
        None => is_zero_address(p.address),
    })
    &&& (match tx.value {
        Some(v) => p.value@ == v@,
        None => p.value@ == 0,
    })
    &&& (match tx.data {
        Some(d) => p.input@ == d@,
        None => p.input@.len() == 0,
    })
    &&& (match tx.gas {
        Some(g) => p.gas_limit == g@,
        None => p.gas_limit == DEFAULT_CALL_GAS,
    })
}

/// What an EVM call request runs with; an invalid-parameters error exactly where the
/// gas limit it names does not fit in 64 bits.
pub fn call_parameters(tx: RPCTransaction) -> (res: Result<CallParameters, Error>)
    ensures
        res is Err <==> (tx.gas matches Some(g) && g@ > u64::MAX),
        res matches Err(e) ==> e == Error::InvalidParams,
        res matches Ok(p) ==> call_parameters_of(p, tx),
{
    let caller = match tx.from {
        Some(a) => a,
        None => Address::zero(),
    };
    let value = match tx.value {
        Some(v) => v,
        None => U256::zero(),
    };
    let input = match tx.data {
        Some(d) => d.data,
        None => Vec::new(),
    };
    let gas = match tx.gas {
        Some(g) => g,
        None => U256::from_u64(DEFAULT_CALL_GAS),
    };
    let gas_limit = match gas.to_u64() {
        Some(g) => g,
        None => {
            return Err(Error::InvalidParams);
        },
    };
    let address = match tx.to {
        Some(a) => a,
        None => Address::zero(),
    };
    Ok(CallParameters { caller, address, value, input, gas_limit })
}

/// Law: for one receipt record, the transaction and the receipt the interface reports
/// agree: the receipt's contract address is the transaction's target, and both carry
/// the hash they were looked up by.
pub proof fn law_receipt_agrees_with_transaction(
    t: RPCTransaction,
    rc: RPCReceipt,
    r: ReceiptRecord,
    tx_hash: H256,
)
    requires
        reports_transaction(t, r, tx_hash),
        reports_receipt(rc, r, tx_hash),
    ensures
        rc.contract_address == t.to,
        t.hash == Some(rc.transaction_hash),
{
}

} // verus!
