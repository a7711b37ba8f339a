//! The values that the EVM JSON-RPC methods answer with.

use vstd::prelude::*;

verus! {

/// A 256-bit hash.
#[derive(Clone, Copy, Debug)]
pub struct H256 {
    pub bytes: [u8; 32],
}

impl View for H256 {
    type V = Seq<u8>;

    open spec fn view(&self) -> Seq<u8> {
        self.bytes@
    }
}

impl H256 {
    /// The hash made of 32 zero bytes.
    pub fn zero() -> (res: H256)
        ensures
            res@ == Seq::new(32, |i: int| 0u8),
    {
        let res = H256 { bytes: [0u8; 32] };
        assert(res@ =~= Seq::new(32, |i: int| 0u8));
        res
    }
}

/// A 160-bit account address.
#[derive(Clone, Copy, Debug)]
pub struct Address {
    pub bytes: [u8; 20],
}

impl View for Address {
    type V = Seq<u8>;

    open spec fn view(&self) -> Seq<u8> {
        self.bytes@
    }
}

impl Address {
    /// The address made of 20 zero bytes.
    pub fn zero() -> (res: Address)
        ensures
            res@ == Seq::new(20, |i: int| 0u8),
    {
        let res = Address { bytes: [0u8; 20] };
        assert(res@ =~= Seq::new(20, |i: int| 0u8));
        res
    }
}

/// 2 to the 128th power.
pub open spec fn two_pow_128() -> nat {
    0x1_0000_0000_0000_0000_0000_0000_0000_0000nat
}

/// An unsigned 256-bit integer, as a high and a low 128-bit half.
#[derive(Clone, Copy, Debug)]
pub struct U256 {
    pub high: u128,
    pub low: u128,
}

impl View for U256 {
    type V = nat;

    open spec fn view(&self) -> nat {
        self.high as nat * two_pow_128() + self.low as nat
    }
}

/// The largest value a `U256` holds.
pub open spec fn u256_max() -> nat {
    (two_pow_128() * two_pow_128() - 1) as nat
}

impl U256 {
    /// Zero.
    pub fn zero() -> (res: U256)
        ensures
            res@ == 0,
    {
        U256 { high: 0, low: 0 }
    }

    /// The value of a 64-bit number.
    pub fn from_u64(n: u64) -> (res: U256)
        ensures
            res@ == n,
    {
        U256 { high: 0, low: n as u128 }
    }

    /// The largest 256-bit value.
    pub fn max_value() -> (res: U256)
        ensures
            res@ == u256_max(),
    {
        let res = U256 { high: u128::MAX, low: u128::MAX };
        assert(res@ == u256_max()) by (nonlinear_arith)
            requires
                res.high == 0xffff_ffff_ffff_ffff_ffff_ffff_ffff_ffffu128,
                res.low == 0xffff_ffff_ffff_ffff_ffff_ffff_ffff_ffffu128,
                res@ == res.high as nat * two_pow_128() + res.low as nat,
                two_pow_128() == 0x1_0000_0000_0000_0000_0000_0000_0000_0000nat,
        ;
        res
    }

    /// The value as a 64-bit number, or `None` where it does not fit.
    pub fn to_u64(&self) -> (res: Option<u64>)
        ensures
            res matches Some(n) ==> n == self@,
            res is None <==> self@ > u64::MAX,
    {
        if self.high == 0 && self.low <= u64::MAX as u128 {
            Some(self.low as u64)
        } else {
            proof {
                if self.high > 0 {
                    assert(self.high as nat * two_pow_128() >= two_pow_128()) by (nonlinear_arith)
                        requires
                            self.high > 0,
                    ;
                }
            }
            None
        }
    }
}

/// Raw bytes, such as a call's input or a contract's code.
#[derive(Clone, Debug)]
pub struct Bytes {
    pub data: Vec<u8>,
}

impl View for Bytes {
    type V = Seq<u8>;

    open spec fn view(&self) -> Seq<u8> {
        self.data@
    }
}

/// Why a JSON-RPC method gives no answer.
#[derive(Clone, Copy, Debug, PartialEq, Eq, Structural)]
pub enum Error {
    /// The requested item is not available.
    NotFound,
    /// The request's parameters cannot be used.
    InvalidParams,
}

/// A transaction as the JSON-RPC interface reports or receives it.
#[derive(Clone, Debug)]
pub struct RPCTransaction {
    pub from: Option<Address>,
    pub to: Option<Address>,
    pub gas: Option<U256>,
    pub gas_price: Option<U256>,
    pub value: Option<U256>,
    pub data: Option<Bytes>,
    pub nonce: Option<U256>,
    pub hash: Option<H256>,
    pub transaction_index: Option<usize>,
    pub block_hash: Option<H256>,
    pub block_number: Option<U256>,
}

/// The transactions of a block: by hash, or in full.
#[derive(Clone, Debug)]
pub enum BlockTransactions {
    Hashes(Vec<H256>),
    Full(Vec<RPCTransaction>),
}

/// A block as the JSON-RPC interface reports it.
#[derive(Clone, Debug)]
pub struct RPCBlock {
    pub number: U256,
    pub hash: H256,
    pub parent_hash: H256,
    pub nonce: u64,
    pub sha3_uncles: H256,
    pub logs_bloom: H256,
    pub transactions_root: H256,
    pub state_root: H256,
    pub receipts_root: H256,
    pub miner: Address,
    pub difficulty: U256,
    pub total_difficulty: U256,
    pub extra_data: Bytes,
    pub size: usize,
    pub gas_limit: U256,
    pub gas_used: U256,
    pub timestamp: u64,
    pub transactions: BlockTransactions,
    pub uncles: Vec<H256>,
}

/// A log entry of a receipt.
#[derive(Clone, Debug)]
pub struct RPCLog {
    pub address: Address,
    pub topics: Vec<H256>,
    pub data: Bytes,
}

/// A transaction receipt as the JSON-RPC interface reports it.
#[derive(Clone, Debug)]
pub struct RPCReceipt {
    pub transaction_hash: H256,
    pub transaction_index: usize,
    pub block_hash: H256,
    pub block_number: U256,
    pub cumulative_gas_used: U256,
    pub gas_used: U256,
    pub contract_address: Option<Address>,
    pub logs: Vec<RPCLog>,
    pub root: H256,
    pub status: usize,
}

/// Whether a hash is all zero bytes.
pub open spec fn is_zero_hash(h: H256) -> bool {
    h@ == Seq::new(32, |i: int| 0u8)
}

/// Whether an address is all zero bytes.
pub open spec fn is_zero_address(a: Address) -> bool {
    a@ == Seq::new(20, |i: int| 0u8)
}

/// The shape shared by every block this interface reports: the number, the two
/// hashes, the nonce and the gas limit vary; every other field is zero or empty.
pub open spec fn block_has_shape(
    b: RPCBlock,
    number: nat,
    hash: Seq<u8>,
    parent_hash: Seq<u8>,
    nonce: u64,
    gas_limit: nat,
) -> bool {
    &&& b.number@ == number
    &&& b.hash@ == hash
    &&& b.parent_hash@ == parent_hash
    &&& b.nonce == nonce
    &&& b.gas_limit@ == gas_limit
    &&& is_zero_hash(b.sha3_uncles)
    &&& is_zero_hash(b.logs_bloom)
    &&& is_zero_hash(b.transactions_root)
    &&& is_zero_hash(b.state_root)
    &&& is_zero_hash(b.receipts_root)
    &&& is_zero_address(b.miner)
    &&& b.difficulty@ == 0
    &&& b.total_difficulty@ == 0
    &&& b.extra_data@.len() == 0
    &&& b.size == 0
    &&& b.gas_used@ == 0
    &&& b.timestamp == 0
    &&& (b.transactions matches BlockTransactions::Hashes(hashes) && hashes@.len() == 0)
    &&& b.uncles@.len() == 0
}

/// The block with the given number, hashes, nonce and gas limit, all other fields zero or empty.
pub fn shaped_block(number: U256, hash: H256, parent_hash: H256, nonce: u64, gas_limit: U256) -> (res:
    RPCBlock)
    ensures
        block_has_shape(res, number@, hash@, parent_hash@, nonce, gas_limit@),
{
    RPCBlock {
        number,
        hash,
        parent_hash,
        nonce,
        sha3_uncles: H256::zero(),
        logs_bloom: H256::zero(),
        transactions_root: H256::zero(),
        state_root: H256::zero(),
        receipts_root: H256::zero(),
        miner: Address::zero(),
        difficulty: U256::zero(),
        total_difficulty: U256::zero(),
        extra_data: Bytes { data: Vec::new() },
        size: 0,
        gas_limit,
        gas_used: U256::zero(),
        timestamp: 0,
        transactions: BlockTransactions::Hashes(Vec::new()),
        uncles: Vec::new(),
    }
}

} // verus!
