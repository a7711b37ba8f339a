//! The chain-level JSON-RPC methods: network identity, hashing and blocks.

use vstd::prelude::*;
use sha3::Digest;
use crate::numeric_text::{decimal_text, hex_text, parsed_u64, parse_u64, push_hex, text_eq};
use crate::rpc_types::{block_has_shape, shaped_block, u256_max, Address, Bytes, Error, H256, RPCBlock, RPCTransaction, U256};

verus! {

/// The EVM chain id of this network.
pub const CHAIN_ID: u64 = 0x77;

/// The nonce reported for every block read from the ledger.
pub const LEDGER_BLOCK_NONCE: u64 = 0x7bb9369dcbaec019;

/// What Keccak-256 (`sha3::Keccak256`) gives for the bytes `data`.
pub uninterp spec fn keccak256(data: Seq<u8>) -> Seq<u8>;

/// Hashes bytes with `sha3::Keccak256::digest`. Claimed: the 32-byte digest is a
/// function of the bytes alone; which function is left to the name.
#[verifier::external_body]
fn keccak256_digest(data: &[u8]) -> (res: H256)
    ensures
        res@ == keccak256(data@),
{
    H256 { bytes: sha3::Keccak256::digest(data).into() }
}

/// What `solana_sdk::hash::Hash::from_str` gives for a text: the 32 bytes of the hash
/// it writes in base 58, or `None` where it is refused.
pub uninterp spec fn base58_hash(text: Seq<char>) -> Option<Seq<u8>>;

/// Reads a base-58 block hash with `solana_sdk::hash::Hash::from_str`. Claimed: the
/// result is a function of the text alone, `None` exactly where that function refuses
/// the text, and a text of more than 44 characters (the longest base-58 text of 32
/// bytes) is refused; which other texts it accepts is left to the name.
#[verifier::external_body]
fn hash_from_base58(text: &str) -> (res: Option<H256>)
    ensures
        res is None <==> base58_hash(text@) is None,
        text@.len() > 44 ==> res is None,
        res matches Some(h) ==> base58_hash(text@) == Some(h@),
{
    match text.parse::<solana_sdk::hash::Hash>() {
        Ok(hash) => Some(H256 { bytes: hash.to_bytes() }),
        Err(_) => None,
    }
}

/// The text of the network id: `0x` and the chain id in lower-case hexadecimal.
pub open spec fn network_id_text() -> Seq<char> {
    seq!['0', 'x'] + hex_text(CHAIN_ID as nat)
}

/// The methods that report a fixed, single-node chain.
pub struct ChainMockERPCImpl;

impl ChainMockERPCImpl {
    /// The network id: the chain id in hexadecimal, after `0x`.
    pub fn network_id(&self) -> (res: Result<String, Error>)
        ensures
            res matches Ok(s) && s@ == network_id_text(),
    {
        let mut s = String::new();
        s.append("0x");
        proof {
            reveal_strlit("0x");
        }
        push_hex(&mut s, CHAIN_ID);
        assert(s@ =~= network_id_text());
        Ok(s)
    }

    /// The chain id.
    pub fn chain_id(&self) -> (res: Result<u64, Error>)
        ensures
            res == Ok::<u64, Error>(CHAIN_ID),
    {
        Ok(CHAIN_ID)
    }

    /// Whether the node listens for peers: always.
    pub fn is_listening(&self) -> (res: Result<bool, Error>)
        ensures
            res == Ok::<bool, Error>(true),
    {
        Ok(true)
    }

    /// The number of connected peers: none.
    pub fn peer_count(&self) -> (res: Result<usize, Error>)
        ensures
            res == Ok::<usize, Error>(0),
    {
        Ok(0)
    }

    /// The Keccak-256 hash of the given bytes.
    pub fn sha3(&self, bytes: Bytes) -> (res: Result<H256, Error>)
        ensures
            res matches Ok(h) && h@ == keccak256(bytes@),
    {
        Ok(keccak256_digest(bytes.data.as_slice()))
    }

    /// The client's name and version.
    pub fn client_version(&self) -> (res: Result<String, Error>)
        ensures
            res matches Ok(s) && s@ == "SolanaEvm/v0.1.0"@,
    {
        Ok(String::from_str("SolanaEvm/v0.1.0"))
    }

    /// The protocol version.
    pub fn protocol_version(&self) -> (res: Result<String, Error>)
        ensures
            res matches Ok(s) && s@ == "0"@,
    {
        Ok(String::from_str("0"))
    }

    /// Whether the node is syncing: never.
    pub fn is_syncing(&self) -> (res: Result<bool, Error>)
        ensures
            res == Ok::<bool, Error>(false),
    {
        Ok(false)
    }

    /// The coinbase address: all zero.
    pub fn coinbase(&self) -> (res: Result<Address, Error>)
        ensures
            res matches Ok(a) && a@ == Seq::new(20, |i: int| 0u8),
    {
        Ok(Address::zero())
    }

    /// Whether the node mines: never.
    pub fn is_mining(&self) -> (res: Result<bool, Error>)
        ensures
            res == Ok::<bool, Error>(false),
    {
        Ok(false)
    }

    /// The hash rate.
    pub fn hashrate(&self) -> (res: Result<String, Error>)
        ensures
            res matches Ok(s) && s@ == "0x00"@,
    {
        Ok(String::from_str("0x00"))
    }

    /// A block looked up by hash: whatever the hash, a block with number zero and every
    /// hash, count and amount zero.
    pub fn block_by_hash(&self, block_hash: H256, full: bool) -> (res: Result<Option<RPCBlock>, Error>)
        ensures
            res matches Ok(Some(b)) && block_has_shape(
                b,
                0,
                Seq::new(32, |i: int| 0u8),
                Seq::new(32, |i: int| 0u8),
                0,
                0,
            ),
    {
        Ok(Some(shaped_block(U256::zero(), H256::zero(), H256::zero(), 0, U256::zero())))
    }

    /// The number of transactions of a block looked up by number: unknown.
    pub fn block_transaction_count_by_number(&self, block: &str) -> (res: Result<Option<usize>, Error>)
        ensures
            res == Ok::<Option<usize>, Error>(None),
    {
        Ok(None)
    }

    /// The number of transactions of a block looked up by hash: not available.
    pub fn block_transaction_count_by_hash(&self, block_hash: H256) -> (res: Result<Option<usize>, Error>)
        ensures
            res == Err::<Option<usize>, Error>(Error::NotFound),
    {
        Err(Error::NotFound)
    }

    /// An uncle of a block looked up by hash: not available.
    pub fn uncle_by_block_hash_and_index(&self, block_hash: H256, uncle_id: U256) -> (res: Result<Option<RPCBlock>, Error>)
        ensures
            res matches Err(e) && e == Error::NotFound,
    {
        Err(Error::NotFound)
    }

    /// An uncle of a block looked up by number: not available.
    pub fn uncle_by_block_number_and_index(&self, block: &str, uncle_id: U256) -> (res: Result<Option<RPCBlock>, Error>)
        ensures
            res matches Err(e) && e == Error::NotFound,
    {
        Err(Error::NotFound)
    }

    /// The number of uncles of a block looked up by hash: not available.
    pub fn block_uncles_count_by_hash(&self, block_hash: H256) -> (res: Result<Option<usize>, Error>)
        ensures
            res == Err::<Option<usize>, Error>(Error::NotFound),
    {
        Err(Error::NotFound)
    }

    /// The number of uncles of a block looked up by number: not available.
    pub fn block_uncles_count_by_number(&self, block: &str) -> (res: Result<Option<usize>, Error>)
        ensures
            res == Err::<Option<usize>, Error>(Error::NotFound),
    {
        Err(Error::NotFound)
    }

    /// A transaction of a block looked up by hash and index: not available.
    pub fn transaction_by_block_hash_and_index(&self, block_hash: H256, tx_id: U256) -> (res: Result<Option<RPCTransaction>, Error>)
        ensures
            res matches Err(e) && e == Error::NotFound,
    {
        Err(Error::NotFound)
    }

    /// A transaction of a block looked up by number and index: not available.
    pub fn transaction_by_block_number_and_index(&self, block: &str, tx_id: U256) -> (res: Result<Option<RPCTransaction>, Error>)
        ensures
            res matches Err(e) && e == Error::NotFound,
    {
        Err(Error::NotFound)
    }
}

/// How the block parameter of a lookup by number reads.
#[derive(Clone, Copy, Debug, PartialEq, Eq, Structural)]
pub enum BlockTag {
    /// `pending`: a block not yet produced.
    Pending,
    /// `earliest`: the first block the ledger still holds.
    Earliest,
    /// `latest`: the most recent slot.
    Latest,
    /// A slot number in decimal.
    Number(u64),
    /// Anything else.
    Unparsed,
}

/// How a block parameter reads: one of the three named tags, a decimal slot number
/// (as `str::parse::<u64>` reads it), or neither.
pub open spec fn block_tag_of(text: Seq<char>) -> BlockTag {
    if text == "pending"@ {
        BlockTag::Pending
    } else if text == "earliest"@ {
        BlockTag::Earliest
    } else if text == "latest"@ {
        BlockTag::Latest
    } else {
        match parsed_u64(text) {
            Some(n) => BlockTag::Number(n),
            None => BlockTag::Unparsed,
        }
    }
}

/// Reads the block parameter of a lookup by number.
pub fn parse_block_tag(block: &str) -> (res: BlockTag)
    ensures
        res == block_tag_of(block@),
{
    if text_eq(block, "pending") {
        BlockTag::Pending
    } else if text_eq(block, "earliest") {
        BlockTag::Earliest
    } else if text_eq(block, "latest") {
        BlockTag::Latest
    } else {
        match parse_u64(block) {
            Some(n) => BlockTag::Number(n),
            None => BlockTag::Unparsed,
        }
    }
}

/// Where the slot of a block lookup comes from.
#[derive(Clone, Copy, Debug, PartialEq, Eq, Structural)]
pub enum SlotSource {
    /// This slot.
    Fixed(u64),
    /// The first slot the ledger still holds a block for.
    FirstAvailable,
    /// The slot the node is at.
    CurrentSlot,
}

/// The slot a block tag looks up: `earliest` and `latest` ask the ledger; a number is
/// that slot; `pending` and an unreadable tag fall back to slot zero.
pub open spec fn tag_slot_source(tag: BlockTag) -> SlotSource {
    match tag {
        BlockTag::Earliest => SlotSource::FirstAvailable,
        BlockTag::Latest => SlotSource::CurrentSlot,
        BlockTag::Number(n) => SlotSource::Fixed(n),
        BlockTag::Pending => SlotSource::Fixed(0),
        BlockTag::Unparsed => SlotSource::Fixed(0),
    }
}

/// The slot that a block tag looks up.
pub fn slot_source(tag: BlockTag) -> (res: SlotSource)
    ensures
        res == tag_slot_source(tag),
{
    match tag {
        BlockTag::Earliest => SlotSource::FirstAvailable,
        BlockTag::Latest => SlotSource::CurrentSlot,
        BlockTag::Number(n) => SlotSource::Fixed(n),
        BlockTag::Pending => SlotSource::Fixed(0),
        BlockTag::Unparsed => SlotSource::Fixed(0),
    }
}

/// The block reported for a slot of the ledger with the given hashes: the slot as the
/// number, the fixed ledger nonce, the largest gas limit, all else zero or empty.
pub fn rpc_block_for_slot(block_num: u64, hash: H256, parent_hash: H256) -> (res: RPCBlock)
    ensures
        block_has_shape(res, block_num as nat, hash@, parent_hash@, LEDGER_BLOCK_NONCE, u256_max()),
{
    shaped_block(U256::from_u64(block_num), hash, parent_hash, LEDGER_BLOCK_NONCE, U256::max_value())
}

/// The block reported for a slot whose block and parent hashes are written in base 58;
/// `None` where either hash cannot be read.
pub fn confirmed_block_to_rpc(block_num: u64, blockhash: &str, previous_blockhash: &str) -> (res:
    Option<RPCBlock>)
    ensures
        res is None <==> (base58_hash(blockhash@) is None || base58_hash(previous_blockhash@) is None),
        res matches Some(b) ==> block_has_shape(
            b,
            block_num as nat,
            base58_hash(blockhash@)->0,
            base58_hash(previous_blockhash@)->0,
            LEDGER_BLOCK_NONCE,
            u256_max(),
        ),
{
    let hash = hash_from_base58(blockhash);
    let parent_hash = hash_from_base58(previous_blockhash);
    match (hash, parent_hash) {
        (Some(h), Some(p)) => Some(rpc_block_for_slot(block_num, h, p)),
        _ => None,
    }
}

/// Law: a slot number written in decimal reads as that number, and looks up that slot.
pub proof fn law_decimal_tag_selects_slot(n: u64)
    ensures
        block_tag_of(decimal_text(n as nat)) == BlockTag::Number(n),
        tag_slot_source(block_tag_of(decimal_text(n as nat))) == SlotSource::Fixed(n),
{
    crate::numeric_text::law_decimal_round_trip(n);
    crate::numeric_text::lemma_decimal_text_digits(n as nat);
    let t = decimal_text(n as nat);
    reveal_strlit("pending");
    reveal_strlit("earliest");
    reveal_strlit("latest");
    assert(crate::numeric_text::is_decimal_digit(t[0]));
    assert(t != "pending"@) by {
        assert("pending"@[0] == 'p');
    }
    assert(t != "earliest"@) by {
        assert("earliest"@[0] == 'e');
    }
    assert(t != "latest"@) by {
        assert("latest"@[0] == 'l');
    }
}

/// Law: the network id is `0x77`, the chain id in hexadecimal.
pub proof fn law_network_id_is_hex_chain_id()
    ensures
        network_id_text() == "0x77"@,
        CHAIN_ID == 0x77,
{
    reveal_strlit("0x77");
    assert(hex_text(7) == seq!['7']);
    assert(hex_text(0x77) =~= seq!['7', '7']);
    assert(network_id_text() =~= "0x77"@);
}

} // verus!
