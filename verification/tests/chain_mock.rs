use evm_rpc_dashboard::chain_mock::{
    confirmed_block_to_rpc, parse_block_tag, rpc_block_for_slot, slot_source, BlockTag,
    ChainMockERPCImpl, SlotSource, CHAIN_ID, LEDGER_BLOCK_NONCE,
};
use evm_rpc_dashboard::numeric_text::u64_to_decimal;
use evm_rpc_dashboard::rpc_types::{BlockTransactions, Bytes, Error, RPCBlock, H256, U256};

fn hex(bytes: &[u8]) -> String {
    bytes.iter().map(|b| format!("{:02x}", b)).collect()
}

fn assert_plain_block(b: &RPCBlock) {
    assert_eq!(b.sha3_uncles.bytes, [0u8; 32]);
    assert_eq!(b.logs_bloom.bytes, [0u8; 32]);
    assert_eq!(b.transactions_root.bytes, [0u8; 32]);
    assert_eq!(b.state_root.bytes, [0u8; 32]);
    assert_eq!(b.receipts_root.bytes, [0u8; 32]);
    assert_eq!(b.miner.bytes, [0u8; 20]);
    assert_eq!((b.difficulty.high, b.difficulty.low), (0, 0));
    assert_eq!((b.total_difficulty.high, b.total_difficulty.low), (0, 0));
    assert!(b.extra_data.data.is_empty());
    assert_eq!(b.size, 0);
    assert_eq!((b.gas_used.high, b.gas_used.low), (0, 0));
    assert_eq!(b.timestamp, 0);
    assert!(matches!(&b.transactions, BlockTransactions::Hashes(h) if h.is_empty()));
    assert!(b.uncles.is_empty());
}

#[test]
fn network_identity() {
    let rpc = ChainMockERPCImpl;
    assert_eq!(rpc.network_id(), Ok("0x77".to_string()));
    assert_eq!(rpc.chain_id(), Ok(0x77));
    assert_eq!(CHAIN_ID, 119);
    assert_eq!(rpc.network_id().unwrap(), format!("0x{:x}", rpc.chain_id().unwrap()));
}

#[test]
fn fixed_node_answers() {
    let rpc = ChainMockERPCImpl;
    assert_eq!(rpc.is_listening(), Ok(true));
    assert_eq!(rpc.peer_count(), Ok(0));
    assert_eq!(rpc.client_version(), Ok("SolanaEvm/v0.1.0".to_string()));
    assert_eq!(rpc.protocol_version(), Ok("0".to_string()));
    assert_eq!(rpc.is_syncing(), Ok(false));
    assert_eq!(rpc.coinbase().unwrap().bytes, [0u8; 20]);
    assert_eq!(rpc.is_mining(), Ok(false));
    assert_eq!(rpc.hashrate(), Ok("0x00".to_string()));
}

#[test]
fn sha3_is_keccak256() {
    let rpc = ChainMockERPCImpl;
    let empty = rpc.sha3(Bytes { data: vec![] }).unwrap();
    assert_eq!(hex(&empty.bytes), "c5d2460186f7233c927e7db2dcc703c0e500b653ca82273b7bfad8045d85a470");
    let abc = rpc.sha3(Bytes { data: b"abc".to_vec() }).unwrap();
    assert_eq!(hex(&abc.bytes), "4e03657aea45a94fc7d47ba826c8d667c0d1e6e33a64a036ec44f58fa12d6c45");
}

#[test]
fn block_by_hash_is_all_zero() {
    let rpc = ChainMockERPCImpl;
    let b = rpc.block_by_hash(H256 { bytes: [7u8; 32] }, true).unwrap().unwrap();
    assert_eq!((b.number.high, b.number.low), (0, 0));
    assert_eq!(b.hash.bytes, [0u8; 32]);
    assert_eq!(b.parent_hash.bytes, [0u8; 32]);
    assert_eq!(b.nonce, 0);
    assert_eq!((b.gas_limit.high, b.gas_limit.low), (0, 0));
    assert_plain_block(&b);
}

#[test]
fn unavailable_lookups() {
    let rpc = ChainMockERPCImpl;
    let h = H256::zero();
    let id = U256::from_u64(1);
    assert_eq!(rpc.block_transaction_count_by_number("latest"), Ok(None));
    assert_eq!(rpc.block_transaction_count_by_hash(h), Err(Error::NotFound));
    assert!(matches!(rpc.uncle_by_block_hash_and_index(h, id), Err(Error::NotFound)));
    assert!(matches!(rpc.uncle_by_block_number_and_index("1", id), Err(Error::NotFound)));
    assert_eq!(rpc.block_uncles_count_by_hash(h), Err(Error::NotFound));
    assert_eq!(rpc.block_uncles_count_by_number("1"), Err(Error::NotFound));
    assert!(matches!(rpc.transaction_by_block_hash_and_index(h, id), Err(Error::NotFound)));
    assert!(matches!(rpc.transaction_by_block_number_and_index("1", id), Err(Error::NotFound)));
}

#[test]
fn block_tags() {
    assert_eq!(parse_block_tag("pending"), BlockTag::Pending);
    assert_eq!(parse_block_tag("earliest"), BlockTag::Earliest);
    assert_eq!(parse_block_tag("latest"), BlockTag::Latest);
    assert_eq!(parse_block_tag("1234"), BlockTag::Number(1234));
    assert_eq!(parse_block_tag("+1"), BlockTag::Number(1));
    assert_eq!(parse_block_tag("0x10"), BlockTag::Unparsed);
    assert_eq!(parse_block_tag("Latest"), BlockTag::Unparsed);
    assert_eq!(parse_block_tag(""), BlockTag::Unparsed);
}

#[test]
fn slot_sources() {
    assert_eq!(slot_source(BlockTag::Pending), SlotSource::Fixed(0));
    assert_eq!(slot_source(BlockTag::Unparsed), SlotSource::Fixed(0));
    assert_eq!(slot_source(BlockTag::Earliest), SlotSource::FirstAvailable);
    assert_eq!(slot_source(BlockTag::Latest), SlotSource::CurrentSlot);
    assert_eq!(slot_source(BlockTag::Number(77)), SlotSource::Fixed(77));
}

#[test]
fn decimal_tag_selects_slot_law_on_samples() {
    for n in [0u64, 7, 1000, u64::MAX] {
        let tag = parse_block_tag(&u64_to_decimal(n));
        assert_eq!(tag, BlockTag::Number(n));
        assert_eq!(slot_source(tag), SlotSource::Fixed(n));
    }
}

#[test]
fn ledger_block_for_slot() {
    let b = rpc_block_for_slot(42, H256 { bytes: [1u8; 32] }, H256 { bytes: [2u8; 32] });
    assert_eq!((b.number.high, b.number.low), (0, 42));
    assert_eq!(b.hash.bytes, [1u8; 32]);
    assert_eq!(b.parent_hash.bytes, [2u8; 32]);
    assert_eq!(b.nonce, 0x7bb9369dcbaec019);
    assert_eq!(LEDGER_BLOCK_NONCE, 0x7bb9369dcbaec019);
    assert_eq!((b.gas_limit.high, b.gas_limit.low), (u128::MAX, u128::MAX));
    assert_plain_block(&b);
}

#[test]
fn confirmed_block_hashes_read_from_base58() {
    let counting: Vec<u8> = (0u8..32).collect();
    let b = confirmed_block_to_rpc(
        9,
        "1thX6LZfHDZZKUs92febYZhYRcXddmzfzF2NvTkPNE",
        "11111111111111111111111111111111",
    )
    .unwrap();
    assert_eq!(b.hash.bytes.to_vec(), counting);
    assert_eq!(b.parent_hash.bytes, [0u8; 32]);
    assert_eq!((b.number.high, b.number.low), (0, 9));
    let b = confirmed_block_to_rpc(1, "JEKNVnkbo3jma5nREBBJCDoXFVeKkD56V3xKrvRmWxFG", "1thX6LZfHDZZKUs92febYZhYRcXddmzfzF2NvTkPNE").unwrap();
    assert_eq!(b.hash.bytes, [0xffu8; 32]);
}

#[test]
fn unreadable_block_hashes() {
    assert!(confirmed_block_to_rpc(1, "0OIl", "11111111111111111111111111111111").is_none());
    assert!(confirmed_block_to_rpc(1, "11111111111111111111111111111111", "abc").is_none());
    assert!(confirmed_block_to_rpc(1, "", "").is_none());
}
