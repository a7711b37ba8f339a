use evm_rpc_dashboard::basic::{call_parameters, BasicERPCImpl, ReceiptRecord, DEFAULT_CALL_GAS};
use evm_rpc_dashboard::rpc_types::{Address, Bytes, Error, RPCTransaction, H256, U256};

fn record() -> ReceiptRecord {
    ReceiptRecord {
        caller: Some(Address { bytes: [1u8; 20] }),
        address: Some(Address { bytes: [2u8; 20] }),
        gas_limit: U256::from_u64(21000),
        gas_price: U256::from_u64(5),
        value: U256 { high: 1, low: 3 },
        nonce: U256::from_u64(8),
        input: vec![0xaa, 0xbb],
        used_gas: 20000,
        succeeded: true,
    }
}

fn request() -> RPCTransaction {
    RPCTransaction {
        from: None,
        to: None,
        gas: None,
        gas_price: None,
        value: None,
        data: None,
        nonce: None,
        hash: None,
        transaction_index: None,
        block_hash: None,
        block_number: None,
    }
}

#[test]
fn block_number_is_slot() {
    assert_eq!(BasicERPCImpl.block_number(1234), Ok(1234));
}

#[test]
fn storage_reads_zero_when_empty() {
    assert_eq!(BasicERPCImpl.storage_at(None).unwrap().bytes, [0u8; 32]);
    assert_eq!(BasicERPCImpl.storage_at(Some(H256 { bytes: [9u8; 32] })).unwrap().bytes, [9u8; 32]);
}

#[test]
fn transaction_by_hash_reports_fields() {
    let hash = H256 { bytes: [3u8; 32] };
    let t = BasicERPCImpl.transaction_by_hash(Some(record()), hash).unwrap().unwrap();
    assert_eq!(t.transaction_index, Some(0));
    assert_eq!(t.block_hash.unwrap().bytes, [0u8; 32]);
    let n = t.block_number.unwrap();
    assert_eq!((n.high, n.low), (0, 0));
    assert_eq!(t.from.unwrap().bytes, [1u8; 20]);
    assert_eq!(t.to.unwrap().bytes, [2u8; 20]);
    assert_eq!(t.gas.unwrap().low, 21000);
    assert_eq!(t.gas_price.unwrap().low, 5);
    let v = t.value.unwrap();
    assert_eq!((v.high, v.low), (1, 3));
    assert_eq!(t.data.unwrap().data, vec![0xaa, 0xbb]);
    assert_eq!(t.nonce.unwrap().low, 8);
    assert_eq!(t.hash.unwrap().bytes, [3u8; 32]);
}

#[test]
fn transaction_by_hash_missing_or_unreadable() {
    let hash = H256::zero();
    assert!(matches!(BasicERPCImpl.transaction_by_hash(None, hash), Ok(None)));
    let mut r = record();
    r.caller = None;
    assert!(matches!(BasicERPCImpl.transaction_by_hash(Some(r), hash), Err(Error::InvalidParams)));
    let mut r = record();
    r.address = None;
    assert!(matches!(BasicERPCImpl.transaction_by_hash(Some(r), hash), Err(Error::InvalidParams)));
}

#[test]
fn receipt_reports_fields() {
    let hash = H256 { bytes: [4u8; 32] };
    let rc = BasicERPCImpl.transaction_receipt(Some(record()), hash).unwrap().unwrap();
    assert_eq!(rc.transaction_index, 0);
    assert_eq!(rc.block_hash.bytes, [0u8; 32]);
    assert_eq!((rc.block_number.high, rc.block_number.low), (0, 0));
    assert_eq!(rc.cumulative_gas_used.low, 20000);
    assert_eq!(rc.gas_used.low, 20000);
    assert_eq!(rc.transaction_hash.bytes, [4u8; 32]);
    assert!(rc.logs.is_empty());
    assert_eq!(rc.contract_address.unwrap().bytes, [2u8; 20]);
    assert_eq!(rc.root.bytes, [0u8; 32]);
    assert_eq!(rc.status, 1);
    let mut failed = record();
    failed.succeeded = false;
    assert_eq!(BasicERPCImpl.transaction_receipt(Some(failed), hash).unwrap().unwrap().status, 0);
}

#[test]
fn receipt_needs_address_but_not_sender() {
    let hash = H256::zero();
    assert!(matches!(BasicERPCImpl.transaction_receipt(None, hash), Ok(None)));
    let mut r = record();
    r.caller = None;
    assert!(matches!(BasicERPCImpl.transaction_receipt(Some(r), hash), Ok(Some(_))));
    let mut r = record();
    r.address = None;
    assert!(matches!(BasicERPCImpl.transaction_receipt(Some(r), hash), Err(Error::InvalidParams)));
}

#[test]
fn call_defaults() {
    let p = call_parameters(request()).unwrap();
    assert_eq!(p.caller.bytes, [0u8; 20]);
    assert_eq!(p.address.bytes, [0u8; 20]);
    assert_eq!((p.value.high, p.value.low), (0, 0));
    assert!(p.input.is_empty());
    assert_eq!(p.gas_limit, 300000);
    assert_eq!(DEFAULT_CALL_GAS, 300000);
}

#[test]
fn call_takes_what_the_request_names() {
    let mut tx = request();
    tx.from = Some(Address { bytes: [5u8; 20] });
    tx.to = Some(Address { bytes: [6u8; 20] });
    tx.value = Some(U256::from_u64(77));
    tx.data = Some(Bytes { data: vec![1, 2, 3] });
    tx.gas = Some(U256::from_u64(u64::MAX));
    let p = call_parameters(tx).unwrap();
    assert_eq!(p.caller.bytes, [5u8; 20]);
    assert_eq!(p.address.bytes, [6u8; 20]);
    assert_eq!(p.value.low, 77);
    assert_eq!(p.input, vec![1, 2, 3]);
    assert_eq!(p.gas_limit, u64::MAX);
}

#[test]
fn call_gas_over_64_bits_is_refused() {
    let mut tx = request();
    tx.gas = Some(U256 { high: 0, low: u64::MAX as u128 + 1 });
    assert!(matches!(call_parameters(tx), Err(Error::InvalidParams)));
    let mut tx = request();
    tx.gas = Some(U256 { high: 1, low: 0 });
    assert!(matches!(call_parameters(tx), Err(Error::InvalidParams)));
}

#[test]
fn u256_conversions() {
    assert_eq!(U256::from_u64(5).to_u64(), Some(5));
    assert_eq!(U256 { high: 0, low: 1u128 << 64 }.to_u64(), None);
    assert_eq!(U256::max_value().to_u64(), None);
    let m = U256::max_value();
    assert_eq!((m.high, m.low), (u128::MAX, u128::MAX));
    assert_eq!(U256::zero().to_u64(), Some(0));
}

#[test]
fn receipt_agrees_with_transaction_law_on_sample() {
    let hash = H256 { bytes: [8u8; 32] };
    let t = BasicERPCImpl.transaction_by_hash(Some(record()), hash).unwrap().unwrap();
    let rc = BasicERPCImpl.transaction_receipt(Some(record()), hash).unwrap().unwrap();
    assert_eq!(rc.contract_address.unwrap().bytes, t.to.unwrap().bytes);
    assert_eq!(t.hash.unwrap().bytes, rc.transaction_hash.bytes);
}

#[test]
fn lookups_are_none_exactly_without_receipt() {
    let hash = H256 { bytes: [5u8; 32] };
    assert!(matches!(BasicERPCImpl.transaction_by_hash(None, hash), Ok(None)));
    assert!(matches!(BasicERPCImpl.transaction_receipt(None, hash), Ok(None)));
    assert!(matches!(BasicERPCImpl.transaction_by_hash(Some(record()), hash), Ok(Some(_))));
    assert!(matches!(BasicERPCImpl.transaction_receipt(Some(record()), hash), Ok(Some(_))));
    let mut r = record();
    r.caller = None;
    assert!(matches!(BasicERPCImpl.transaction_receipt(Some(r), hash), Ok(Some(_))));
}
