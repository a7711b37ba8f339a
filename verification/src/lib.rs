//! JSON-RPC answers of an EVM bridge on a Solana-style validator, and the
//! decisions behind the validator's terminal dashboard.

pub mod numeric_text;
pub mod rpc_types;
pub mod commitment;
pub mod chain_mock;
pub mod basic;
pub mod dashboard;
pub mod monitor;

