//! Wallet gateway core: the rules that sit between a REST facade and a
//! Bitcoin node's RPC interface.
//!
//! The crate performs no I/O. Each workflow is a small state machine: it
//! names the next gateway call, and the caller performs it and hands the
//! reply back. Validation of addresses and amounts happens before any call
//! is named.

pub mod error;
pub mod address;
pub mod amount;
pub mod rpc_client;
pub mod gateway;
pub mod wallet;
pub mod laws;
