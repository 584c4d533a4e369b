//! Wallet engine for Silent Payments.
//!
//! - `outputs`: the owned outputs, their spend lifecycle, balance and scan
//!   bookkeeping;
//! - `spend` and `fee`: the checks and amounts of a new transaction;
//! - `keys`, `text` and `wallet`: key derivation, parsing of keys, outpoints
//!   and phrases, and wallet setup;
//! - `psbt`: extraction of the final transaction;
//! - `broadcast`: the decisions of a broadcast that waits for its outcome;
//! - `streams`: the handles through which progress and logs are pushed out.

pub mod address;
pub mod broadcast;
pub mod error;
pub mod fee;
pub mod keys;
pub mod outputs;
pub mod psbt;
pub mod sp_outputs;
pub mod spend;
pub mod streams;
pub mod text;
pub mod types;
pub mod wallet;
