//! Authentication and settlement core of a cross-chain asset bridge.
//!
//! The library decides whether a claimed cross-chain transfer or
//! administrative action is authentic (deterministic operation encoding,
//! content hashing, sorted-pair Merkle proofs, recoverable ECDSA
//! signatures), prevents replays (a hash-keyed one-shot ledger and an
//! admin nonce), and reconciles two-leg deposits (fee + asset) exactly
//! once before forwarding them.

pub mod bridge;
pub mod bytes;
pub mod crypto;
pub mod decimal;
pub mod deposit_operation;
pub mod deposits;
pub mod encoder;
pub mod events;
pub mod fee_tokens;
pub mod feer;
pub mod feer_types;
pub mod hashes;
pub mod hex;
pub mod merkle;
pub mod types;
