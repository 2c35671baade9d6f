//! Core of an account-provisioning service for a remote ledger.
//!
//! Many concurrent requests share one signing identity. Each request must
//! obtain a distinct, monotonically increasing sequence number (nonce),
//! attach a fresh block reference, and submit a signed transaction; the
//! ledger rejects any attempt whose nonce does not match its expected value.
//! The modules here hold the verified logic: nonce allocation and
//! reconciliation, the block-reference cache, request normalization and
//! validation, outcome classification, and the conflict-retry workflow.

pub mod block_hash;
pub mod contract_helper;
pub mod create_account;
pub mod form;
pub mod nonce;
pub mod text;
pub mod workflow;
