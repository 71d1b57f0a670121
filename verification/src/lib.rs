//! Confidential order-matching and settlement core for a cross-chain exchange.
//!
//! The library verifies the logic that runs on the exchange's sensitive data:
//! order validation and digests, the deterministic matching engine, settlement
//! directive generation, the ticket-based computation gateway, and the
//! publication of (still encrypted) results. Encrypted values are carried as
//! opaque 32-byte blocks; this core never decrypts them.

pub mod errors;
pub mod events;
pub mod gateway;
pub mod matching;
pub mod order;
pub mod publisher;
pub mod requests;
pub mod settlement;
pub mod transfer;
