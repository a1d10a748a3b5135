//! A verified core for a minimal account-based transfer client: gas pricing
//! with premium, gas-limit estimation with fallback and buffer, balance
//! sufficiency, transaction assembly, local signing, and the submission
//! state machine. Network calls are the caller's job; this crate takes their
//! results as plain values and decides every step.

pub mod address;
pub mod balance;
pub mod error;
pub mod gas;
pub mod pipeline;
pub mod rlp;
pub mod signing;
pub mod units;
