//! Instruction decoding and swap routing for a token-swap aggregation
//! program that runs inside an account-based ledger.
//!
//! Every item of this crate is verified. The host's own computations
//! (address derivation, the token program's record layout and instruction
//! builder) are reached through the few trusted functions of [`host`].

pub mod account;
pub mod address;
pub mod error;
pub mod host;
pub mod instruction;
pub mod invocation;
pub mod processor;
pub mod router;
pub mod state;
