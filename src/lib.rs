//! An on-ledger guard program: heuristic security assessment of program binaries,
//! running transaction and gas statistics, and network health indicators, held in
//! bounded persistent records that a single authority may mutate.
pub mod account;
pub mod constants;
pub mod error;
pub mod instruction;
pub mod processor;
pub mod state;
pub mod utils;
