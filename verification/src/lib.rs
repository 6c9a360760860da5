//! Message encoding and signed-envelope construction for a fund-mixing
//! contract on the TON ledger.

pub mod bits;
pub mod cell;
pub mod envelope;
pub mod gateway;
pub mod messages;
pub mod opcode;
pub mod requests;
pub mod retry;
pub mod spread;
pub mod types;
pub mod wallet;
