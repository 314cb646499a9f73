//! Packaging of a compressed program module into contract-creation bytecode,
//! and the decisions of the transaction that deploys it.

pub mod amount;
pub mod check;
pub mod codec;
pub mod config;
pub mod deploy;
pub mod error;
pub mod fees;
pub mod text;
