//! Accounting and risk core of a perpetual-futures exchange: fixed-point
//! arithmetic, oracle prices, pool pricing and the administrative
//! signature guard, each with a machine-checked contract.

pub mod bpf_writer;
pub mod error;
pub mod keys;
pub mod math;
pub mod oracle;
pub mod price_order;
pub mod gateway;
pub mod position;
pub mod custody;
pub mod pool;
pub mod lp;
pub mod multisig;
pub mod instructions;
pub mod queries;
pub mod liquidity;
pub mod trading;
pub mod admin;
