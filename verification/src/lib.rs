//! A tariff index oracle and a perpetual futures market on it.
//!
//! The oracle holds a baseline tariff, country add-ons and basket weights, and gives a tariff
//! index in basis points. The market trades against virtual constant-product reserves, takes
//! collateral in USDC, funds positions in whole periods, and liquidates accounts in parts. A
//! SOL/USD price feed gates the instructions that move risk.
//!
//! Each instruction is a function on the accounts it is given. It either refuses, with the first
//! rule that is violated and all accounts unchanged, or succeeds, with the accounts, the report
//! and the token transfers that its contract states. What holds of the instructions together
//! stands in `laws`.

pub mod accounts;
pub mod admin;
pub mod collateral;
pub mod error;
pub mod events;
pub mod funding;
pub mod laws;
pub mod liquidation;
pub mod margin;
pub mod market;
pub mod math;
pub mod oracle;
pub mod pyth;
pub mod trading;
