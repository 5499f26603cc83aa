//! Verified core of the FateSwap clearing house: a provably fair prediction
//! market in which players place "fate orders" at a chosen multiplier against
//! a pool of liquidity providers, after the settler has committed to the
//! SHA-256 of a server seed that it reveals at settlement.
//!
//! The library holds the protocol's accounts as plain data and every
//! decision its instructions make: validation, bet limits, LP share pricing,
//! settlement accounting and the revenue split. Moving lamports and tokens,
//! reading the clock and the rent sysvar, and logging events are left to the
//! program around it, which hands the results in as plain values.

pub mod errors;
pub mod events;
pub mod instructions;
pub mod laws;

pub mod math;
pub mod pubkey;
pub mod state;
