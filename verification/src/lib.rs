//! Swap coordination for a constant-product pool, and the bookkeeping that
//! releases a staked asset.
//!
//! Everything here decides and computes on plain values. Moving funds,
//! reading the clock and talking to other programs is left to the caller,
//! which is handed exact descriptions of what to do.

pub mod config;
pub mod curve;
pub mod error;
pub mod settlement;
pub mod swap;
pub mod transfer;
pub mod unstake;
