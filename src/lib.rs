//! Commit-reveal rock-paper-scissors wagering with escrow settlement,
//! per-player ledgers and a liquidity pool that plays on behalf of depositors.

pub mod pubkey;
pub mod error;
pub mod commitment;
pub mod logic;
pub mod game;
pub mod pool;
pub mod escrow;
