//! An over-the-counter trade engine: a creator escrows a bundle of assets and
//! names the bundle wanted in return; a counterparty settles the trade by
//! supplying that bundle, and both legs are released atomically.

pub mod asset;
pub mod funds;
pub mod state;
pub mod engine;
pub mod laws;
pub mod register;
