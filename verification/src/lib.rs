//! A deterministic raffle settlement engine: an append-only ticket ledger
//! with a cumulative-count index, a seed chain fed by replay-stable
//! transaction entropy, a weighted pseudo-random winner selection, a proceeds
//! distributor, and the state machine that gates them. The engine computes
//! what must move to whom; the hosting environment persists state, checks
//! capabilities, and executes transfers.

pub mod contract;
pub mod error;
pub mod execute;
pub mod models;
pub mod msg;
pub mod query;
pub mod seed;
pub mod selection;
pub mod distribution;
pub mod state;
