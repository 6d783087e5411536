//! Gateway core for linked game-platform accounts.
//!
//! The gateway resolves an opaque access token into an account identity,
//! plans the backend request/reply calls each operation needs, and merges
//! the backend responses into one aggregated client view. All message-bus
//! transport lives outside this crate; the functions here are the pure
//! decision and aggregation logic, each with a verified contract.

pub mod aggregation;
pub mod identity;
pub mod messages;
pub mod model;
pub mod mutations;
