//! Reconciles exported bank transactions against the expenses of a shared
//! ledger: filtering, duplicate detection and the per-item sync workflow,
//! with the plain records of the ledger's API.

pub mod calendar;
pub mod duplicate;
pub mod filter;
pub mod mint;
pub mod model;
pub mod money;
pub mod pattern;
pub mod remote;
pub mod sync;
pub mod text;
pub mod transaction;
