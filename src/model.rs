//! Plain records of the ledger's web API.

pub mod expenses;
pub mod form;
pub mod friends;
pub mod groups;
pub mod notifications;
pub mod other;
pub mod shared;
pub mod users;
