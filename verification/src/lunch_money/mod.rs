//! The ledger service: its transactions and the changes asked of it.

pub mod api;
pub mod model;
