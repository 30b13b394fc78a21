//! Shared-expense batching and settlement matching between a creditor's and
//! a debtor's ledger.

pub mod cli;
pub mod commands;
pub mod config;
pub mod date_helpers;
pub mod email;
pub mod lunch_money;
pub mod persist;
pub mod text;
pub mod usd;
