pub mod get_transactions;
pub mod update_transaction;
