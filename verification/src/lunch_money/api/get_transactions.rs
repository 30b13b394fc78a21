//! Reading transactions from the ledger.

use crate::lunch_money::model::transaction::Transaction;
use vstd::prelude::*;

verus! {

/// The most transactions that the ledger returns for one request. It does
/// not say when it has left some out.
pub const PAGE_SIZE: usize = 1000;

/// Whether the ledger may have left transactions out of `txns`: whether it
/// returned a full page.
pub fn may_be_truncated(txns: &Vec<Transaction>) -> (full: bool)
    ensures
        full == (txns@.len() >= PAGE_SIZE),
{
    txns.len() >= PAGE_SIZE
}

} // verus!
