//! Transactions as the ledger reports them.

use crate::date_helpers::Date;
use crate::usd::USD;
use vstd::prelude::*;

verus! {

/// The id that the ledger gives a transaction.
pub type TransactionId = u32;

/// A snapshot of one ledger transaction. It is never changed here: changes
/// are asked of the ledger.
#[derive(Debug, PartialEq, Clone)]
pub struct Transaction {
    pub id: TransactionId,
    pub date: Date,
    pub payee: String,
    pub amount: USD,
    pub plaid_account_id: Option<u32>,
    pub category_id: Option<u32>,
    pub category_name: Option<String>,
    pub tags: Vec<Tag>,
    pub notes: Option<String>,
    pub status: TransactionStatus,
    pub parent_id: Option<u32>,
    pub has_children: bool,
    pub is_pending: bool,
}

/// A label on a transaction.
#[derive(Debug, PartialEq, Clone)]
pub struct Tag {
    pub name: String,
    pub id: u32,
}

/// How far the ledger has come with a transaction.
#[derive(Debug, PartialEq, Eq, Clone, Copy, Structural)]
pub enum TransactionStatus {
    Cleared,
    Uncleared,
    Pending,
    DeletePending,
}

/// The names of `tags`, in their order.
pub open spec fn names_of(tags: Seq<Tag>) -> Seq<Seq<char>> {
    tags.map_values(|tag: Tag| tag.name@)
}

impl Transaction {
    /// Whether one of the transaction's tags is called `name`.
    pub open spec fn has_tag(&self, name: Seq<char>) -> bool {
        names_of(self.tags@).contains(name)
    }

    /// Whether the ledger has not settled the transaction yet, by its flag or
    /// by its status.
    pub open spec fn pending(&self) -> bool {
        self.is_pending || self.status == TransactionStatus::Pending
    }

    /// The names of the transaction's tags, in their order.
    pub fn tag_names(&self) -> (names: Vec<&String>)
        ensures
            names@.len() == self.tags@.len(),
            forall|i: int| 0 <= i < names@.len() ==> *names@[i] == self.tags@[i].name,
    {
        let mut names: Vec<&String> = Vec::new();
        let mut i: usize = 0;
        while i < self.tags.len()
            invariant
                i <= self.tags@.len(),
                names@.len() == i,
                forall|j: int| 0 <= j < i ==> *names@[j] == self.tags@[j].name,
            decreases self.tags@.len() - i,
        {
            names.push(&self.tags[i].name);
            i += 1;
        }
        names
    }

    /// Whether one of the transaction's tags is called `name`.
    pub fn is_tagged(&self, name: &String) -> (tagged: bool)
        ensures
            tagged == self.has_tag(name@),
    {
        let mut i: usize = 0;
        while i < self.tags.len()
            invariant
                i <= self.tags@.len(),
                forall|j: int| 0 <= j < i ==> self.tags@[j].name@ != name@,
            decreases self.tags@.len() - i,
        {
            if self.tags[i].name == *name {
                assert(names_of(self.tags@)[i as int] == name@);
                return true;
            }
            i += 1;
        }
        false
    }

    /// Whether the ledger has not settled the transaction yet.
    pub fn is_unsettled(&self) -> (unsettled: bool)
        ensures
            unsettled == self.pending(),
    {
        self.is_pending || matches!(self.status, TransactionStatus::Pending)
    }
}

} // verus!
